//! Settings as services read them from text, and the texts that every service
//! answers about itself.
use vstd::prelude::*;
use crate::ip::IpAddress;
use crate::json;
use crate::json::{Json, JsonObject, JsonView};
use crate::text;

verus! {

/// What a service is configured with.
#[derive(Debug)]
pub struct ServiceConfig {
    pub service_name: String,
    pub port: u16,
    pub webhook_shared_secret: Option<String>,
}

/// A status with a message.
#[derive(Debug)]
pub struct ApiMessage {
    pub status: String,
    pub message: String,
}

/// What a service answers about its health.
#[derive(Debug)]
pub struct HealthResponse {
    pub status: String,
    pub service: String,
    /// The time of the answer as text.
    pub timestamp_utc: String,
}

/// The setting, or a default where it is not set.
pub open spec fn string_setting(value: Option<Seq<char>>, default: Seq<char>) -> Seq<char> {
    match value {
        Some(s) => s,
        None => default,
    }
}

/// The number that a setting writes, or a default where it writes none up to `max`.
pub open spec fn number_setting(value: Option<Seq<char>>, max: nat, default: nat) -> nat {
    match value {
        Some(s) => match text::parsed_nat(s, max) {
            Some(n) => n,
            None => default,
        },
        None => default,
    }
}

/// The nearest number from `min` up to `max`.
pub open spec fn clamped(n: int, min: int, max: int) -> int {
    if n < min {
        min
    } else if n > max {
        max
    } else {
        n
    }
}

/// The signed number that a setting writes in 32 bits, or a default.
pub open spec fn signed_setting(value: Option<Seq<char>>, default: int) -> int {
    match value {
        Some(s) => match text::parsed_i64(s) {
            Some(n) if i32::MIN <= n <= i32::MAX => n,
            _ => default,
        },
        None => default,
    }
}

/// The setting says true; or its default where it is not set.
pub open spec fn flag_setting(value: Option<Seq<char>>, default: bool) -> bool {
    match value {
        Some(s) => text::same_ignoring_case(s, "true"@),
        None => default,
    }
}

/// The setting, where it is more than white space.
pub open spec fn solid_setting(value: Option<Seq<char>>) -> Option<Seq<char>> {
    match value {
        Some(s) if !text::is_blank(s) => Some(s),
        _ => None,
    }
}

/// The name of a stored key, under the tenant where there is one.
pub open spec fn tenant_key_of(tenant: Option<Seq<char>>, base: Seq<char>) -> Seq<char> {
    match solid_setting(tenant) {
        Some(name) => "tenant:"@ + name + ":"@ + base,
        None => base,
    }
}

/// The variable prefix of a service: upper case, with underscores for hyphens.
pub open spec fn prefix_of(service: Seq<char>) -> Seq<char> {
    text::upper(
        service.map_values(
            |c: char|
                if c == '-' {
                    '_'
                } else {
                    c
                },
        ),
    )
}

/// The first of a secret file's trimmed contents and a variable that holds something.
pub open spec fn secret_setting(file: Option<Seq<char>>, variable: Option<Seq<char>>) -> Option<
    Seq<char>,
> {
    match file {
        Some(contents) if !text::is_blank(contents) => Some(text::trimmed(contents)),
        _ => match variable {
            Some(s) if s.len() > 0 => Some(s),
            _ => None,
        },
    }
}

/// The service name with underscores for what a metric name cannot hold.
pub open spec fn metric_name(service: Seq<char>) -> Seq<char> {
    service.map_values(
        |c: char|
            if text::is_alphanumeric(c) || c == '_' || c == ':' {
                c
            } else {
                '_'
            },
    )
}

/// The line of one counter.
pub open spec fn counter_line(service: Seq<char>, name: Seq<char>, value: u64) -> Seq<char> {
    service + "_"@ + name + " "@ + text::decimal(value as nat) + "\n"@
}

/// The lines of the first `n` counters.
pub open spec fn counter_lines(
    service: Seq<char>,
    counters: Seq<(String, u64)>,
    n: nat,
) -> Seq<char>
    decreases n,
{
    if n == 0 || n > counters.len() {
        Seq::empty()
    } else {
        counter_lines(service, counters, (n - 1) as nat) + counter_line(
            service,
            counters[n - 1].0@,
            counters[n - 1].1,
        )
    }
}

/// A service that answers is in health.
pub fn health(service: &str, timestamp_utc: &str) -> (r: HealthResponse)
    ensures
        r.status@ == "ok"@,
        r.service@ == service@,
        r.timestamp_utc@ == timestamp_utc@,
{
    HealthResponse {
        status: "ok".to_string(),
        service: service.to_string(),
        timestamp_utc: timestamp_utc.to_string(),
    }
}

/// The metrics of a service in the text exposition format.
pub open spec fn metrics_of(service: Seq<char>, counters: Seq<(String, u64)>) -> Seq<char> {
    let name = metric_name(service);
    "# HELP "@ + name + "_info Service metadata\n# TYPE "@ + name + "_info gauge\n"@ + name
        + "_info 1\n"@ + counter_lines(name, counters, counters.len())
}

/// The setting, or a default where it is not set.
pub fn env_string(value: Option<&str>, default: &str) -> (r: String)
    ensures
        r@ == string_setting(text::opt_str_view(value), default@),
{
    match value {
        Some(s) => s.to_string(),
        None => default.to_string(),
    }
}

/// The number that a setting writes, or a default.
pub fn env_u64(value: Option<&str>, default: u64) -> (r: u64)
    ensures
        r == number_setting(text::opt_str_view(value), u64::MAX as nat, default as nat),
{
    match value {
        Some(s) => match text::parse_nat(s, u64::MAX) {
            Some(n) => n,
            None => default,
        },
        None => default,
    }
}

/// The number that a setting writes in 16 bits, or a default.
pub fn env_u16(value: Option<&str>, default: u16) -> (r: u16)
    ensures
        r == number_setting(text::opt_str_view(value), u16::MAX as nat, default as nat),
{
    match value {
        Some(s) => match text::parse_nat(s, 0xffff) {
            Some(n) => n as u16,
            None => default,
        },
        None => default,
    }
}

/// The number that a setting writes, or a default, brought between two bounds.
pub fn env_u64_within(value: Option<&str>, default: u64, min: u64, max: u64) -> (r: u64)
    requires
        min <= max,
    ensures
        r == clamped(
            number_setting(text::opt_str_view(value), u64::MAX as nat, default as nat) as int,
            min as int,
            max as int,
        ),
{
    let n = env_u64(value, default);
    if n < min {
        min
    } else if n > max {
        max
    } else {
        n
    }
}

/// The signed number that a setting writes, or a default, brought between two bounds.
pub fn env_i32(value: Option<&str>, default: i32, min: i32, max: i32) -> (r: i32)
    requires
        min <= max,
    ensures
        r == clamped(
            signed_setting(text::opt_str_view(value), default as int),
            min as int,
            max as int,
        ),
{
    let n: i32 = match value {
        Some(s) => match text::parse_i64(s) {
            Some(wide) => if -0x8000_0000 <= wide && wide <= 0x7fff_ffff {
                wide as i32
            } else {
                default
            },
            None => default,
        },
        None => default,
    };
    if n < min {
        min
    } else if n > max {
        max
    } else {
        n
    }
}

/// Whether a setting says true.
pub fn env_bool(value: Option<&str>, default: bool) -> (r: bool)
    ensures
        r == flag_setting(text::opt_str_view(value), default),
{
    match value {
        Some(s) => text::eq_ignoring_case(s, "true"),
        None => default,
    }
}

/// The comma separated entries of a setting.
pub fn env_list(value: Option<&str>) -> (r: Vec<String>)
    ensures
        text::views(r@) == text::listed(string_setting(text::opt_str_view(value), Seq::empty())),
{
    proof {
        reveal_strlit("");
        assert(""@ =~= Seq::<char>::empty());
    }
    text::list_entries(value.unwrap_or(""))
}

/// Whether a store is in use: it is unless its setting says false.
pub fn store_enabled(value: Option<&str>) -> (r: bool)
    ensures
        r == !(value is Some && text::same_ignoring_case(value->0@, "false"@)),
{
    match value {
        Some(s) => !text::eq_ignoring_case(s, "false"),
        None => true,
    }
}

/// The setting, where it is more than white space.
pub fn env_solid(value: Option<&str>) -> (r: Option<String>)
    ensures
        text::opt_view(r) == solid_setting(text::opt_str_view(value)),
{
    match value {
        Some(s) => if text::blank(s) {
            None
        } else {
            Some(s.to_string())
        },
        None => None,
    }
}

/// The name of a stored key, under the tenant where there is one.
pub fn tenant_key(tenant: Option<&str>, base: &str) -> (r: String)
    ensures
        r@ == tenant_key_of(text::opt_str_view(tenant), base@),
{
    match env_solid(tenant) {
        Some(name) => {
            let mut out = "tenant:".to_string();
            out.append(name.as_str());
            out.append(":");
            out.append(base);
            out
        },
        None => base.to_string(),
    }
}

/// The variable prefix of a service.
pub fn env_prefix(service: &str) -> (r: String)
    ensures
        r@ == prefix_of(service@),
{
    let chars = text::chars_of(service);
    let ghost mapped = service@.map_values(
        |c: char|
            if c == '-' {
                '_'
            } else {
                c
            },
    );
    let mut out = String::new();
    let mut i: usize = 0;
    while i < chars.len()
        invariant
            i <= chars@.len(),
            chars@ == service@,
            mapped.len() == service@.len(),
            forall|j: int|
                0 <= j < mapped.len() ==> #[trigger] mapped[j] == (if service@[j] == '-' {
                    '_'
                } else {
                    service@[j]
                }),
            out@ == mapped.take(i as int),
        decreases chars@.len() - i,
    {
        let c = if chars[i] == '-' {
            '_'
        } else {
            chars[i]
        };
        out.push(c);
        i += 1;
        assert(out@ =~= mapped.take(i as int));
    }
    assert(mapped.take(i as int) =~= mapped);
    text::to_upper(out.as_str())
}

/// The variable that names the port of a service.
pub fn port_variable(service: &str) -> (r: String)
    ensures
        r@ == prefix_of(service@) + "_PORT"@,
{
    let mut out = env_prefix(service);
    out.append("_PORT");
    out
}

/// The first of a secret file's trimmed contents and a variable that holds something.
pub fn secret_or_variable(file: Option<&str>, variable: Option<&str>) -> (r: Option<String>)
    ensures
        text::opt_view(r) == secret_setting(
            text::opt_str_view(file),
            text::opt_str_view(variable),
        ),
{
    if let Some(contents) = file {
        let solid = text::trim(contents);
        if !solid.as_str().is_empty() {
            return Some(solid);
        }
    }
    match variable {
        Some(s) => if s.is_empty() {
            None
        } else {
            Some(s.to_string())
        },
        None => None,
    }
}

impl ServiceConfig {
    /// The configuration that the port setting and the webhook secret make.
    pub fn from_settings(
        service_name: &str,
        default_port: u16,
        port: Option<&str>,
        webhook_shared_secret: Option<&str>,
    ) -> (r: ServiceConfig)
        ensures
            r.service_name@ == service_name@,
            r.port == number_setting(
                text::opt_str_view(port),
                u16::MAX as nat,
                default_port as nat,
            ),
            text::opt_view(r.webhook_shared_secret) == solid_setting(
                text::opt_str_view(webhook_shared_secret),
            ),
    {
        ServiceConfig {
            service_name: service_name.to_string(),
            port: env_u16(port, default_port),
            webhook_shared_secret: env_solid(webhook_shared_secret),
        }
    }

    /// Where the service listens: on its port at every address of the machine.
    pub fn bind_addr(&self) -> (r: (IpAddress, u16))
        ensures
            r == (IpAddress::V4([0, 0, 0, 0]), self.port),
    {
        (IpAddress::V4([0, 0, 0, 0]), self.port)
    }
}

/// A status with a message.
pub fn message(status: &str, words: &str) -> (r: ApiMessage)
    ensures
        r.status@ == status@,
        r.message@ == words@,
{
    ApiMessage { status: status.to_string(), message: words.to_string() }
}

/// The service name with underscores for what a metric name cannot hold.
fn metric_prefix(service: &str) -> (r: String)
    ensures
        r@ == metric_name(service@),
{
    let chars = text::chars_of(service);
    let mut out = String::new();
    let mut i: usize = 0;
    while i < chars.len()
        invariant
            i <= chars@.len(),
            chars@ == service@,
            out@ == metric_name(service@.take(i as int)),
        decreases chars@.len() - i,
    {
        let c = chars[i];
        let plain = ('0' <= c && c <= '9') || ('a' <= c && c <= 'z') || ('A' <= c && c <= 'Z') || c
            == '_' || c == ':';
        out.push(
            if plain {
                c
            } else {
                '_'
            },
        );
        i += 1;
        assert(out@ =~= metric_name(service@.take(i as int)));
    }
    assert(service@.take(i as int) =~= service@);
    out
}

/// The metrics of a service in the text exposition format.
pub fn metrics_text(service: &str, counters: &Vec<(String, u64)>) -> (r: String)
    ensures
        r@ == metrics_of(service@, counters@),
{
    let name = metric_prefix(service);
    let mut out = "# HELP ".to_string();
    out.append(name.as_str());
    out.append("_info Service metadata\n# TYPE ");
    out.append(name.as_str());
    out.append("_info gauge\n");
    out.append(name.as_str());
    out.append("_info 1\n");
    let ghost head = out@;
    let mut i: usize = 0;
    assert(out@ =~= head + counter_lines(name@, counters@, 0));
    while i < counters.len()
        invariant
            i <= counters@.len(),
            out@ == head + counter_lines(name@, counters@, i as nat),
        decreases counters@.len() - i,
    {
        let ghost before = counter_lines(name@, counters@, i as nat);
        out.append(name.as_str());
        out.append("_");
        out.append(counters[i].0.as_str());
        out.append(" ");
        out.append(text::u64_text(counters[i].1).as_str());
        out.append("\n");
        assert(out@ =~= head + (before + counter_line(
            name@,
            counters@[i as int].0@,
            counters@[i as int].1,
        )));
        i += 1;
    }
    out
}

/// The document of a section that has nothing to show.
pub open spec fn empty_section(service: Seq<char>, section: Seq<char>) -> JsonView {
    JsonView::Object(
        map![
            "service"@ => JsonView::Text(service),
            section => JsonView::Array(Seq::empty()),
            "status"@ => JsonView::Text("ok"@),
        ],
    )
}

/// The document of a section that has nothing to show.
pub fn observability_section(service: &str, section: &str) -> (r: Json)
    ensures
        r@ == empty_section(service@, section@),
{
    let mut body = JsonObject::new();
    body.put("service", json::text_value(service));
    body.put(section, Json::Array(Vec::new()));
    body.put("status", json::text_value("ok"));
    Json::Object(body)
}

} // verus!
