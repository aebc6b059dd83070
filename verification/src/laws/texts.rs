//! What the reading of texts is owed: lists, settings and the names that
//! services go by.
use vstd::prelude::*;
use crate::ip::IpAddress;
use crate::json;
use crate::json::{Json, JsonView};
use crate::laws::answers::says;
use crate::settings;
use crate::settings::{ApiMessage, HealthResponse, ServiceConfig};
use crate::text;
use crate::text_laws;

verus! {

/// What is filtered out of a sequence stood in it.
proof fn lemma_filtered<A>(all: Seq<A>, kept: spec_fn(A) -> bool, entry: A)
    requires
        all.filter(kept).contains(entry),
    ensures
        all.contains(entry),
        kept(entry),
    decreases all.len(),
{
    reveal(Seq::filter);
    let k = choose|k: int| 0 <= k < all.filter(kept).len() && all.filter(kept)[k] == entry;
    if all.len() > 0 {
        let before = all.drop_last().filter(kept);
        if k < before.len() {
            assert(before[k] == entry);
            lemma_filtered(all.drop_last(), kept, entry);
            let i = choose|i: int| 0 <= i < all.drop_last().len() && all.drop_last()[i] == entry;
            assert(all[i] == entry);
        } else {
            assert(all[all.len() - 1] == entry);
        }
    }
}

/// A list holds the entries between its commas, trimmed, without the empty ones.
pub proof fn lemma_listed(s: Seq<char>, entry: Seq<char>)
    ensures
        text::listed(s).contains(entry) <==> entry.len() > 0 && exists|i: int|
            0 <= i < text::pieces(s, ',').len() && text::trimmed(
                #[trigger] text::pieces(s, ',')[i],
            ) == entry,
{
    broadcast use vstd::seq_lib::group_filter_ensures;

    let kept = |piece: Seq<char>| piece.len() > 0;
    let all = text::pieces(s, ',').map_values(|piece: Seq<char>| text::trimmed(piece));
    assert(text::listed(s) == all.filter(kept));
    if text::listed(s).contains(entry) {
        lemma_filtered(all, kept, entry);
        let i = choose|i: int| 0 <= i < all.len() && all[i] == entry;
        assert(text::trimmed(text::pieces(s, ',')[i]) == entry);
    }
    if entry.len() > 0 && exists|i: int|
        0 <= i < text::pieces(s, ',').len() && text::trimmed(#[trigger] text::pieces(s, ',')[i])
            == entry {
        let i = choose|i: int|
            0 <= i < text::pieces(s, ',').len() && text::trimmed(#[trigger] text::pieces(s, ',')[i])
                == entry;
        assert(all[i] == entry);
        assert(kept(all[i]));
        assert(all.filter(kept).contains(all[i]));
    }
}

/// A list of nothing is empty.
pub proof fn lemma_nothing_listed()
    ensures
        text::listed(Seq::<char>::empty()).len() == 0,
{
    let none = Seq::<char>::empty();
    assert(text::pieces(none, ',') =~= seq![none]);
    assert(text::trimmed(none) =~= none);
    if text::listed(none).len() > 0 {
        let first = text::listed(none)[0];
        assert(text::listed(none).contains(first));
        lemma_listed(none, first);
    }
}

/// A list setting holds the entries between its commas, trimmed, without the
/// empty ones.
pub proof fn law_lists_hold_their_entries(value: &str, entry: Seq<char>, entries: Vec<String>)
    requires
        call_ensures(text::list_entries, (value,), entries),
    ensures
        text::views(entries@).contains(entry) <==> entry.len() > 0 && exists|i: int|
            0 <= i < text::pieces(value@, ',').len() && text::trimmed(
                #[trigger] text::pieces(value@, ',')[i],
            ) == entry,
{
    lemma_listed(value@, entry);
}

/// A list setting that is not made lists nothing.
pub proof fn law_list_settings(value: Option<&str>, entries: Vec<String>)
    requires
        call_ensures(settings::env_list, (value,), entries),
    ensures
        value is None ==> entries@.len() == 0,
        value matches Some(list) ==> text::views(entries@) == text::listed(list@),
{
    lemma_nothing_listed();
    assert(text::views(entries@).len() == entries@.len());
}

/// A number that is set is read, and any other setting leaves the default.
pub proof fn law_number_settings(
    n: u64,
    value: &str,
    default: u64,
    default_port: u16,
    read: u64,
    read_port: u16,
)
    requires
        value@ == text::decimal(n as nat),
        call_ensures(settings::env_u64, (Some(value), default), read),
        call_ensures(settings::env_u16, (Some(value), default_port), read_port),
    ensures
        read == n,
        n <= 65_535 ==> read_port == n,
        n > 65_535 ==> read_port == default_port,
{
    text_laws::lemma_decimal_digits(n as nat);
    assert(text::is_digit(value@[0]));
}

/// A setting that is not made, or that is no number, leaves the default.
pub proof fn law_settings_have_defaults(
    value: Option<&str>,
    default: u64,
    default_port: u16,
    read: u64,
    read_port: u16,
)
    requires
        value matches Some(word) ==> exists|i: int|
            0 <= i < word@.len() && !text::is_digit(#[trigger] word@[i]) && word@[i] != '+',
        call_ensures(settings::env_u64, (value, default), read),
        call_ensures(settings::env_u16, (value, default_port), read_port),
    ensures
        read == default,
        read_port == default_port,
{
    if let Some(word) = value {
        let i = choose|i: int|
            0 <= i < word@.len() && !text::is_digit(#[trigger] word@[i]) && word@[i] != '+';
        let digits = text::without_sign(word@, '+');
        if digits.len() < word@.len() {
            assert(digits[i - 1] == word@[i]);
        } else {
            assert(digits[i] == word@[i]);
        }
    }
}

/// A number setting is kept within its bounds, and within them as it is.
pub proof fn law_settings_stay_in_bounds(
    value: Option<&str>,
    default: u64,
    min: u64,
    max: u64,
    free: u64,
    bounded: u64,
)
    requires
        min <= max,
        call_ensures(settings::env_u64, (value, default), free),
        call_ensures(settings::env_u64_within, (value, default, min, max), bounded),
    ensures
        min <= bounded <= max,
        min <= free <= max ==> bounded == free,
        free < min ==> bounded == min,
        free > max ==> bounded == max,
{
}

/// A signed setting is read, and kept within its bounds.
pub proof fn law_signed_settings(n: i32, value: &str, default: i32, min: i32, max: i32, read: i32)
    requires
        min <= max,
        value@ == text::decimal_int(n as int),
        call_ensures(settings::env_i32, (Some(value), default, min, max), read),
    ensures
        read == (if n < min {
            min
        } else if n > max {
            max
        } else {
            n
        }),
{
    text_laws::law_signed_decimal_round_trip(n as i64);
}

/// A signed setting that is not made is the default, kept within its bounds.
pub proof fn law_signed_settings_have_defaults(default: i32, min: i32, max: i32, read: i32)
    requires
        min <= max,
        call_ensures(settings::env_i32, (None, default, min, max), read),
    ensures
        min <= default <= max ==> read == default,
        default < min ==> read == min,
        default > max ==> read == max,
{
}

/// A switch is on where it says true, in whatever case; one that is not set is as
/// it comes.
pub proof fn law_switches(value: Option<&str>, default: bool, on: bool, enabled: bool)
    requires
        call_ensures(settings::env_bool, (value, default), on),
        call_ensures(settings::store_enabled, (value,), enabled),
    ensures
        value is None ==> on == default && enabled,
        value matches Some(word) ==> (on <==> text::same_ignoring_case(word@, "true"@)) && (enabled
            <==> !text::same_ignoring_case(word@, "false"@)),
{
}

/// A text setting is as it was made, or the default.
pub proof fn law_text_settings(
    value: Option<&str>,
    default: &str,
    read: String,
    solid: Option<String>,
)
    requires
        call_ensures(settings::env_string, (value, default), read),
        call_ensures(settings::env_solid, (value,), solid),
    ensures
        value matches Some(word) ==> read@ == word@,
        value is None ==> read@ == default@ && solid is None,
        value matches Some(word) ==> text::trimmed(word@).len() > 0 ==> (solid matches Some(kept)
            && kept@ == word@),
        value matches Some(word) ==> text::trimmed(word@).len() == 0 ==> solid is None,
{
}

/// A secret comes from its file, trimmed; where that is missing or blank, from
/// the variable, unless that is empty.
pub proof fn law_secrets_come_from_files_first(
    file: Option<&str>,
    variable: Option<&str>,
    secret: Option<String>,
)
    requires
        call_ensures(settings::secret_or_variable, (file, variable), secret),
    ensures
        ({
            let written = file matches Some(contents) && text::trimmed(contents@).len() > 0;
            &&& written ==> (secret matches Some(found) && found@ == text::trimmed(file->0@))
            &&& !written ==> (variable matches Some(value) ==> value@.len() > 0 ==> (
            secret matches Some(found) && found@ == value@))
            &&& !written && (variable is None || variable->0@.len() == 0) ==> secret is None
        }),
{
}

/// Keys of a tenant are apart from those of every other tenant and of none.
pub proof fn law_tenants_have_their_own_keys(
    tenant: Option<&str>,
    base: &str,
    key: String,
)
    requires
        call_ensures(settings::tenant_key, (tenant, base), key),
    ensures
        tenant is None ==> key@ == base@,
        tenant matches Some(name) ==> text::trimmed(name@).len() == 0 ==> key@ == base@,
        tenant matches Some(name) ==> text::trimmed(name@).len() > 0 ==> key@ == "tenant:"@ + name@
            + ":"@ + base@,
{
}

/// A service is configured by variables that begin with its name, in upper case
/// and with underscores.
pub proof fn law_services_have_their_variables(service: &str, prefix: String, port: String, i: int)
    requires
        call_ensures(settings::env_prefix, (service,), prefix),
        call_ensures(settings::port_variable, (service,), port),
        0 <= i < service@.len(),
    ensures
        prefix@.len() == service@.len(),
        service@[i] == '-' ==> prefix@[i] == '_',
        service@[i] != '-' ==> prefix@[i] == text::upper_char(service@[i]),
        port@ == prefix@ + "_PORT"@,
{
}

/// A service listens on every address, on the port that is set or on its own.
pub proof fn law_services_listen(
    name: &str,
    default_port: u16,
    port: Option<&str>,
    secret: Option<&str>,
    config: ServiceConfig,
    bound: (IpAddress, u16),
)
    requires
        call_ensures(ServiceConfig::from_settings, (name, default_port, port, secret), config),
        call_ensures(ServiceConfig::bind_addr, (&config,), bound),
    ensures
        config.service_name@ == name@,
        port is None ==> config.port == default_port,
        bound.0 == IpAddress::V4([0, 0, 0, 0]),
        bound.1 == config.port,
        secret is None ==> config.webhook_shared_secret is None,
        secret matches Some(word) ==> text::trimmed(word@).len() > 0 ==> (
        config.webhook_shared_secret matches Some(kept) && kept@ == word@),
        secret matches Some(word) ==> text::trimmed(word@).len() == 0 ==>
            config.webhook_shared_secret is None,
{
}

/// What tells these names apart.
proof fn lemma_section_names_differ()
    ensures
        "service"@.len() == 7,
        "status"@.len() == 6,
{
    reveal_strlit("service");
    reveal_strlit("status");
}

/// A service that answers is healthy and says which one it is.
pub proof fn law_services_answer(
    service: &str,
    moment: &str,
    section: &str,
    status: &str,
    words: &str,
    health: HealthResponse,
    document: Json,
    spoken: ApiMessage,
)
    requires
        call_ensures(settings::health, (service, moment), health),
        call_ensures(settings::observability_section, (service, section), document),
        call_ensures(settings::message, (status, words), spoken),
        section@ != "service"@,
        section@ != "status"@,
    ensures
        health.status@ == "ok"@,
        health.service@ == service@,
        health.timestamp_utc@ == moment@,
        says(document@, "service"@, service@),
        says(document@, "status"@, "ok"@),
        json::member(document@, section@) == Some(JsonView::Array(Seq::empty())),
        spoken.status@ == status@,
        spoken.message@ == words@,
{
    lemma_section_names_differ();
}

/// Metrics name the service once as being there, and each counter on a line of
/// its own, in order.
pub proof fn law_counters_are_listed(
    service: &str,
    counters: Vec<(String, u64)>,
    name: String,
    value: u64,
    more: Vec<(String, u64)>,
    metrics: String,
    more_metrics: String,
)
    requires
        call_ensures(settings::metrics_text, (service, &counters), metrics),
        call_ensures(settings::metrics_text, (service, &more), more_metrics),
        more@ == counters@.push((name, value)),
    ensures
        more_metrics@ == metrics@ + settings::metric_name(service@) + "_"@ + name@ + " "@
            + text::decimal(value as nat) + "\n"@,
        ("# HELP "@ + settings::metric_name(service@)).is_prefix_of(metrics@),
        counters@.len() == 0 ==> metrics@ == "# HELP "@ + settings::metric_name(service@)
            + "_info Service metadata\n# TYPE "@ + settings::metric_name(service@)
            + "_info gauge\n"@ + settings::metric_name(service@) + "_info 1\n"@,
        settings::metric_name(service@).len() == service@.len(),
        forall|i: int|
            0 <= i < service@.len() ==> #[trigger] settings::metric_name(service@)[i] == (
            if text::is_alphanumeric(service@[i]) || service@[i] == '_' || service@[i] == ':' {
                service@[i]
            } else {
                '_'
            }),
{
    let known = settings::metric_name(service@);
    lemma_counter_prefix(known, counters@, more@, counters@.len());
    let lines = settings::counter_lines(known, counters@, counters@.len());
    assert(settings::counter_lines(known, more@, more@.len()) == lines + settings::counter_line(
        known,
        name@,
        value,
    ));
    let head = "# HELP "@ + known + "_info Service metadata\n# TYPE "@ + known + "_info gauge\n"@
        + known + "_info 1\n"@;
    assert(more_metrics@ =~= head + lines + known + "_"@ + name@ + " "@ + text::decimal(
        value as nat,
    ) + "\n"@);
    assert(metrics@.take(("# HELP "@ + known).len() as int) =~= "# HELP "@ + known);
    if counters@.len() == 0 {
        assert(lines =~= Seq::<char>::empty());
        assert(metrics@ =~= head);
    }
}

/// The first lines of a longer list are those of the shorter one.
proof fn lemma_counter_prefix(
    known: Seq<char>,
    counters: Seq<(String, u64)>,
    more: Seq<(String, u64)>,
    n: nat,
)
    requires
        n <= counters.len() <= more.len(),
        forall|i: int| 0 <= i < counters.len() ==> counters[i] == #[trigger] more[i],
    ensures
        settings::counter_lines(known, counters, n) == settings::counter_lines(known, more, n),
    decreases n,
{
    if n > 0 {
        lemma_counter_prefix(known, counters, more, (n - 1) as nat);
        assert(counters[n - 1] == more[n - 1]);
    }
}

} // verus!
