//! Paid crawling: crawlers pay for the pages they fetch through the proxy. A
//! charge is given back whenever the page could not be delivered.
use vstd::prelude::*;
use crate::json;
use crate::json::{Json, JsonObject, JsonView};
use crate::outside;
use crate::outside::UrlView;
use crate::reply;
use crate::reply::{Reply, ReplyView};
use crate::settings;
use crate::text;

verus! {

/// A payment: who pays, and the amount in the notations that gateways take.
/// Amounts are measured outside; a notation is kept as it was measured.
#[derive(Debug)]
pub struct Payment {
    pub token: String,
    /// The amount in hundredths, rounded.
    pub minor_units: i64,
    /// The amount with two decimals.
    pub two_decimals: String,
    /// The amount as a JSON number.
    pub amount: String,
    /// The amount taken away, as a JSON number.
    pub negative_amount: String,
}

/// What a payment says.
pub ghost struct PaymentView {
    pub token: Seq<char>,
    pub minor_units: i64,
    pub two_decimals: Seq<char>,
    pub amount: Seq<char>,
    pub negative_amount: Seq<char>,
}

impl View for Payment {
    type V = PaymentView;

    open spec fn view(&self) -> PaymentView {
        PaymentView {
            token: self.token@,
            minor_units: self.minor_units,
            two_decimals: self.two_decimals@,
            amount: self.amount@,
            negative_amount: self.negative_amount@,
        }
    }
}

/// The currency setting, or the default one, in upper case.
pub open spec fn currency_of(setting: Option<Seq<char>>) -> Seq<char> {
    text::upper(settings::string_setting(setting, "USD"@))
}

/// The payload that a payment provider takes for an operation.
pub open spec fn gateway_payload(
    provider: Seq<char>,
    operation: Seq<char>,
    payment: PaymentView,
    currency: Option<Seq<char>>,
    key: Seq<char>,
) -> JsonView {
    let refund = operation == "refund"@;
    if provider == "stripe"@ || provider == "stripe-compatible"@ {
        JsonView::Object(
            map![
                "metadata"@ => JsonView::Object(
                    map!["crawler_token"@ => JsonView::Text(payment.token)],
                ),
                "amount"@ => JsonView::Int(payment.minor_units as int),
                "currency"@ => JsonView::Text(settings::string_setting(currency, "usd"@)),
                "capture_method"@ => JsonView::Text("automatic"@),
                "operation"@ => JsonView::Text(operation),
            ],
        )
    } else if provider == "paypal"@ || provider == "paypal-compatible"@ {
        JsonView::Object(
            map![
                "intent"@ => JsonView::Text(if refund { "REFUND"@ } else { "CAPTURE"@ }),
                "purchase_units"@ => JsonView::Array(
                    seq![
                        JsonView::Object(
                            map![
                                "reference_id"@ => JsonView::Text(payment.token),
                                "amount"@ => JsonView::Object(
                                    map![
                                        "currency_code"@ => JsonView::Text(currency_of(currency)),
                                        "value"@ => JsonView::Text(payment.two_decimals),
                                    ],
                                ),
                            ],
                        ),
                    ],
                ),
            ],
        )
    } else if provider == "braintree"@ || provider == "braintree-compatible"@ {
        JsonView::Object(
            map![
                "customer_id"@ => JsonView::Text(payment.token),
                "amount"@ => JsonView::Text(payment.two_decimals),
                "operation"@ => JsonView::Text(operation),
            ],
        )
    } else if provider == "square"@ || provider == "square-compatible"@ {
        JsonView::Object(
            map![
                "idempotency_key"@ => JsonView::Text(key),
                "source_id"@ => JsonView::Text(payment.token),
                "amount_money"@ => JsonView::Object(
                    map![
                        "amount"@ => JsonView::Int(payment.minor_units as int),
                        "currency"@ => JsonView::Text(currency_of(currency)),
                    ],
                ),
                "operation"@ => JsonView::Text(operation),
            ],
        )
    } else if provider == "adyen"@ || provider == "adyen-compatible"@ {
        JsonView::Object(
            map![
                "reference"@ => JsonView::Text(payment.token),
                "amount"@ => JsonView::Object(
                    map![
                        "currency"@ => JsonView::Text(currency_of(currency)),
                        "value"@ => JsonView::Int(payment.minor_units as int),
                    ],
                ),
                "operation"@ => JsonView::Text(operation),
            ],
        )
    } else if provider == "authorizenet"@ || provider == "authorize_net"@ || provider
        == "authorize.net"@ {
        JsonView::Object(
            map![
                "createTransactionRequest"@ => JsonView::Object(
                    map![
                        "transactionRequest"@ => JsonView::Object(
                            map![
                                "transactionType"@ => JsonView::Text(
                                    if refund {
                                        "refundTransaction"@
                                    } else {
                                        "authCaptureTransaction"@
                                    },
                                ),
                                "amount"@ => JsonView::Text(payment.two_decimals),
                                "refTransId"@ => JsonView::Text(payment.token),
                            ],
                        ),
                    ],
                ),
            ],
        )
    } else if provider == "credit-ledger"@ || provider == "internal-ledger"@ {
        JsonView::Object(
            map![
                "account"@ => JsonView::Text(payment.token),
                "credit_delta"@ => JsonView::Decimal(
                    if refund {
                        payment.negative_amount
                    } else {
                        payment.amount
                    },
                ),
                "source"@ => JsonView::Text("pay-per-crawl"@),
            ],
        )
    } else {
        JsonView::Object(
            map![
                "token"@ => JsonView::Text(payment.token),
                "amount"@ => JsonView::Decimal(payment.amount),
                "provider"@ => JsonView::Text(provider),
            ],
        )
    }
}

/// One of two texts.
fn either(first: bool, a: &str, b: &str) -> (r: Json)
    ensures
        r@ == JsonView::Text(if first { a@ } else { b@ }),
{
    if first {
        json::text_value(a)
    } else {
        json::text_value(b)
    }
}

/// The currency in upper case.
fn read_currency(currency: Option<&str>) -> (r: Json)
    ensures
        r@ == JsonView::Text(currency_of(text::opt_str_view(currency))),
{
    let setting = settings::env_string(currency, "USD");
    Json::Text(text::to_upper(setting.as_str()))
}

fn stripe_payload(operation: &str, payment: &Payment, currency: Option<&str>) -> (r: Json)
    ensures
        r@ == JsonView::Object(
            map![
                "metadata"@ => JsonView::Object(
                    map!["crawler_token"@ => JsonView::Text(payment@.token)],
                ),
                "amount"@ => JsonView::Int(payment@.minor_units as int),
                "currency"@ => JsonView::Text(
                    settings::string_setting(text::opt_str_view(currency), "usd"@),
                ),
                "capture_method"@ => JsonView::Text("automatic"@),
                "operation"@ => JsonView::Text(operation@),
            ],
        ),
{
    let mut metadata = JsonObject::new();
    metadata.put("crawler_token", json::text_value(payment.token.as_str()));
    let mut body = JsonObject::new();
    body.put("metadata", Json::Object(metadata));
    body.put("amount", Json::Signed(payment.minor_units));
    body.put("currency", json::text_value(settings::env_string(currency, "usd").as_str()));
    body.put("capture_method", json::text_value("automatic"));
    body.put("operation", json::text_value(operation));
    Json::Object(body)
}

fn paypal_payload(refund: bool, payment: &Payment, currency: Option<&str>) -> (r: Json)
    ensures
        r@ == JsonView::Object(
            map![
                "intent"@ => JsonView::Text(if refund { "REFUND"@ } else { "CAPTURE"@ }),
                "purchase_units"@ => JsonView::Array(
                    seq![
                        JsonView::Object(
                            map![
                                "reference_id"@ => JsonView::Text(payment@.token),
                                "amount"@ => JsonView::Object(
                                    map![
                                        "currency_code"@ => JsonView::Text(
                                            currency_of(text::opt_str_view(currency)),
                                        ),
                                        "value"@ => JsonView::Text(payment@.two_decimals),
                                    ],
                                ),
                            ],
                        ),
                    ],
                ),
            ],
        ),
{
    let mut amount = JsonObject::new();
    amount.put("currency_code", read_currency(currency));
    amount.put("value", json::text_value(payment.two_decimals.as_str()));
    let mut unit = JsonObject::new();
    unit.put("reference_id", json::text_value(payment.token.as_str()));
    unit.put("amount", Json::Object(amount));
    let mut body = JsonObject::new();
    body.put("intent", either(refund, "REFUND", "CAPTURE"));
    body.put("purchase_units", json::one_item(Json::Object(unit)));
    Json::Object(body)
}

fn authorize_payload(refund: bool, payment: &Payment) -> (r: Json)
    ensures
        r@ == JsonView::Object(
            map![
                "createTransactionRequest"@ => JsonView::Object(
                    map![
                        "transactionRequest"@ => JsonView::Object(
                            map![
                                "transactionType"@ => JsonView::Text(
                                    if refund {
                                        "refundTransaction"@
                                    } else {
                                        "authCaptureTransaction"@
                                    },
                                ),
                                "amount"@ => JsonView::Text(payment@.two_decimals),
                                "refTransId"@ => JsonView::Text(payment@.token),
                            ],
                        ),
                    ],
                ),
            ],
        ),
{
    let mut request = JsonObject::new();
    request.put("transactionType", either(refund, "refundTransaction", "authCaptureTransaction"));
    request.put("amount", json::text_value(payment.two_decimals.as_str()));
    request.put("refTransId", json::text_value(payment.token.as_str()));
    let mut create = JsonObject::new();
    create.put("transactionRequest", Json::Object(request));
    let mut body = JsonObject::new();
    body.put("createTransactionRequest", Json::Object(create));
    Json::Object(body)
}

fn square_payload(operation: &str, payment: &Payment, currency: Option<&str>, key: &str) -> (r: Json)
    ensures
        r@ == JsonView::Object(
            map![
                "idempotency_key"@ => JsonView::Text(key@),
                "source_id"@ => JsonView::Text(payment@.token),
                "amount_money"@ => JsonView::Object(
                    map![
                        "amount"@ => JsonView::Int(payment@.minor_units as int),
                        "currency"@ => JsonView::Text(currency_of(text::opt_str_view(currency))),
                    ],
                ),
                "operation"@ => JsonView::Text(operation@),
            ],
        ),
{
    let mut money = JsonObject::new();
    money.put("amount", Json::Signed(payment.minor_units));
    money.put("currency", read_currency(currency));
    let mut body = JsonObject::new();
    body.put("idempotency_key", json::text_value(key));
    body.put("source_id", json::text_value(payment.token.as_str()));
    body.put("amount_money", Json::Object(money));
    body.put("operation", json::text_value(operation));
    Json::Object(body)
}

fn adyen_payload(operation: &str, payment: &Payment, currency: Option<&str>) -> (r: Json)
    ensures
        r@ == JsonView::Object(
            map![
                "reference"@ => JsonView::Text(payment@.token),
                "amount"@ => JsonView::Object(
                    map![
                        "currency"@ => JsonView::Text(currency_of(text::opt_str_view(currency))),
                        "value"@ => JsonView::Int(payment@.minor_units as int),
                    ],
                ),
                "operation"@ => JsonView::Text(operation@),
            ],
        ),
{
    let mut amount = JsonObject::new();
    amount.put("currency", read_currency(currency));
    amount.put("value", Json::Signed(payment.minor_units));
    let mut body = JsonObject::new();
    body.put("reference", json::text_value(payment.token.as_str()));
    body.put("amount", Json::Object(amount));
    body.put("operation", json::text_value(operation));
    Json::Object(body)
}

/// The payload that a payment provider takes for an operation, with the key
/// under which a repetition is recognized.
pub fn payment_gateway_payload_with(
    provider: &str,
    operation: &str,
    payment: &Payment,
    currency: Option<&str>,
    key: &str,
) -> (r: Json)
    ensures
        r@ == gateway_payload(
            provider@,
            operation@,
            payment@,
            text::opt_str_view(currency),
            key@,
        ),
{
    let refund = text::text_eq(operation, "refund");
    if text::text_eq(provider, "stripe") || text::text_eq(provider, "stripe-compatible") {
        return stripe_payload(operation, payment, currency);
    }
    if text::text_eq(provider, "paypal") || text::text_eq(provider, "paypal-compatible") {
        return paypal_payload(refund, payment, currency);
    }
    if text::text_eq(provider, "braintree") || text::text_eq(provider, "braintree-compatible") {
        let mut body = JsonObject::new();
        body.put("customer_id", json::text_value(payment.token.as_str()));
        body.put("amount", json::text_value(payment.two_decimals.as_str()));
        body.put("operation", json::text_value(operation));
        return Json::Object(body);
    }
    if text::text_eq(provider, "square") || text::text_eq(provider, "square-compatible") {
        return square_payload(operation, payment, currency, key);
    }
    if text::text_eq(provider, "adyen") || text::text_eq(provider, "adyen-compatible") {
        return adyen_payload(operation, payment, currency);
    }
    if text::text_eq(provider, "authorizenet") || text::text_eq(provider, "authorize_net")
        || text::text_eq(provider, "authorize.net") {
        return authorize_payload(refund, payment);
    }
    if text::text_eq(provider, "credit-ledger") || text::text_eq(provider, "internal-ledger") {
        let delta = if refund {
            payment.negative_amount.clone()
        } else {
            payment.amount.clone()
        };
        let mut body = JsonObject::new();
        body.put("account", json::text_value(payment.token.as_str()));
        body.put("credit_delta", Json::Decimal(delta));
        body.put("source", json::text_value("pay-per-crawl"));
        return Json::Object(body);
    }
    let mut body = JsonObject::new();
    body.put("token", json::text_value(payment.token.as_str()));
    body.put("amount", Json::Decimal(payment.amount.clone()));
    body.put("provider", json::text_value(provider));
    Json::Object(body)
}

/// The payload that a payment provider takes for an operation.
pub fn payment_gateway_payload(
    provider: &str,
    operation: &str,
    payment: &Payment,
    currency: Option<&str>,
) -> (r: Json)
    ensures
        exists|id: Seq<char>|
            outside::is_identifier(id) && r@ == gateway_payload(
                provider@,
                operation@,
                payment@,
                text::opt_str_view(currency),
                #[trigger] outside::hyphenated(id),
            ),
{
    let key = outside::random_uuid();
    payment_gateway_payload_with(provider, operation, payment, currency, key.as_str())
}

/// Refuses a payment without a token or without a positive finite amount.
pub fn validate_payment(token: &str, positive_finite: bool) -> (r: Result<(), Reply>)
    ensures
        match r {
            Ok(_) => !text::is_blank(token@) && positive_finite,
            Err(reply) => (text::is_blank(token@) || !positive_finite) && reply@ == reply::refusal(
                reply::BAD_REQUEST,
                "token and a positive finite amount are required"@,
            ),
        },
{
    if text::blank(token) || !positive_finite {
        return Err(
            reply::refuse(reply::BAD_REQUEST, "token and a positive finite amount are required"),
        );
    }
    Ok(())
}

/// A crawler as the gateway is told of it.
pub fn crawler_gateway_payload(token: &str, name: &str, purpose: &str) -> (r: Json)
    ensures
        r@ == JsonView::Object(
            map![
                "token"@ => JsonView::Text(token@),
                "name"@ => JsonView::Text(name@),
                "purpose"@ => JsonView::Text(purpose@),
            ],
        ),
{
    let mut body = JsonObject::new();
    body.put("token", json::text_value(token));
    body.put("name", json::text_value(name));
    body.put("purpose", json::text_value(purpose));
    Json::Object(body)
}

/// The token of a new crawler: the one it asks for, unless that is blank.
pub fn crawler_token(wanted: Option<&str>) -> (r: String)
    ensures
        match settings::solid_setting(text::opt_str_view(wanted)) {
            Some(token) => r@ == token,
            None => exists|id: Seq<char>|
                outside::is_identifier(id) && r@ == #[trigger] outside::hyphenated(id),
        },
{
    match settings::env_solid(wanted) {
        Some(token) => token,
        None => outside::random_uuid(),
    }
}

/// The answer to a registration; a new crawler has no credit.
pub fn registration_answer(token: &str, name: &str, purpose: &str) -> (r: Json)
    ensures
        r@ == JsonView::Object(
            map![
                "status"@ => JsonView::Text("success"@),
                "crawler"@ => JsonView::Object(
                    map![
                        "name"@ => JsonView::Text(name@),
                        "token"@ => JsonView::Text(token@),
                        "purpose"@ => JsonView::Text(purpose@),
                        "credit"@ => JsonView::Decimal("0.0"@),
                    ],
                ),
            ],
        ),
{
    let mut crawler = JsonObject::new();
    crawler.put("name", json::text_value(name));
    crawler.put("token", json::text_value(token));
    crawler.put("purpose", json::text_value(purpose));
    crawler.put("credit", Json::Decimal("0.0".to_string()));
    let mut body = JsonObject::new();
    body.put("status", json::text_value("success"));
    body.put("crawler", Json::Object(crawler));
    Json::Object(body)
}

/// What the gateway did with a request.
#[derive(Debug, Clone, Copy, PartialEq, Eq, Structural)]
pub enum GatewayResult {
    Accepted,
    Rejected(u16),
    Unavailable,
}

/// What a crawler is told of the gateway.
pub open spec fn gateway_outcome(
    result: GatewayResult,
    operation: Seq<char>,
    detail: Seq<char>,
) -> Option<ReplyView> {
    match result {
        GatewayResult::Accepted => None,
        GatewayResult::Rejected(status) => Some(
            ReplyView {
                status: reply::BAD_GATEWAY,
                body: JsonView::Object(
                    map![
                        "status"@ => JsonView::Text("error"@),
                        "message"@ => JsonView::Text("payment gateway rejected request"@),
                        "operation"@ => JsonView::Text(operation),
                        "upstream_status"@ => JsonView::Int(status as int),
                    ],
                ),
            },
        ),
        GatewayResult::Unavailable => Some(
            ReplyView {
                status: reply::BAD_GATEWAY,
                body: JsonView::Object(
                    map![
                        "status"@ => JsonView::Text("error"@),
                        "message"@ => JsonView::Text("payment gateway unavailable"@),
                        "operation"@ => JsonView::Text(operation),
                        "detail"@ => JsonView::Text(detail),
                    ],
                ),
            },
        ),
    }
}

/// The meaning of an optional refusal.
pub open spec fn opt_reply(r: Option<Reply>) -> Option<ReplyView> {
    match r {
        Some(found) => Some(found@),
        None => None,
    }
}

/// What a crawler is told of the gateway: nothing where it accepted.
pub fn gateway_error(result: GatewayResult, operation: &str, detail: &str) -> (r: Option<Reply>)
    ensures
        opt_reply(r) == gateway_outcome(result, operation@, detail@),
{
    match result {
        GatewayResult::Accepted => None,
        GatewayResult::Rejected(status) => {
            let mut body = JsonObject::new();
            body.put("status", json::text_value("error"));
            body.put("message", json::text_value("payment gateway rejected request"));
            body.put("operation", json::text_value(operation));
            body.put("upstream_status", Json::Unsigned(status as u64));
            Some(Reply { status: reply::BAD_GATEWAY, body: Json::Object(body) })
        },
        GatewayResult::Unavailable => {
            let mut body = JsonObject::new();
            body.put("status", json::text_value("error"));
            body.put("message", json::text_value("payment gateway unavailable"));
            body.put("operation", json::text_value(operation));
            body.put("detail", json::text_value(detail));
            Some(Reply { status: reply::BAD_GATEWAY, body: Json::Object(body) })
        },
    }
}

/// What became of a credit: its amount in the database or in this process, or
/// why there is none.
#[derive(Debug)]
pub enum CreditResult {
    Database(String),
    Memory(String),
    Unknown,
    Unavailable,
}

/// The answer that names a credit.
pub open spec fn credit_outcome(result: CreditResult) -> Result<JsonView, ReplyView> {
    match result {
        CreditResult::Database(credit) => Ok(
            JsonView::Object(
                map![
                    "status"@ => JsonView::Text("success"@),
                    "credit"@ => JsonView::Decimal(credit@),
                    "store"@ => JsonView::Text("postgres"@),
                ],
            ),
        ),
        CreditResult::Memory(credit) => Ok(
            JsonView::Object(
                map![
                    "status"@ => JsonView::Text("success"@),
                    "credit"@ => JsonView::Decimal(credit@),
                ],
            ),
        ),
        CreditResult::Unknown => Err(reply::refusal(reply::NOT_FOUND, "unknown crawler"@)),
        CreditResult::Unavailable => Err(
            reply::refusal(reply::SERVICE_UNAVAILABLE, "crawler database unavailable"@),
        ),
    }
}

/// The answer that names a credit.
pub fn credit_answer(result: &CreditResult) -> (r: Result<Json, Reply>)
    ensures
        reply::outcome(r) == credit_outcome(*result),
{
    match result {
        CreditResult::Database(credit) => {
            let mut body = JsonObject::new();
            body.put("status", json::text_value("success"));
            body.put("credit", Json::Decimal(credit.clone()));
            body.put("store", json::text_value("postgres"));
            Ok(Json::Object(body))
        },
        CreditResult::Memory(credit) => {
            let mut body = JsonObject::new();
            body.put("status", json::text_value("success"));
            body.put("credit", Json::Decimal(credit.clone()));
            Ok(Json::Object(body))
        },
        CreditResult::Unknown => Err(reply::refuse(reply::NOT_FOUND, "unknown crawler")),
        CreditResult::Unavailable => Err(
            reply::refuse(reply::SERVICE_UNAVAILABLE, "crawler database unavailable"),
        ),
    }
}

/// The headers that belong to one connection only.
pub open spec fn hop_headers() -> Seq<Seq<char>> {
    seq![
        "connection"@,
        "keep-alive"@,
        "proxy-authenticate"@,
        "proxy-authorization"@,
        "te"@,
        "trailer"@,
        "transfer-encoding"@,
        "upgrade"@,
    ]
}

/// The header belongs to one connection only.
pub open spec fn is_hop(name: Seq<char>) -> bool {
    hop_headers().contains(text::lower(name))
}

/// Whether a header belongs to one connection only.
pub fn is_hop_by_hop(name: &str) -> (r: bool)
    ensures
        r == is_hop(name@),
{
    let hops = [
        "connection",
        "keep-alive",
        "proxy-authenticate",
        "proxy-authorization",
        "te",
        "trailer",
        "transfer-encoding",
        "upgrade",
    ];
    assert(text::str_views(hops@) =~= hop_headers());
    let lowered = text::to_lower(name);
    text::is_one_of(lowered.as_str(), hops.as_slice())
}

/// The header goes on to the backend.
pub open spec fn is_forwardable(name: Seq<char>) -> bool {
    !is_hop(name) && !text::same_ignoring_case(name, "host"@) && !text::same_ignoring_case(
        name,
        "x-crawler-token"@,
    )
}

/// Whether a request header goes on to the backend.
pub fn is_forwardable_request_header(name: &str) -> (r: bool)
    ensures
        r == is_forwardable(name@),
{
    !is_hop_by_hop(name) && !text::eq_ignoring_case(name, "host") && !text::eq_ignoring_case(
        name,
        "x-crawler-token",
    )
}

/// Whether a header of the backend's answer goes back to the crawler.
pub fn is_returned_header(name: &str) -> (r: bool)
    ensures
        r == (!is_hop(name@) && !text::same_ignoring_case(name@, "content-length"@)),
{
    !is_hop_by_hop(name) && !text::eq_ignoring_case(name, "content-length")
}

/// The text without the slashes behind it.
pub open spec fn without_end_slashes(s: Seq<char>) -> Seq<char>
    decreases s.len(),
{
    if s.len() > 0 && s.last() == '/' {
        without_end_slashes(s.drop_last())
    } else {
        s
    }
}

/// The text without the slashes in front of it.
pub open spec fn without_start_slashes(s: Seq<char>) -> Seq<char>
    decreases s.len(),
{
    if s.len() > 0 && s[0] == '/' {
        without_start_slashes(s.drop_first())
    } else {
        s
    }
}

/// The text without the slashes behind it.
pub fn trim_end_slashes(s: &str) -> (r: String)
    ensures
        r@ == without_end_slashes(s@),
{
    let chars = text::chars_of(s);
    let mut n: usize = chars.len();
    assert(chars@.take(n as int) =~= chars@);
    while n > 0 && chars[n - 1] == '/'
        invariant
            n <= chars@.len(),
            without_end_slashes(chars@) == without_end_slashes(chars@.take(n as int)),
        decreases n,
    {
        assert(chars@.take(n as int).drop_last() =~= chars@.take(n - 1));
        n -= 1;
    }
    assert(chars@.take(n as int) =~= chars@.subrange(0, n as int));
    text::string_between(chars.as_slice(), 0, n)
}

/// The text without the slashes in front of it.
fn trim_start_slashes(s: &str) -> (r: String)
    ensures
        r@ == without_start_slashes(s@),
{
    let chars = text::chars_of(s);
    let mut n: usize = 0;
    assert(chars@.skip(0) =~= chars@);
    while n < chars.len() && chars[n] == '/'
        invariant
            n <= chars@.len(),
            without_start_slashes(chars@) == without_start_slashes(chars@.skip(n as int)),
        decreases chars@.len() - n,
    {
        assert(chars@.skip(n as int).drop_first() =~= chars@.skip(n + 1));
        n += 1;
    }
    assert(chars@.skip(n as int) =~= chars@.subrange(n as int, chars@.len() as int));
    text::string_between(chars.as_slice(), n, chars.len())
}

/// The page of the backend that a crawler asks for.
pub open spec fn page_address(
    backend: Seq<char>,
    path: Seq<char>,
    query: Option<Seq<char>>,
) -> Seq<char> {
    without_end_slashes(backend) + "/"@ + without_start_slashes(path) + (match query {
        Some(q) => "?"@ + q,
        None => Seq::empty(),
    })
}

/// The page of the backend that a crawler asks for.
pub fn page_url(backend: &str, path: &str, query: Option<&str>) -> (r: String)
    ensures
        r@ == page_address(backend@, path@, text::opt_str_view(query)),
{
    let mut out = trim_end_slashes(backend);
    out.append("/");
    out.append(trim_start_slashes(path).as_str());
    if let Some(q) = query {
        out.append("?");
        out.append(q);
    }
    assert(out@ =~= page_address(backend@, path@, text::opt_str_view(query)));
    out
}

/// What keeps a request from being charged at all.
pub open spec fn preflight_fault(
    token: Option<Seq<char>>,
    charge_is_valid: bool,
    backend: Result<UrlView, Seq<char>>,
) -> Option<ReplyView> {
    if token is None || token->0.len() == 0 {
        Some(reply::refusal(reply::BAD_REQUEST, "x-crawler-token required"@))
    } else if !charge_is_valid {
        Some(
            reply::refusal(reply::SERVICE_UNAVAILABLE, "invalid server charge configuration"@),
        )
    } else {
        match backend {
            Err(_) => Some(
                reply::refusal(
                    reply::SERVICE_UNAVAILABLE,
                    "REAL_BACKEND_HOST must be a valid http(s) URL"@,
                ),
            ),
            Ok(url) => if url.scheme == "http"@ || url.scheme == "https"@ {
                None
            } else {
                Some(
                    reply::refusal(
                        reply::SERVICE_UNAVAILABLE,
                        "REAL_BACKEND_HOST must use http or https"@,
                    ),
                )
            },
        }
    }
}

/// The meaning of the answer of the URL parser.
pub open spec fn parsed_view(url: Result<outside::UrlParts, String>) -> Result<UrlView, Seq<char>> {
    match url {
        Ok(parts) => Ok(parts@),
        Err(message) => Err(message@),
    }
}

/// What keeps a request from being charged, given the parsed backend.
pub fn preflight_with(
    token: Option<&str>,
    charge_is_valid: bool,
    backend: &Result<outside::UrlParts, String>,
) -> (r: Option<Reply>)
    ensures
        opt_reply(r) == preflight_fault(
            text::opt_str_view(token),
            charge_is_valid,
            parsed_view(*backend),
        ),
{
    let missing = match token {
        Some(shown) => shown.is_empty(),
        None => true,
    };
    if missing {
        return Some(reply::refuse(reply::BAD_REQUEST, "x-crawler-token required"));
    }
    if !charge_is_valid {
        return Some(
            reply::refuse(reply::SERVICE_UNAVAILABLE, "invalid server charge configuration"),
        );
    }
    match backend {
        Err(_) => Some(
            reply::refuse(
                reply::SERVICE_UNAVAILABLE,
                "REAL_BACKEND_HOST must be a valid http(s) URL",
            ),
        ),
        Ok(url) => {
            if text::text_eq(url.scheme.as_str(), "http") || text::text_eq(
                url.scheme.as_str(),
                "https",
            ) {
                None
            } else {
                Some(
                    reply::refuse(
                        reply::SERVICE_UNAVAILABLE,
                        "REAL_BACKEND_HOST must use http or https",
                    ),
                )
            }
        },
    }
}

/// What keeps a request from being charged at all.
pub fn preflight(token: Option<&str>, charge_is_valid: bool, backend: &str) -> (r: Option<Reply>)
    ensures
        opt_reply(r) == preflight_fault(
            text::opt_str_view(token),
            charge_is_valid,
            outside::url_of(backend@),
        ),
{
    let parsed = outside::parse_url(backend);
    preflight_with(token, charge_is_valid, &parsed)
}

/// Why a page was not delivered.
#[derive(Debug, Clone, Copy, PartialEq, Eq, Structural)]
pub enum ProxyFailure {
    NoCredit,
    LedgerUnavailable,
    BodyTooLarge,
    BackendUnreachable,
    AnswerTooLarge,
    AnswerBroken,
}

/// Where a proxied request stands.
#[derive(Debug, Clone, Copy, PartialEq, Eq, Structural)]
pub enum ProxyState {
    /// The charge is asked of the ledger.
    Charging,
    /// Charged; the body of the request is read.
    ReadingBody,
    /// Charged; the request is sent to the backend.
    Sending,
    /// Charged; so many bytes of the answer were read.
    Reading(u64),
    /// Charged, and failed; the charge is given back.
    Restoring(ProxyFailure),
    /// Charged; the page is delivered.
    Served,
    /// Not charged, or no longer; the failure is answered.
    Refused(ProxyFailure),
}

/// What happened to a proxied request.
#[derive(Debug, Clone, Copy, PartialEq, Eq, Structural)]
pub enum ProxyEvent {
    /// The ledger took the charge.
    Charged,
    /// The crawler is unknown or has too little credit.
    ChargeRefused,
    /// The ledger could not be asked.
    LedgerFailed,
    /// The body of the request was read.
    BodyRead,
    /// The body of the request is too large.
    BodyRefused,
    /// The backend answered, with this announced length.
    Answered(Option<u64>),
    /// The backend could not be reached.
    SendFailed,
    /// So many more bytes of the answer were read.
    Chunk(u64),
    /// The answer ended.
    AnswerEnded,
    /// The answer could not be read on.
    AnswerFailed,
    /// The ledger gave the charge back.
    Restored,
}

/// Where a proxied request stands after an event; an event that does not
/// belong to the state changes nothing.
pub open spec fn after_event(state: ProxyState, event: ProxyEvent, maximum: u64) -> ProxyState {
    match (state, event) {
        (ProxyState::Charging, ProxyEvent::Charged) => ProxyState::ReadingBody,
        (ProxyState::Charging, ProxyEvent::ChargeRefused) => ProxyState::Refused(
            ProxyFailure::NoCredit,
        ),
        (ProxyState::Charging, ProxyEvent::LedgerFailed) => ProxyState::Refused(
            ProxyFailure::LedgerUnavailable,
        ),
        (ProxyState::ReadingBody, ProxyEvent::BodyRead) => ProxyState::Sending,
        (ProxyState::ReadingBody, ProxyEvent::BodyRefused) => ProxyState::Restoring(
            ProxyFailure::BodyTooLarge,
        ),
        (ProxyState::Sending, ProxyEvent::Answered(length)) => match length {
            Some(announced) if announced > maximum => ProxyState::Restoring(
                ProxyFailure::AnswerTooLarge,
            ),
            _ => ProxyState::Reading(0),
        },
        (ProxyState::Sending, ProxyEvent::SendFailed) => ProxyState::Restoring(
            ProxyFailure::BackendUnreachable,
        ),
        (ProxyState::Reading(read), ProxyEvent::Chunk(more)) => if read + more > maximum {
            ProxyState::Restoring(ProxyFailure::AnswerTooLarge)
        } else {
            ProxyState::Reading((read + more) as u64)
        },
        (ProxyState::Reading(_), ProxyEvent::AnswerEnded) => ProxyState::Served,
        (ProxyState::Reading(_), ProxyEvent::AnswerFailed) => ProxyState::Restoring(
            ProxyFailure::AnswerBroken,
        ),
        (ProxyState::Restoring(failure), ProxyEvent::Restored) => ProxyState::Refused(failure),
        _ => state,
    }
}

/// Where a proxied request stands after an event.
pub fn proxy(state: ProxyState, event: ProxyEvent, maximum: u64) -> (r: ProxyState)
    ensures
        r == after_event(state, event, maximum),
{
    match (state, event) {
        (ProxyState::Charging, ProxyEvent::Charged) => ProxyState::ReadingBody,
        (ProxyState::Charging, ProxyEvent::ChargeRefused) => ProxyState::Refused(
            ProxyFailure::NoCredit,
        ),
        (ProxyState::Charging, ProxyEvent::LedgerFailed) => ProxyState::Refused(
            ProxyFailure::LedgerUnavailable,
        ),
        (ProxyState::ReadingBody, ProxyEvent::BodyRead) => ProxyState::Sending,
        (ProxyState::ReadingBody, ProxyEvent::BodyRefused) => ProxyState::Restoring(
            ProxyFailure::BodyTooLarge,
        ),
        (ProxyState::Sending, ProxyEvent::Answered(length)) => match length {
            Some(announced) => if announced > maximum {
                ProxyState::Restoring(ProxyFailure::AnswerTooLarge)
            } else {
                ProxyState::Reading(0)
            },
            None => ProxyState::Reading(0),
        },
        (ProxyState::Sending, ProxyEvent::SendFailed) => ProxyState::Restoring(
            ProxyFailure::BackendUnreachable,
        ),
        (ProxyState::Reading(read), ProxyEvent::Chunk(more)) => if read > maximum || more > maximum
            - read {
            ProxyState::Restoring(ProxyFailure::AnswerTooLarge)
        } else {
            ProxyState::Reading(read + more)
        },
        (ProxyState::Reading(_), ProxyEvent::AnswerEnded) => ProxyState::Served,
        (ProxyState::Reading(_), ProxyEvent::AnswerFailed) => ProxyState::Restoring(
            ProxyFailure::AnswerBroken,
        ),
        (ProxyState::Restoring(failure), ProxyEvent::Restored) => ProxyState::Refused(failure),
        _ => state,
    }
}

/// What a crawler is told of a page that was not delivered.
pub open spec fn failure_reply(failure: ProxyFailure) -> ReplyView {
    match failure {
        ProxyFailure::NoCredit => reply::refusal(
            reply::PAYMENT_REQUIRED,
            "insufficient credit or unknown crawler"@,
        ),
        ProxyFailure::LedgerUnavailable => reply::refusal(
            reply::SERVICE_UNAVAILABLE,
            "crawler database unavailable"@,
        ),
        ProxyFailure::BodyTooLarge => reply::refusal(
            reply::PAYLOAD_TOO_LARGE,
            "request body exceeds configured limit"@,
        ),
        ProxyFailure::BackendUnreachable => reply::refusal(
            reply::BAD_GATEWAY,
            "upstream request failed; charge restored"@,
        ),
        ProxyFailure::AnswerTooLarge => reply::refusal(
            reply::BAD_GATEWAY,
            "upstream response exceeds configured limit; charge restored"@,
        ),
        ProxyFailure::AnswerBroken => reply::refusal(
            reply::BAD_GATEWAY,
            "failed to read upstream response; charge restored"@,
        ),
    }
}

/// What a crawler is told of a page that was not delivered.
pub fn refusal_of(failure: ProxyFailure) -> (r: Reply)
    ensures
        r@ == failure_reply(failure),
{
    match failure {
        ProxyFailure::NoCredit => reply::refuse(
            reply::PAYMENT_REQUIRED,
            "insufficient credit or unknown crawler",
        ),
        ProxyFailure::LedgerUnavailable => reply::refuse(
            reply::SERVICE_UNAVAILABLE,
            "crawler database unavailable",
        ),
        ProxyFailure::BodyTooLarge => reply::refuse(
            reply::PAYLOAD_TOO_LARGE,
            "request body exceeds configured limit",
        ),
        ProxyFailure::BackendUnreachable => reply::refuse(
            reply::BAD_GATEWAY,
            "upstream request failed; charge restored",
        ),
        ProxyFailure::AnswerTooLarge => reply::refuse(
            reply::BAD_GATEWAY,
            "upstream response exceeds configured limit; charge restored",
        ),
        ProxyFailure::AnswerBroken => reply::refuse(
            reply::BAD_GATEWAY,
            "failed to read upstream response; charge restored",
        ),
    }
}

/// The state after a run of events.
pub open spec fn after_events(events: Seq<ProxyEvent>, maximum: u64) -> ProxyState
    decreases events.len(),
{
    if events.len() == 0 {
        ProxyState::Charging
    } else {
        after_event(after_events(events.drop_last(), maximum), events.last(), maximum)
    }
}

/// How often the charge was taken in a run of events.
pub open spec fn charges_in(events: Seq<ProxyEvent>, maximum: u64) -> nat
    decreases events.len(),
{
    if events.len() == 0 {
        0
    } else {
        let before = after_events(events.drop_last(), maximum);
        charges_in(events.drop_last(), maximum) + (if before == ProxyState::Charging
            && events.last() == ProxyEvent::Charged {
            1nat
        } else {
            0nat
        })
    }
}

/// How often the charge was given back in a run of events.
pub open spec fn restores_in(events: Seq<ProxyEvent>, maximum: u64) -> nat
    decreases events.len(),
{
    if events.len() == 0 {
        0
    } else {
        let before = after_events(events.drop_last(), maximum);
        restores_in(events.drop_last(), maximum) + (if before is Restoring && events.last()
            == ProxyEvent::Restored {
            1nat
        } else {
            0nat
        })
    }
}

/// The crawler has paid and has not got its charge back.
pub open spec fn holds_charge(state: ProxyState) -> bool {
    !(state is Charging) && !(state is Refused)
}

/// A request is charged once at most, and what was charged and not given back
/// is exactly the charge of a request that is under way or was served.
pub proof fn law_charges_balance(events: Seq<ProxyEvent>, maximum: u64)
    ensures
        ({
            let state = after_events(events, maximum);
            let charged = charges_in(events, maximum);
            let restored = restores_in(events, maximum);
            &&& charged <= 1
            &&& charged == restored + (if holds_charge(state) {
                1nat
            } else {
                0nat
            })
            &&& state is Charging ==> charged == 0
        }),
    decreases events.len(),
{
    if events.len() > 0 {
        law_charges_balance(events.drop_last(), maximum);
    }
}

/// A page that was served was paid for exactly once; a request that was
/// refused cost nothing.
pub proof fn law_refused_requests_cost_nothing(events: Seq<ProxyEvent>, maximum: u64)
    ensures
        after_events(events, maximum) is Served ==> charges_in(events, maximum) == 1
            && restores_in(events, maximum) == 0,
        after_events(events, maximum) is Refused ==> charges_in(events, maximum) == restores_in(
            events,
            maximum,
        ),
{
    law_charges_balance(events, maximum);
}

/// No more of an answer is taken than the maximum.
pub proof fn law_answers_are_bounded(events: Seq<ProxyEvent>, maximum: u64)
    ensures
        after_events(events, maximum) matches ProxyState::Reading(read) ==> read <= maximum,
    decreases events.len(),
{
    if events.len() > 0 {
        law_answers_are_bounded(events.drop_last(), maximum);
    }
}

/// A request that was served or refused stays so.
pub proof fn law_ended_requests_stay_ended(state: ProxyState, event: ProxyEvent, maximum: u64)
    requires
        state is Served || state is Refused,
    ensures
        after_event(state, event, maximum) == state,
{
}

/// Neither the crawler's token nor a header of one connection reaches the
/// backend, however its letters are cased.
pub proof fn law_tokens_are_not_forwarded(name: Seq<char>)
    requires
        text::same_ignoring_case(name, "x-crawler-token"@) || is_hop(name)
            || text::same_ignoring_case(name, "host"@),
    ensures
        !is_forwardable(name),
{
}

} // verus!
