//! What paid crawling is owed: what a payment gateway is told, what a crawler is
//! answered, and how a proxied request goes on.
use vstd::prelude::*;
use crate::crawl;
use crate::crawl::{
    CreditResult, GatewayResult, Payment, ProxyEvent, ProxyFailure, ProxyState,
};
use crate::json;
use crate::json::{Json, JsonView};
use crate::laws::answers;
use crate::laws::answers::{refuses, says};
use crate::outside;
use crate::outside::UrlParts;
use crate::reply::Reply;
use crate::text;

verus! {

/// The document has this document under this name.
pub open spec fn part(document: JsonView, name: Seq<char>) -> JsonView {
    json::member(document, name)->0
}

/// The provider is PayPal.
pub open spec fn is_paypal(provider: Seq<char>) -> bool {
    provider == "paypal"@ || provider == "paypal-compatible"@
}

/// The provider is Authorize.Net.
pub open spec fn is_authorize_net(provider: Seq<char>) -> bool {
    provider == "authorizenet"@ || provider == "authorize_net"@ || provider == "authorize.net"@
}

/// The provider is the project's own ledger.
pub open spec fn is_ledger(provider: Seq<char>) -> bool {
    provider == "credit-ledger"@ || provider == "internal-ledger"@
}

/// The provider is told the operation by name.
pub open spec fn is_told_by_name(provider: Seq<char>) -> bool {
    ||| provider == "stripe"@ || provider == "stripe-compatible"@
    ||| provider == "braintree"@ || provider == "braintree-compatible"@
    ||| provider == "square"@ || provider == "square-compatible"@
    ||| provider == "adyen"@ || provider == "adyen-compatible"@
}

/// What tells these names apart.
proof fn lemma_providers_differ()
    ensures
        "stripe"@.len() == 6,
        "stripe-compatible"@.len() == 17,
        "paypal"@.len() == 6,
        "paypal-compatible"@.len() == 17,
        "braintree"@.len() == 9,
        "braintree-compatible"@.len() == 20,
        "square"@.len() == 6,
        "square-compatible"@.len() == 17,
        "adyen"@.len() == 5,
        "adyen-compatible"@.len() == 16,
        "authorizenet"@.len() == 12,
        "authorize_net"@.len() == 13,
        "authorize.net"@.len() == 13,
        "credit-ledger"@.len() == 13,
        "internal-ledger"@.len() == 15,
        "stripe"@[1] == 't',
        "paypal"@[1] == 'a',
        "square"@[1] == 'q',
        "stripe-compatible"@[1] == 't',
        "paypal-compatible"@[1] == 'a',
        "square-compatible"@[1] == 'q',
        "authorize_net"@[9] == '_',
        "authorize.net"@[9] == '.',
        "credit-ledger"@[9] == 'd',
{
    reveal_strlit("stripe");
    reveal_strlit("stripe-compatible");
    reveal_strlit("paypal");
    reveal_strlit("paypal-compatible");
    reveal_strlit("braintree");
    reveal_strlit("braintree-compatible");
    reveal_strlit("square");
    reveal_strlit("square-compatible");
    reveal_strlit("adyen");
    reveal_strlit("adyen-compatible");
    reveal_strlit("authorizenet");
    reveal_strlit("authorize_net");
    reveal_strlit("authorize.net");
    reveal_strlit("credit-ledger");
    reveal_strlit("internal-ledger");
}

/// What tells these names apart.
proof fn lemma_gateway_names_differ()
    ensures
        "metadata"@.len() == 8,
        "amount"@.len() == 6,
        "currency"@.len() == 8,
        "capture_method"@.len() == 14,
        "operation"@.len() == 9,
        "intent"@.len() == 6,
        "purchase_units"@.len() == 14,
        "reference_id"@.len() == 12,
        "currency_code"@.len() == 13,
        "value"@.len() == 5,
        "customer_id"@.len() == 11,
        "idempotency_key"@.len() == 15,
        "source_id"@.len() == 9,
        "amount_money"@.len() == 12,
        "reference"@.len() == 9,
        "transactionType"@.len() == 15,
        "refTransId"@.len() == 10,
        "account"@.len() == 7,
        "credit_delta"@.len() == 12,
        "source"@.len() == 6,
        "token"@.len() == 5,
        "provider"@.len() == 8,
        "metadata"@[0] == 'm',
        "currency"@[0] == 'c',
        "provider"@[0] == 'p',
        "amount"@[0] == 'a',
        "intent"@[0] == 'i',
        "source"@[0] == 's',
        "capture_method"@[0] == 'c',
        "purchase_units"@[0] == 'p',
        "operation"@[0] == 'o',
        "source_id"@[0] == 's',
        "reference"@[0] == 'r',
        "reference_id"@[0] == 'r',
        "amount_money"@[0] == 'a',
        "credit_delta"@[0] == 'c',
        "value"@[0] == 'v',
        "token"@[0] == 't',
        "idempotency_key"@[0] == 'i',
        "transactionType"@[0] == 't',
{
    reveal_strlit("metadata");
    reveal_strlit("amount");
    reveal_strlit("currency");
    reveal_strlit("capture_method");
    reveal_strlit("operation");
    reveal_strlit("intent");
    reveal_strlit("purchase_units");
    reveal_strlit("reference_id");
    reveal_strlit("currency_code");
    reveal_strlit("value");
    reveal_strlit("customer_id");
    reveal_strlit("idempotency_key");
    reveal_strlit("source_id");
    reveal_strlit("amount_money");
    reveal_strlit("reference");
    reveal_strlit("transactionType");
    reveal_strlit("refTransId");
    reveal_strlit("account");
    reveal_strlit("credit_delta");
    reveal_strlit("source");
    reveal_strlit("token");
    reveal_strlit("provider");
}

/// What tells these names apart.
proof fn lemma_directions_differ()
    ensures
        "REFUND"@.len() == 6,
        "CAPTURE"@.len() == 7,
        "refundTransaction"@.len() == 17,
        "authCaptureTransaction"@.len() == 22,
        "refund"@.len() == 6,
        "charge"@.len() == 6,
        "REFUND"@[0] == 'R',
        "refund"@[0] == 'r',
        "charge"@[0] == 'c',
{
    reveal_strlit("REFUND");
    reveal_strlit("CAPTURE");
    reveal_strlit("refundTransaction");
    reveal_strlit("authCaptureTransaction");
    reveal_strlit("refund");
    reveal_strlit("charge");
}

/// A gateway is told which way the money goes: a refund is called a refund, and
/// anything else is a charge. PayPal is told by the intent, Authorize.Net by the
/// type of the transaction, the ledger by the sign of the change, and the others
/// by the name of the operation.
pub proof fn law_gateways_are_told_the_direction(
    provider: &str,
    operation: &str,
    payment: Payment,
    currency: Option<&str>,
    key: &str,
    payload: Json,
)
    requires
        call_ensures(
            crawl::payment_gateway_payload_with,
            (provider, operation, &payment, currency, key),
            payload,
        ),
    ensures
        is_paypal(provider@) ==> {
            &&& says(payload@, "intent"@, "REFUND"@) <==> operation@ == "refund"@
            &&& says(payload@, "intent"@, "CAPTURE"@) <==> operation@ != "refund"@
        },
        is_authorize_net(provider@) ==> ({
            let transaction = part(
                part(payload@, "createTransactionRequest"@),
                "transactionRequest"@,
            );
            &&& says(transaction, "transactionType"@, "refundTransaction"@) <==> operation@
                == "refund"@
            &&& says(transaction, "transactionType"@, "authCaptureTransaction"@) <==> operation@
                != "refund"@
        }),
        is_ledger(provider@) ==> json::member(payload@, "credit_delta"@) == Some(
            JsonView::Decimal(
                if operation@ == "refund"@ {
                    payment.negative_amount@
                } else {
                    payment.amount@
                },
            ),
        ),
        is_told_by_name(provider@) ==> says(payload@, "operation"@, operation@),
{
    lemma_providers_differ();
    lemma_gateway_names_differ();
    lemma_directions_differ();
}

/// A charge and a refund of the same payment are never told alike, by any of the
/// gateways that are told the direction.
pub proof fn law_charges_and_refunds_differ(
    provider: &str,
    payment: Payment,
    currency: Option<&str>,
    key: &str,
    charge: Json,
    refund: Json,
)
    requires
        call_ensures(
            crawl::payment_gateway_payload_with,
            (provider, "charge", &payment, currency, key),
            charge,
        ),
        call_ensures(
            crawl::payment_gateway_payload_with,
            (provider, "refund", &payment, currency, key),
            refund,
        ),
        payment.amount@ != payment.negative_amount@,
        is_paypal(provider@) || is_authorize_net(provider@) || is_ledger(provider@)
            || is_told_by_name(provider@),
    ensures
        charge@ != refund@,
{
    lemma_directions_differ();
    law_gateways_are_told_the_direction(provider, "charge", payment, currency, key, charge);
    law_gateways_are_told_the_direction(provider, "refund", payment, currency, key, refund);
}

/// A gateway is told who pays, how much, and in which currency, in the units and
/// under the names that it takes.
pub proof fn law_gateways_are_told_the_amount(
    provider: &str,
    operation: &str,
    payment: Payment,
    currency: Option<&str>,
    key: &str,
    payload: Json,
)
    requires
        call_ensures(
            crawl::payment_gateway_payload_with,
            (provider, operation, &payment, currency, key),
            payload,
        ),
    ensures
        ({
            let minor = Some(JsonView::Int(payment.minor_units as int));
            let code = match currency {
                Some(code) => text::upper(code@),
                None => "USD"@,
            };
            &&& provider@ == "stripe"@ || provider@ == "stripe-compatible"@ ==> {
                &&& says(part(payload@, "metadata"@), "crawler_token"@, payment.token@)
                &&& json::member(payload@, "amount"@) == minor
                &&& currency matches Some(code) ==> says(payload@, "currency"@, code@)
                &&& currency is None ==> says(payload@, "currency"@, "usd"@)
                &&& says(payload@, "capture_method"@, "automatic"@)
            }
            &&& is_paypal(provider@) ==> {
                let units = json::member(payload@, "purchase_units"@);
                &&& units matches Some(JsonView::Array(items)) && items.len() == 1
                &&& says(units->0->Array_0[0], "reference_id"@, payment.token@)
                &&& says(
                    part(units->0->Array_0[0], "amount"@),
                    "value"@,
                    payment.two_decimals@,
                )
                &&& says(part(units->0->Array_0[0], "amount"@), "currency_code"@, code)
            }
            &&& provider@ == "braintree"@ || provider@ == "braintree-compatible"@ ==> {
                &&& says(payload@, "customer_id"@, payment.token@)
                &&& says(payload@, "amount"@, payment.two_decimals@)
            }
            &&& provider@ == "square"@ || provider@ == "square-compatible"@ ==> {
                &&& says(payload@, "source_id"@, payment.token@)
                &&& says(payload@, "idempotency_key"@, key@)
                &&& json::member(part(payload@, "amount_money"@), "amount"@) == minor
                &&& says(part(payload@, "amount_money"@), "currency"@, code)
            }
            &&& provider@ == "adyen"@ || provider@ == "adyen-compatible"@ ==> {
                &&& says(payload@, "reference"@, payment.token@)
                &&& json::member(part(payload@, "amount"@), "value"@) == minor
                &&& says(part(payload@, "amount"@), "currency"@, code)
            }
            &&& is_authorize_net(provider@) ==> {
                let transaction = part(
                    part(payload@, "createTransactionRequest"@),
                    "transactionRequest"@,
                );
                &&& says(transaction, "refTransId"@, payment.token@)
                &&& says(transaction, "amount"@, payment.two_decimals@)
            }
            &&& is_ledger(provider@) ==> {
                &&& says(payload@, "account"@, payment.token@)
                &&& says(payload@, "source"@, "pay-per-crawl"@)
            }
            &&& !is_told_by_name(provider@) && !is_paypal(provider@) && !is_authorize_net(
                provider@,
            ) && !is_ledger(provider@) ==> {
                &&& says(payload@, "token"@, payment.token@)
                &&& json::member(payload@, "amount"@) == Some(JsonView::Decimal(payment.amount@))
                &&& says(payload@, "provider"@, provider@)
            }
        }),
{
    lemma_providers_differ();
    lemma_gateway_names_differ();
    reveal_strlit("USD");
    assert(text::upper("USD"@) =~= "USD"@);
}

/// A payment needs a token that is not blank and an amount that is positive.
pub proof fn law_payments_are_checked(
    token: &str,
    positive_finite: bool,
    verdict: Result<(), Reply>,
)
    requires
        call_ensures(crawl::validate_payment, (token, positive_finite), verdict),
    ensures
        verdict is Ok <==> text::trimmed(token@).len() > 0 && positive_finite,
        verdict matches Err(refusal) ==> refuses(
            refusal@,
            400,
            "token and a positive finite amount are required"@,
        ),
{
    answers::lemma_refusal(400, "token and a positive finite amount are required"@);
}

/// What tells these names apart.
proof fn lemma_crawler_names_differ()
    ensures
        "token"@.len() == 5,
        "name"@.len() == 4,
        "purpose"@.len() == 7,
        "credit"@.len() == 6,
        "status"@.len() == 6,
        "crawler"@.len() == 7,
        "store"@.len() == 5,
        "token"@[0] == 't',
        "store"@[0] == 's',
        "purpose"@[0] == 'p',
        "crawler"@[0] == 'c',
        "credit"@[0] == 'c',
        "status"@[0] == 's',
{
    reveal_strlit("token");
    reveal_strlit("name");
    reveal_strlit("purpose");
    reveal_strlit("credit");
    reveal_strlit("status");
    reveal_strlit("crawler");
    reveal_strlit("store");
}

/// A crawler registers under the token that it asks for, or under a fresh one,
/// and starts without credit.
pub proof fn law_crawlers_register(
    token: &str,
    name: &str,
    purpose: &str,
    told: Json,
    answer: Json,
    wanted: Option<&str>,
    given: String,
)
    requires
        call_ensures(crawl::crawler_gateway_payload, (token, name, purpose), told),
        call_ensures(crawl::registration_answer, (token, name, purpose), answer),
        call_ensures(crawl::crawler_token, (wanted,), given),
    ensures
        says(told@, "token"@, token@),
        says(told@, "name"@, name@),
        says(told@, "purpose"@, purpose@),
        says(answer@, "status"@, "success"@),
        says(part(answer@, "crawler"@), "token"@, token@),
        says(part(answer@, "crawler"@), "name"@, name@),
        says(part(answer@, "crawler"@), "purpose"@, purpose@),
        json::member(part(answer@, "crawler"@), "credit"@) == Some(JsonView::Decimal("0.0"@)),
        wanted matches Some(own) ==> text::trimmed(own@).len() > 0 ==> given@ == own@,
        wanted is None ==> exists|id: Seq<char>|
            outside::is_identifier(id) && given@ == #[trigger] outside::hyphenated(id),
{
    lemma_crawler_names_differ();
}

/// What tells these names apart.
proof fn lemma_gateway_error_names_differ()
    ensures
        "status"@.len() == 6,
        "message"@.len() == 7,
        "operation"@.len() == 9,
        "upstream_status"@.len() == 15,
        "detail"@.len() == 6,
        "status"@[0] == 's',
        "detail"@[0] == 'd',
{
    reveal_strlit("status");
    reveal_strlit("message");
    reveal_strlit("operation");
    reveal_strlit("upstream_status");
    reveal_strlit("detail");
}

/// A gateway that refuses or cannot be reached is answered 502, with the
/// operation; one that accepts is no error.
pub proof fn law_gateway_failures_are_answered(
    result: GatewayResult,
    operation: &str,
    detail: &str,
    answer: Option<Reply>,
)
    requires
        call_ensures(crawl::gateway_error, (result, operation, detail), answer),
    ensures
        answer is None <==> result is Accepted,
        answer matches Some(refusal) ==> refusal.status == 502 && says(
            refusal.body@,
            "status"@,
            "error"@,
        ) && says(refusal.body@, "operation"@, operation@),
        result matches GatewayResult::Rejected(status) ==> says(
            answer->0.body@,
            "message"@,
            "payment gateway rejected request"@,
        ) && json::member(answer->0.body@, "upstream_status"@) == Some(
            JsonView::Int(status as int),
        ),
        result is Unavailable ==> says(
            answer->0.body@,
            "message"@,
            "payment gateway unavailable"@,
        ) && says(answer->0.body@, "detail"@, detail@),
{
    lemma_gateway_error_names_differ();
}

/// A credit is told as it stands; an unknown crawler is answered 404, and a
/// ledger that cannot be asked 503.
pub proof fn law_credits_are_told(result: CreditResult, answer: Result<Json, Reply>)
    requires
        call_ensures(crawl::credit_answer, (&result,), answer),
    ensures
        answer is Ok <==> result is Database || result is Memory,
        result matches CreditResult::Database(credit) ==> says(
            answer->Ok_0@,
            "status"@,
            "success"@,
        ) && says(answer->Ok_0@, "store"@, "postgres"@) && json::member(
            answer->Ok_0@,
            "credit"@,
        ) == Some(JsonView::Decimal(credit@)),
        result matches CreditResult::Memory(credit) ==> says(
            answer->Ok_0@,
            "status"@,
            "success"@,
        ) && json::member(answer->Ok_0@, "store"@) is None && json::member(
            answer->Ok_0@,
            "credit"@,
        ) == Some(JsonView::Decimal(credit@)),
        result is Unknown ==> refuses(answer->Err_0@, 404, "unknown crawler"@),
        result is Unavailable ==> refuses(answer->Err_0@, 503, "crawler database unavailable"@),
{
    lemma_crawler_names_differ();
    answers::lemma_refusal(404, "unknown crawler"@);
    answers::lemma_refusal(503, "crawler database unavailable"@);
}

/// The headers that belong to one connection, written out.
proof fn lemma_hop_headers(name: Seq<char>)
    ensures
        crawl::is_hop(name) <==> {
            let folded = text::lower(name);
            ||| folded == "connection"@
            ||| folded == "keep-alive"@
            ||| folded == "proxy-authenticate"@
            ||| folded == "proxy-authorization"@
            ||| folded == "te"@
            ||| folded == "trailer"@
            ||| folded == "transfer-encoding"@
            ||| folded == "upgrade"@
        },
{
    let names = crawl::hop_headers();
    assert(names[0] == "connection"@);
    assert(names[1] == "keep-alive"@);
    assert(names[2] == "proxy-authenticate"@);
    assert(names[3] == "proxy-authorization"@);
    assert(names[4] == "te"@);
    assert(names[5] == "trailer"@);
    assert(names[6] == "transfer-encoding"@);
    assert(names[7] == "upgrade"@);
}

/// What belongs to one connection stays with it, in whatever case; the token of
/// the crawler and the host it asked stay with the proxy; everything else goes on.
pub proof fn law_headers_go_on(name: &str, hop: bool, forwarded: bool, returned: bool)
    requires
        call_ensures(crawl::is_hop_by_hop, (name,), hop),
        call_ensures(crawl::is_forwardable_request_header, (name,), forwarded),
        call_ensures(crawl::is_returned_header, (name,), returned),
    ensures
        ({
            let folded = text::lower(name@);
            hop <==> {
                ||| folded == "connection"@
                ||| folded == "keep-alive"@
                ||| folded == "proxy-authenticate"@
                ||| folded == "proxy-authorization"@
                ||| folded == "te"@
                ||| folded == "trailer"@
                ||| folded == "transfer-encoding"@
                ||| folded == "upgrade"@
            }
        }),
        forwarded <==> !hop && text::lower(name@) != "host"@ && text::lower(name@)
            != "x-crawler-token"@,
        returned <==> !hop && text::lower(name@) != "content-length"@,
{
    lemma_hop_headers(name@);
    reveal_strlit("host");
    reveal_strlit("x-crawler-token");
    reveal_strlit("content-length");
    assert(text::lower("host"@) =~= "host"@);
    assert(text::lower("x-crawler-token"@) =~= "x-crawler-token"@);
    assert(text::lower("content-length"@) =~= "content-length"@);
}

/// A page lies at its path below the backend, with one slash between them and
/// the query behind.
pub proof fn law_pages_lie_below_the_backend(
    backend: &str,
    path: &str,
    query: &str,
    plain: String,
    queried: String,
)
    requires
        backend@.len() > 0 ==> backend@.last() != '/',
        path@.len() > 0 ==> path@[0] != '/',
        call_ensures(crawl::page_url, (backend, path, None), plain),
        call_ensures(crawl::page_url, (backend, path, Some(query)), queried),
    ensures
        plain@ == backend@ + "/"@ + path@,
        queried@ == backend@ + "/"@ + path@ + "?"@ + query@,
{
    assert(plain@ =~= backend@ + "/"@ + path@);
    assert(queried@ =~= backend@ + "/"@ + path@ + "?"@ + query@);
}

/// Slashes at the end of the backend and at the start of the path make no
/// difference.
pub proof fn law_slashes_make_no_difference(
    backend: &str,
    slashed: &str,
    path: &str,
    rooted: &str,
    query: Option<&str>,
    plain: String,
    other: String,
)
    requires
        slashed@ == backend@.push('/'),
        rooted@ == seq!['/'] + path@,
        call_ensures(crawl::page_url, (backend, path, query), plain),
        call_ensures(crawl::page_url, (slashed, rooted, query), other),
    ensures
        plain@ == other@,
{
    assert(slashed@.drop_last() =~= backend@);
    assert(rooted@.drop_first() =~= path@);
}

/// A request is proxied exactly where the crawler shows a token, the charge is
/// valid, and the backend is a URL of HTTP or HTTPS; each fault has its answer.
pub proof fn law_requests_are_checked_first(
    token: Option<&str>,
    charge_is_valid: bool,
    backend: Result<UrlParts, String>,
    fault: Option<Reply>,
)
    requires
        call_ensures(crawl::preflight_with, (token, charge_is_valid, &backend), fault),
    ensures
        ({
            let shown = token matches Some(word) && word@.len() > 0;
            let web = backend matches Ok(url) && (url.scheme@ == "http"@ || url.scheme@
                == "https"@);
            &&& fault is None <==> shown && charge_is_valid && web
            &&& !shown ==> refuses(fault->0@, 400, "x-crawler-token required"@)
            &&& shown && !charge_is_valid ==> refuses(
                fault->0@,
                503,
                "invalid server charge configuration"@,
            )
            &&& shown && charge_is_valid && backend is Err ==> refuses(
                fault->0@,
                503,
                "REAL_BACKEND_HOST must be a valid http(s) URL"@,
            )
            &&& shown && charge_is_valid && backend is Ok && !web ==> refuses(
                fault->0@,
                503,
                "REAL_BACKEND_HOST must use http or https"@,
            )
        }),
{
    answers::lemma_refusal(400, "x-crawler-token required"@);
    answers::lemma_refusal(503, "invalid server charge configuration"@);
    answers::lemma_refusal(503, "REAL_BACKEND_HOST must be a valid http(s) URL"@);
    answers::lemma_refusal(503, "REAL_BACKEND_HOST must use http or https"@);
}

/// A charged request is served: its body is read and sent, and its answer is
/// read to the end, where nothing fails and nothing is too large.
pub proof fn law_charged_requests_are_served(
    announced: Option<u64>,
    size: u64,
    maximum: u64,
    charged: ProxyState,
    sent: ProxyState,
    answered: ProxyState,
    read: ProxyState,
    ended: ProxyState,
)
    requires
        announced matches Some(length) ==> length <= maximum,
        size <= maximum,
        call_ensures(crawl::proxy, (ProxyState::Charging, ProxyEvent::Charged, maximum), charged),
        call_ensures(crawl::proxy, (charged, ProxyEvent::BodyRead, maximum), sent),
        call_ensures(crawl::proxy, (sent, ProxyEvent::Answered(announced), maximum), answered),
        call_ensures(crawl::proxy, (answered, ProxyEvent::Chunk(size), maximum), read),
        call_ensures(crawl::proxy, (read, ProxyEvent::AnswerEnded, maximum), ended),
    ensures
        charged == ProxyState::ReadingBody,
        sent == ProxyState::Sending,
        answered == ProxyState::Reading(0),
        read == ProxyState::Reading(size),
        ended == ProxyState::Served,
{
}

/// Each failure ends the request for its own reason: a refused charge at once,
/// a later failure once the charge is given back.
pub proof fn law_failures_end_the_request(
    state: ProxyState,
    event: ProxyEvent,
    maximum: u64,
    next: ProxyState,
)
    requires
        call_ensures(crawl::proxy, (state, event, maximum), next),
    ensures
        state is Charging && event is ChargeRefused ==> next == ProxyState::Refused(
            ProxyFailure::NoCredit,
        ),
        state is Charging && event is LedgerFailed ==> next == ProxyState::Refused(
            ProxyFailure::LedgerUnavailable,
        ),
        state is ReadingBody && event is BodyRefused ==> next == ProxyState::Restoring(
            ProxyFailure::BodyTooLarge,
        ),
        state is Sending && event is SendFailed ==> next == ProxyState::Restoring(
            ProxyFailure::BackendUnreachable,
        ),
        state is Sending ==> (event matches ProxyEvent::Answered(Some(length)) ==> length > maximum
            ==> next == ProxyState::Restoring(ProxyFailure::AnswerTooLarge)),
        state matches ProxyState::Reading(read) ==> (event matches ProxyEvent::Chunk(more) ==> {
            &&& read + more > maximum ==> next == ProxyState::Restoring(
                ProxyFailure::AnswerTooLarge,
            )
            &&& read + more <= maximum ==> (next matches ProxyState::Reading(so_far) && so_far
                == read + more)
        }),
        state is Reading && event is AnswerFailed ==> next == ProxyState::Restoring(
            ProxyFailure::AnswerBroken,
        ),
        state matches ProxyState::Restoring(failure) ==> event is Restored ==> next
            == ProxyState::Refused(failure),
{
}

/// What does not fit the state of a request changes nothing: a charge is taken
/// once, an answer is read only after it was sent for, and only what fails is
/// given back.
pub proof fn law_stray_events_change_nothing(
    state: ProxyState,
    event: ProxyEvent,
    maximum: u64,
    next: ProxyState,
)
    requires
        call_ensures(crawl::proxy, (state, event, maximum), next),
        !(state is Charging && (event is Charged || event is ChargeRefused || event
            is LedgerFailed)),
        !(state is ReadingBody && (event is BodyRead || event is BodyRefused)),
        !(state is Sending && (event is Answered || event is SendFailed)),
        !(state is Reading && (event is Chunk || event is AnswerEnded || event is AnswerFailed)),
        !(state is Restoring && event is Restored),
    ensures
        next == state,
{
}

/// Each failure of a proxied request has its answer.
pub proof fn law_failures_are_answered(failure: ProxyFailure, answer: Reply)
    requires
        call_ensures(crawl::refusal_of, (failure,), answer),
    ensures
        failure is NoCredit ==> refuses(
            answer@,
            402,
            "insufficient credit or unknown crawler"@,
        ),
        failure is LedgerUnavailable ==> refuses(answer@, 503, "crawler database unavailable"@),
        failure is BodyTooLarge ==> refuses(
            answer@,
            413,
            "request body exceeds configured limit"@,
        ),
        failure is BackendUnreachable ==> refuses(
            answer@,
            502,
            "upstream request failed; charge restored"@,
        ),
        failure is AnswerTooLarge ==> refuses(
            answer@,
            502,
            "upstream response exceeds configured limit; charge restored"@,
        ),
        failure is AnswerBroken ==> refuses(
            answer@,
            502,
            "failed to read upstream response; charge restored"@,
        ),
{
    answers::lemma_refusal(402, "insufficient credit or unknown crawler"@);
    answers::lemma_refusal(503, "crawler database unavailable"@);
    answers::lemma_refusal(413, "request body exceeds configured limit"@);
    answers::lemma_refusal(502, "upstream request failed; charge restored"@);
    answers::lemma_refusal(
        502,
        "upstream response exceeds configured limit; charge restored"@,
    );
    answers::lemma_refusal(502, "failed to read upstream response; charge restored"@);
}

} // verus!
