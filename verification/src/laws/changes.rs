//! What calls that change a state are owed: what is answered, and how the state
//! afterwards relates to the state before.
use vstd::prelude::*;
use crate::admin;
use crate::audit::SecurityEvent;
use crate::auth;
use crate::blocklist;
use crate::blocklist::{BlocklistState, BlocklistStats, IpAction};
use crate::captcha;
use crate::captcha::CaptchaState;
use crate::dashboard::DashboardState;
use crate::detection;
use crate::detection::{Decision, FrequencyFeatures, RequestMetadata, Standing};
use crate::edge;
use crate::escalation;
use crate::frequency;
use crate::frequency::InMemoryFrequency;
use crate::headers;
use crate::headers::Headers;
use crate::json;
use crate::json::{Json, JsonView};
use crate::laws::answers;
use crate::laws::answers::{refuses, says};
use crate::laws::blocklist::carries_signature;
use crate::order;
use crate::origin;
use crate::origin::TrustedProxies;
use crate::outside;
use crate::reply::Reply;
use crate::text;
use crate::text_laws;
use crate::webhook;
use crate::webhook::WebhookAction;

verus! {

/// Blocking an address that can be blocked puts it on the list; nothing else is
/// ever changed by it.
pub proof fn law_blocking_adds_one_address(
    state: &mut BlocklistState,
    ip: &str,
    proxies: TrustedProxies,
    blockable: bool,
    added: bool,
    other: Seq<char>,
)
    requires
        call_ensures(origin::is_blockable_client_ip, (ip, &proxies), blockable),
        call_ensures(BlocklistState::block, (state, ip, &proxies), added),
    ensures
        added == blockable,
        final(state)@.flagged == old(state)@.flagged,
        final(state)@.blocked.contains(ip@) <==> old(state)@.blocked.contains(ip@) || blockable,
        other != ip@ ==> (final(state)@.blocked.contains(other) <==> old(state)@.blocked.contains(
            other,
        )),
{
}

/// Allowing an address takes it off the list, and nothing else.
pub proof fn law_allowing_removes_one_address(
    state: &mut BlocklistState,
    ip: &str,
    other: Seq<char>,
)
    requires
        call_ensures(BlocklistState::allow, (state, ip), ()),
    ensures
        final(state)@.flagged == old(state)@.flagged,
        !final(state)@.blocked.contains(ip@),
        other != ip@ ==> (final(state)@.blocked.contains(other) <==> old(state)@.blocked.contains(
            other,
        )),
{
}

/// Flagging an address marks it with its reason, and nothing else.
pub proof fn law_flagging_marks_one_address(state: &mut BlocklistState, ip: &str, reason: &str)
    requires
        call_ensures(BlocklistState::flag, (state, ip, reason), ()),
    ensures
        final(state)@.blocked == old(state)@.blocked,
        final(state)@.flagged == old(state)@.flagged.insert(ip@, reason@),
{
}

/// Unflagging an address takes its mark away, and nothing else.
pub proof fn law_unflagging_unmarks_one_address(state: &mut BlocklistState, ip: &str)
    requires
        call_ensures(BlocklistState::unflag, (state, ip), ()),
    ensures
        final(state)@.blocked == old(state)@.blocked,
        final(state)@.flagged == old(state)@.flagged.remove(ip@),
{
}

/// An address is known as blocked exactly where it is on the list, or where the
/// shared list says so, from which it is then remembered.
pub proof fn law_shared_blocks_are_remembered(
    state: &mut BlocklistState,
    ip: &str,
    shared: Option<bool>,
    blocked: bool,
    other: Seq<char>,
)
    requires
        call_ensures(BlocklistState::contains, (state, ip, shared), blocked),
    ensures
        blocked <==> old(state)@.blocked.contains(ip@) || shared == Some(true),
        final(state)@.blocked.contains(ip@) <==> blocked,
        other != ip@ ==> (final(state)@.blocked.contains(other) <==> old(state)@.blocked.contains(
            other,
        )),
        final(state)@.flagged == old(state)@.flagged,
{
}

/// A list is shown sorted: the shared one where there is one, else its own.
pub proof fn law_lists_are_sorted(
    state: BlocklistState,
    ip: &str,
    known: bool,
    shared: Option<BlocklistStats>,
    list: Vec<String>,
    stats: BlocklistStats,
)
    requires
        state.well_formed(),
        call_ensures(BlocklistState::knows, (&state, ip), known),
        call_ensures(BlocklistState::blocked, (&state, None), list),
        call_ensures(BlocklistState::stats, (&state, shared), stats),
    ensures
        known <==> state@.blocked.contains(ip@),
        text::views(list@).contains(ip@) <==> known,
        order::strictly_sorted(text::views(list@)),
        shared matches Some(counts) ==> stats == counts,
        shared is None ==> stats.blocked_count == state@.blocked.len() && stats.flagged_count
            == state@.flagged.dom().len(),
{
    assert(text::views(list@).to_set().contains(ip@) <==> text::views(list@).contains(ip@));
}

/// What tells these names apart.
proof fn lemma_actions_differ()
    ensures
        "block_ip"@.len() == 8,
        "allow_ip"@.len() == 8,
        "flag_ip"@.len() == 7,
        "unflag_ip"@.len() == 9,
        "block_ip"@[0] == 'b',
        "allow_ip"@[0] == 'a',
{
    reveal_strlit("block_ip");
    reveal_strlit("allow_ip");
    reveal_strlit("flag_ip");
    reveal_strlit("unflag_ip");
}

/// What tells these names apart.
proof fn lemma_answer_names_differ()
    ensures
        "status"@.len() == 6,
        "message"@.len() == 7,
        "ip"@.len() == 2,
        "accepted"@.len() == 8,
        "rejected"@.len() == 8,
        "success"@.len() == 7,
        "token"@.len() == 5,
        "installation_id"@.len() == 15,
        "action"@.len() == 6,
        "is_bot"@.len() == 6,
        "score"@.len() == 5,
        "reason"@.len() == 6,
        "fingerprint"@.len() == 11,
        "features"@.len() == 8,
        "status"@[0] == 's',
        "action"@[0] == 'a',
        "is_bot"@[0] == 'i',
        "reason"@[0] == 'r',
        "message"@[0] == 'm',
        "success"@[0] == 's',
        "accepted"@[0] == 'a',
        "rejected"@[0] == 'r',
        "features"@[0] == 'f',
        "token"@[0] == 't',
        "score"@[0] == 's',
{
    reveal_strlit("status");
    reveal_strlit("message");
    reveal_strlit("ip");
    reveal_strlit("accepted");
    reveal_strlit("rejected");
    reveal_strlit("success");
    reveal_strlit("token");
    reveal_strlit("installation_id");
    reveal_strlit("action");
    reveal_strlit("is_bot");
    reveal_strlit("score");
    reveal_strlit("reason");
    reveal_strlit("fingerprint");
    reveal_strlit("features");
}

/// A signed webhook does what its action says to its address, and records it; one
/// that is not signed with the shared secret does nothing and is answered 401.
pub proof fn law_signed_webhooks_are_obeyed(
    state: &mut BlocklistState,
    secret: &str,
    headers: Headers,
    body: &[u8],
    action: WebhookAction,
    ip: String,
    proxies: TrustedProxies,
    result: (Result<Json, Reply>, Option<SecurityEvent>),
)
    requires
        action.ip == Some(ip),
        call_ensures(
            webhook::webhook,
            (state, Some(secret), &headers, body, Some(&action), &proxies),
            result,
        ),
    ensures
        !carries_signature(secret@, headers@, body@) ==> {
            &&& final(state)@ == old(state)@
            &&& result.1 is None
            &&& result.0 matches Err(refusal) && refuses(refusal@, 401, "Unauthorized"@)
        },
        carries_signature(secret@, headers@, body@) ==> {
            &&& action.action@ == "block_ip"@ && origin::is_blockable(ip@, proxies@) ==> {
                &&& final(state)@.blocked == old(state)@.blocked.insert(ip@)
                &&& final(state)@.flagged == old(state)@.flagged
                &&& result.0 is Ok
                &&& result.1 matches Some(event) && event@.event_type == "webhook_block_ip"@
                    && event@.actor == ip@
            }
            &&& action.action@ == "block_ip"@ && !origin::is_blockable(ip@, proxies@) ==> {
                &&& final(state)@ == old(state)@
                &&& result.0 is Err
                &&& result.1 is None
            }
            &&& action.action@ == "allow_ip"@ ==> {
                &&& final(state)@.blocked == old(state)@.blocked.remove(ip@)
                &&& final(state)@.flagged == old(state)@.flagged
                &&& result.0 is Ok
                &&& result.1 matches Some(event) && event@.event_type == "webhook_allow_ip"@
                    && event@.actor == ip@
            }
            &&& action.action@ == "flag_ip"@ ==> {
                &&& final(state)@.blocked == old(state)@.blocked
                &&& action.reason matches Some(reason) ==> final(state)@.flagged
                    == old(state)@.flagged.insert(ip@, reason@)
                &&& action.reason is None ==> final(state)@.flagged == old(state)@.flagged.insert(
                    ip@,
                    "flagged"@,
                )
                &&& result.0 is Ok
                &&& result.1 matches Some(event) && event@.event_type == "webhook_flag_ip"@
                    && event@.actor == ip@
            }
            &&& action.action@ == "unflag_ip"@ ==> {
                &&& final(state)@.blocked == old(state)@.blocked
                &&& final(state)@.flagged == old(state)@.flagged.remove(ip@)
                &&& result.0 is Ok
                &&& result.1 matches Some(event) && event@.event_type == "webhook_unflag_ip"@
                    && event@.actor == ip@
            }
        },
{
    lemma_actions_differ();
    answers::lemma_refusal(401, "Unauthorized"@);
    let code = outside::hmac_sha256_of(vstd::utf8::encode_utf8(secret@), body@);
    assert(outside::hex_text(code@).len() == 2 * code@.len());
    assert(code@.len() == 32);
}

/// A report flags its address with its reason, and blocks nothing.
pub proof fn law_reports_flag_their_address(
    state: &mut BlocklistState,
    action: IpAction,
    ip: String,
    result: (Json, Option<SecurityEvent>),
)
    requires
        action.ip == Some(ip),
        call_ensures(webhook::report, (state, &action), result),
    ensures
        final(state)@.blocked == old(state)@.blocked,
        action.reason matches Some(reason) ==> final(state)@.flagged == old(state)@.flagged.insert(
            ip@,
            reason@,
        ),
        action.reason is None ==> final(state)@.flagged == old(state)@.flagged.insert(
            ip@,
            "community_report"@,
        ),
        says(result.0@, "status"@, "accepted"@),
        result.1 matches Some(event) && event@.event_type == "public_blocklist_report"@
            && event@.actor == ip@,
{
    lemma_answer_names_differ();
}

/// An authorized synchronization adds the addresses that can be blocked; any
/// other changes nothing and is answered 401.
pub proof fn law_synchronizations_add_addresses(
    state: &mut BlocklistState,
    authorized: bool,
    ips: Vec<String>,
    source: Option<&str>,
    proxies: TrustedProxies,
    result: (Result<Json, Reply>, Option<SecurityEvent>),
)
    requires
        call_ensures(
            webhook::sync_blocklist,
            (state, authorized, &ips, source, &proxies),
            result,
        ),
    ensures
        final(state)@.flagged == old(state)@.flagged,
        result.0 is Ok <==> authorized,
        result.1 is Some <==> authorized,
        !authorized ==> final(state)@ == old(state)@ && refuses(
            result.0->Err_0@,
            401,
            "Unauthorized"@,
        ),
        authorized ==> final(state)@.blocked == old(state)@.blocked.union(
            blocklist::blockable_of(text::views(ips@), proxies@).to_set(),
        ),
        authorized ==> says(result.0->Ok_0@, "status"@, "success"@),
{
    lemma_answer_names_differ();
    answers::lemma_refusal(401, "Unauthorized"@);
}

/// An administrator blocks and unblocks; nobody else changes the list.
pub proof fn law_administrators_change_the_list(
    state: &mut BlocklistState,
    authorized: bool,
    action: IpAction,
    ip: String,
    proxies: TrustedProxies,
    result: (Result<Json, Reply>, Option<SecurityEvent>),
)
    requires
        action.ip == Some(ip),
        call_ensures(admin::block, (state, authorized, &action, &proxies), result),
    ensures
        final(state)@.flagged == old(state)@.flagged,
        !authorized ==> final(state)@ == old(state)@ && result.1 is None && refuses(
            result.0->Err_0@,
            401,
            "Unauthorized"@,
        ),
        result.0 is Ok <==> authorized,
        authorized && origin::is_blockable(ip@, proxies@) ==> final(state)@.blocked
            == old(state)@.blocked.insert(ip@),
        authorized && !origin::is_blockable(ip@, proxies@) ==> final(state)@ == old(state)@,
        authorized ==> (result.1 matches Some(event) && event@.event_type == "admin_block_ip"@),
        authorized ==> says(result.0->Ok_0@, "ip"@, ip@),
{
    lemma_answer_names_differ();
    answers::lemma_refusal(401, "Unauthorized"@);
}

/// An administrator takes an address off the list; nobody else does.
pub proof fn law_administrators_unblock(
    state: &mut BlocklistState,
    authorized: bool,
    action: IpAction,
    ip: String,
    result: (Result<Json, Reply>, Option<SecurityEvent>),
)
    requires
        action.ip == Some(ip),
        call_ensures(admin::unblock, (state, authorized, &action), result),
    ensures
        final(state)@.flagged == old(state)@.flagged,
        !authorized ==> final(state)@ == old(state)@ && result.1 is None && refuses(
            result.0->Err_0@,
            401,
            "Unauthorized"@,
        ),
        result.0 is Ok <==> authorized,
        authorized ==> final(state)@.blocked == old(state)@.blocked.remove(ip@),
        authorized ==> (result.1 matches Some(event) && event@.event_type == "admin_unblock_ip"@),
        authorized ==> says(result.0->Ok_0@, "ip"@, ip@),
{
    lemma_answer_names_differ();
    answers::lemma_refusal(401, "Unauthorized"@);
}

/// What tells these names apart.
proof fn lemma_verdicts_differ()
    ensures
        "block_ip"@.len() == 8,
        "observe"@.len() == 7,
        "unknown"@.len() == 7,
        "observe"@[0] == 'o',
        "unknown"@[0] == 'u',
{
    reveal_strlit("block_ip");
    reveal_strlit("observe");
    reveal_strlit("unknown");
}

/// A decision to block is carried out on an address that can be blocked, and is
/// observed on any other; every other decision changes nothing.
pub proof fn law_decisions_are_carried_out(
    state: &mut BlocklistState,
    decision: Decision,
    ip: &str,
    proxies: TrustedProxies,
    settled: Decision,
)
    requires
        call_ensures(escalation::carry_out, (state, decision, ip, &proxies), settled),
    ensures
        ({
            let wanted = decision.action@ == "block_ip"@ && ip@ != "unknown"@;
            let able = origin::is_blockable(ip@, proxies@);
            &&& final(state)@.flagged == old(state)@.flagged
            &&& wanted && able ==> final(state)@.blocked == old(state)@.blocked.insert(ip@)
            &&& !(wanted && able) ==> final(state)@.blocked == old(state)@.blocked
            &&& wanted && !able ==> settled.action@ == "observe"@
            &&& !(wanted && !able) ==> settled@ == decision@
            &&& settled.is_bot == decision.is_bot
            &&& settled.fingerprint@ == decision.fingerprint@
            &&& settled@.features == decision@.features
        }),
{
}

/// A request is escalated as it is decided: on what of it is attested, for the
/// client that it names. A block that is decided is in force where it can be, and
/// the answer, the record and the verdict tell what was decided.
pub proof fn law_escalations_are_decided(
    state: &mut BlocklistState,
    metadata: RequestMetadata,
    attestation: Option<&str>,
    keys: &[&str],
    max_age_seconds: u64,
    now: i64,
    freq: FrequencyFeatures,
    trained: bool,
    score: &str,
    rounded: &str,
    time_since: &str,
    standing: Standing,
    proxies: TrustedProxies,
    kept: RequestMetadata,
    decision: Decision,
    client: String,
    result: (Json, SecurityEvent, bool),
)
    requires
        call_ensures(
            escalation::retain_attested_fingerprint,
            (metadata, attestation, keys, max_age_seconds, now),
            kept,
        ),
        call_ensures(
            detection::decide_with_model,
            (&kept, freq, now, trained, rounded, standing),
            decision,
        ),
        call_ensures(escalation::client_of, (&kept,), client),
        call_ensures(
            escalation::escalate,
            (
                state,
                metadata,
                attestation,
                keys,
                max_age_seconds,
                now,
                freq,
                trained,
                score,
                rounded,
                time_since,
                standing,
                &proxies,
            ),
            result,
        ),
    ensures
        ({
            let wanted = decision.action@ == "block_ip"@ && client@ != "unknown"@;
            let able = origin::is_blockable(client@, proxies@);
            &&& result.2 == decision.is_bot
            &&& final(state)@.flagged == old(state)@.flagged
            &&& wanted && able ==> final(state)@.blocked == old(state)@.blocked.insert(client@)
            &&& !(wanted && able) ==> final(state)@.blocked == old(state)@.blocked
            &&& wanted && !able ==> says(result.0@, "action"@, "observe"@) && says(
                result.1@.payload,
                "action"@,
                "observe"@,
            )
            &&& !(wanted && !able) ==> says(result.0@, "action"@, decision.action@) && says(
                result.1@.payload,
                "action"@,
                decision.action@,
            ) && says(result.0@, "reason"@, decision.reason@)
            &&& says(result.0@, "status"@, "success"@)
            &&& json::member(result.0@, "is_bot"@) == Some(JsonView::Bool(decision.is_bot))
            &&& json::member(result.0@, "score"@) == Some(JsonView::Decimal(score@))
            &&& says(result.0@, "fingerprint"@, decision.fingerprint@)
            &&& result.1@.event_type == "escalation_decision"@
            &&& result.1@.actor == client@
        }),
{
    lemma_answer_names_differ();
}

/// A token that was issued is verified once, until it expires, and is then
/// forgotten; a token that has expired by then is not.
pub proof fn law_issued_tokens_are_verified_once(
    issuing: &mut CaptchaState,
    now: u64,
    nonce: &str,
    token: String,
    verifying: &mut CaptchaState,
    token_text: &str,
    later: u64,
    valid: bool,
    again: &mut CaptchaState,
    at_last: u64,
    valid_again: bool,
)
    requires
        nonce@.len() > 0,
        !nonce@.contains('.'),
        now + old(issuing).ttl() <= u64::MAX,
        call_ensures(CaptchaState::issue_at, (issuing, now, nonce), token),
        *old(verifying) == *final(issuing),
        token_text@ == token@,
        call_ensures(CaptchaState::verify_once_at, (verifying, token_text, later), valid),
        *old(again) == *final(verifying),
        call_ensures(CaptchaState::verify_once_at, (again, token_text, at_last), valid_again),
    ensures
        valid <==> later <= now + old(issuing).ttl(),
        valid ==> !valid_again,
        final(issuing).ttl() == old(issuing).ttl(),
{
    let secret = old(issuing).secret();
    let expiry = captcha::expiry_at(now, old(issuing).ttl());
    if later <= expiry {
        captcha::law_issued_tokens_are_genuine(secret, expiry, nonce@, later);
        captcha::law_token_verifies_exactly_once(
            secret,
            old(issuing).issued(),
            old(issuing).ttl(),
            nonce@,
            now,
            later,
            at_last,
        );
    } else {
        captcha::lemma_token_pieces(secret, expiry, nonce@);
        text_laws::law_decimal_round_trip(expiry as nat, u64::MAX as nat);
    }
}

/// A challenge that is solved is answered with a token, which then waits; one that
/// is not gets none, and nothing waits for it.
pub proof fn law_solutions_get_tokens(
    state: &mut CaptchaState,
    answer: Option<&str>,
    now: u64,
    nonce: &str,
    solved: bool,
    told: Json,
)
    requires
        call_ensures(captcha::solved, (answer,), solved),
        call_ensures(captcha::solve_at, (state, answer, now, nonce), told),
    ensures
        json::member(told@, "success"@) == Some(JsonView::Bool(solved)),
        solved ==> final(state).issued().contains_key(nonce@) && says(
            told@,
            "token"@,
            captcha::token_of(
                old(state).secret(),
                final(state).issued()[nonce@],
                nonce@,
            ),
        ),
        !solved ==> final(state).issued() == old(state).issued() && json::member(told@, "token"@)
            == Some(JsonView::Null),
        final(state).secret() == old(state).secret(),
{
    lemma_answer_names_differ();
}

/// A verification is answered with whether the token was valid; without a token
/// it was not, and nothing changes.
pub proof fn law_verifications_are_answered(
    state: &mut CaptchaState,
    token: Option<&str>,
    now: u64,
    told: Json,
)
    requires
        call_ensures(captcha::verify, (state, token, now), told),
    ensures
        token is None ==> json::member(told@, "success"@) == Some(JsonView::Bool(false))
            && final(state).issued() == old(state).issued(),
        token matches Some(word) ==> json::member(told@, "success"@) == Some(
            JsonView::Bool(
                captcha::is_valid(old(state).secret(), old(state).issued(), word@, now),
            ),
        ),
        token matches Some(word) ==> captcha::is_valid(
            old(state).secret(),
            old(state).issued(),
            word@,
            now,
        ) ==> !captcha::is_valid(
            final(state).secret(),
            final(state).issued(),
            word@,
            now,
        ),
{
}

/// A client is told how often it asked within the window before, and how long ago
/// it last did; asking is remembered.
pub proof fn law_asking_is_counted(
    first: &mut InMemoryFrequency,
    key: &str,
    window: u64,
    then: u64,
    before: FrequencyFeatures,
    second: &mut InMemoryFrequency,
    now: u64,
    after: FrequencyFeatures,
)
    requires
        call_ensures(InMemoryFrequency::record, (first, key, window, then), before),
        *old(second) == *final(first),
        then <= now <= then + window,
        call_ensures(InMemoryFrequency::record, (second, key, window, now), after),
    ensures
        after.count >= 1,
        after.count <= before.count + 1,
        after.time_since == Some((now - then) as i128),
        then == now ==> after.count == before.count + 1,
        !old(first).seen().contains_key(key@) ==> before.count == 0 && before.time_since is None
            && after.count == 1,
{
    let seen = final(first).seen();
    let swept_first = frequency::swept(old(first).seen(), then, window);
    frequency::law_sweep_keeps_answers(old(first).seen(), key@, then, window);
    frequency::law_sweep_keeps_answers(seen, key@, now, window);
    let held = frequency::recent(
        frequency::known_moments(old(first).seen(), key@),
        then,
        window,
    );
    let known = frequency::known_moments(seen, key@);
    assert(known == held.push(then));
    assert(known.drop_last() =~= held);
    assert(known.last() == then);
    let counted = frequency::recent(known, now, window);
    assert(counted == frequency::recent(held, now, window).push(then));
    lemma_recent_shrinks(held, now, window);
    if then == now {
        frequency::law_trimming_is_idempotent(
            frequency::known_moments(old(first).seen(), key@),
            now,
            window,
        );
    }
}

/// No more count than were there.
proof fn lemma_recent_shrinks(moments: Seq<u64>, now: u64, window: u64)
    ensures
        frequency::recent(moments, now, window).len() <= moments.len(),
    decreases moments.len(),
{
    if moments.len() > 0 {
        lemma_recent_shrinks(moments.drop_last(), now, window);
    }
}

/// Metrics are shown as they were last pushed, each installation its own.
pub proof fn law_pushed_metrics_are_kept(
    state: &mut DashboardState,
    payload: Json,
    id: Seq<char>,
    answer: Json,
    other: Seq<char>,
)
    requires
        call_ensures(DashboardState::push_metrics, (state, payload), answer),
        says(payload@, "installation_id"@, id),
        other != id,
    ensures
        final(state)@.contains_pair(id, payload@),
        final(state)@.contains_key(other) <==> old(state)@.contains_key(other),
        old(state)@.contains_key(other) ==> final(state)@[other] == old(state)@[other],
        says(answer@, "status"@, "accepted"@),
        says(answer@, "installation_id"@, id),
{
    lemma_answer_names_differ();
}

/// A fetched page grows chunk by chunk up to its limit, and never beyond.
pub proof fn law_pages_grow_to_their_limit(
    body: &mut Vec<u8>,
    chunk: &[u8],
    maximum: u64,
    taken: bool,
)
    requires
        call_ensures(edge::append_chunk, (body, chunk, maximum), taken),
    ensures
        taken <==> old(body)@.len() + chunk@.len() <= maximum,
        taken ==> final(body)@ == old(body)@ + chunk@,
        !taken ==> final(body)@ == old(body)@,
{
}

/// A header that is added is found by its name where none came before it.
pub proof fn law_added_headers_are_found(
    headers: &mut Headers,
    name: &str,
    value: Option<&str>,
)
    requires
        call_ensures(Headers::push, (headers, name, value), ()),
        forall|i: int|
            0 <= i < old(headers)@.len() ==> !text::same_ignoring_case(
                (#[trigger] old(headers)@[i]).0,
                name@,
            ),
    ensures
        headers::header_text(final(headers)@, name@) == text::opt_str_view(value),
        final(headers)@.len() == old(headers)@.len() + 1,
{
    crate::laws::origin::lemma_header_text(
        final(headers)@,
        name@,
        old(headers)@.len() as int,
    );
}

} // verus!
