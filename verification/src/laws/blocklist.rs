//! What the blocklist and its audit trail are owed: what each change does, who
//! may make it, what is answered, and where it is recorded.
use vstd::prelude::*;
use crate::audit::{AuditError, AuditStore, SecurityEvent};
use crate::audit;
use crate::auth;
use crate::blocklist::BlocklistView;
use crate::blocklist;
use crate::headers;
use crate::json::{Json, JsonView};
use crate::json;
use crate::laws::answers::{refuses, says};
use crate::laws::answers;
use crate::laws::reading;
use crate::origin::ProxiesView;
use crate::origin;
use crate::outside;
use crate::reply::Reply;
use crate::text;
use crate::text_laws;
use crate::webhook::{ActionView, ListChange, WebhookAction};
use crate::webhook;

verus! {

/// The request carries the signature of its body under the shared secret.
pub open spec fn carries_signature(
    key: Seq<char>,
    entries: Seq<(Seq<char>, Option<Seq<char>>)>,
    body: Seq<u8>,
) -> bool {
    headers::header_text(entries, "x-signature"@) == Some(
        outside::hex_text(outside::hmac_sha256_of(vstd::utf8::encode_utf8(key), body)@),
    )
}

/// What tells these names apart.
proof fn lemma_webhook_actions_differ()
    ensures
        "block_ip"@.len() == 8,
        "allow_ip"@.len() == 8,
        "flag_ip"@.len() == 7,
        "unflag_ip"@.len() == 9,
        "block_ip"@[0] == 'b',
        "allow_ip"@[0] == 'a',
{
    reveal_strlit("block_ip");
    reveal_strlit("allow_ip");
    reveal_strlit("flag_ip");
    reveal_strlit("unflag_ip");
}

/// What tells these names apart.
proof fn lemma_webhook_names_differ()
    ensures
        "status"@.len() == 6,
        "message"@.len() == 7,
        "ip"@.len() == 2,
        "reason"@.len() == 6,
        "accepted"@.len() == 8,
        "rejected"@.len() == 8,
        "blocked"@.len() == 7,
        "status"@[0] == 's',
        "reason"@[0] == 'r',
        "message"@[0] == 'm',
        "blocked"@[0] == 'b',
        "accepted"@[0] == 'a',
        "rejected"@[0] == 'r',
{
    reveal_strlit("status");
    reveal_strlit("message");
    reveal_strlit("ip");
    reveal_strlit("reason");
    reveal_strlit("accepted");
    reveal_strlit("rejected");
    reveal_strlit("blocked");
}

/// Where a secret is shared, a request whose body is not signed with it is
/// answered 401 and changes nothing.
pub proof fn law_unsigned_webhooks_are_answered_401(
    key: Seq<char>,
    entries: Seq<(Seq<char>, Option<Seq<char>>)>,
    body: Seq<u8>,
    action: Option<ActionView>,
    list: BlocklistView,
    proxies: ProxiesView,
)
    requires
        !carries_signature(key, entries, body),
    ensures
        ({
            let effect = webhook::webhook_effect(Some(key), entries, body, action, list, proxies);
            &&& effect.outcome matches Err(refusal) && refuses(refusal, 401, "Unauthorized"@)
            &&& effect.event is None
            &&& effect.list == list
        }),
{
    answers::lemma_refusal(401, "Unauthorized"@);
    let code = outside::hmac_sha256_of(vstd::utf8::encode_utf8(key), body);
    assert(outside::hex_text(code@).len() == 2 * code@.len());
    assert(code@.len() == 32);
}

/// A signed block of an address that can be blocked puts it on the list, and
/// nothing else; any other address is refused with 400.
pub proof fn law_signed_blocks_take_effect(
    key: Seq<char>,
    entries: Seq<(Seq<char>, Option<Seq<char>>)>,
    body: Seq<u8>,
    ip: Seq<char>,
    reason: Option<Seq<char>>,
    list: BlocklistView,
    proxies: ProxiesView,
    other: Seq<char>,
)
    requires
        carries_signature(key, entries, body),
    ensures
        ({
            let action = ActionView { action: "block_ip"@, ip: Some(ip), reason };
            let effect = webhook::webhook_effect(
                Some(key),
                entries,
                body,
                Some(action),
                list,
                proxies,
            );
            &&& effect.list.flagged == list.flagged
            &&& other != ip ==> (effect.list.blocked.contains(other) <==> list.blocked.contains(
                other,
            ))
            &&& origin::is_blockable(ip, proxies) ==> {
                &&& effect.list.blocked.contains(ip)
                &&& effect.outcome matches Ok(answer) && says(answer, "status"@, "success"@)
                    && says(answer, "message"@, "IP "@ + ip + " added to blocklist."@)
                &&& effect.event matches Some(event) && event.event_type == "webhook_block_ip"@
                    && event.actor == ip && says(event.payload, "ip"@, ip) && json::member(
                    event.payload,
                    "reason"@,
                ) == Some(json::text_or_null(reason))
            }
            &&& !origin::is_blockable(ip, proxies) ==> {
                &&& effect.list == list
                &&& effect.event is None
                &&& effect.outcome matches Err(refusal) && refuses(
                    refusal,
                    400,
                    "IP is invalid or belongs to trusted proxy infrastructure"@,
                )
            }
        }),
{
    lemma_webhook_actions_differ();
    lemma_webhook_names_differ();
    answers::lemma_refusal(400, "IP is invalid or belongs to trusted proxy infrastructure"@);
}

/// A signed allowance takes the address off the list, and nothing else.
pub proof fn law_signed_allowances_take_effect(
    key: Seq<char>,
    entries: Seq<(Seq<char>, Option<Seq<char>>)>,
    body: Seq<u8>,
    ip: Seq<char>,
    reason: Option<Seq<char>>,
    list: BlocklistView,
    proxies: ProxiesView,
    other: Seq<char>,
)
    requires
        carries_signature(key, entries, body),
    ensures
        ({
            let action = ActionView { action: "allow_ip"@, ip: Some(ip), reason };
            let effect = webhook::webhook_effect(
                Some(key),
                entries,
                body,
                Some(action),
                list,
                proxies,
            );
            &&& !effect.list.blocked.contains(ip)
            &&& other != ip ==> (effect.list.blocked.contains(other) <==> list.blocked.contains(
                other,
            ))
            &&& effect.list.flagged == list.flagged
            &&& effect.outcome matches Ok(answer) && says(answer, "status"@, "success"@) && says(
                answer,
                "message"@,
                "IP "@ + ip + " removed from blocklist."@,
            )
            &&& effect.event matches Some(event) && event.event_type == "webhook_allow_ip"@
                && event.actor == ip && says(event.payload, "ip"@, ip)
        }),
{
    lemma_webhook_actions_differ();
    lemma_webhook_names_differ();
}

/// A signed flag marks the address with its reason, or as flagged where none is
/// given, and blocks nothing; a signed unflag takes the mark away.
pub proof fn law_signed_flags_take_effect(
    key: Seq<char>,
    entries: Seq<(Seq<char>, Option<Seq<char>>)>,
    body: Seq<u8>,
    ip: Seq<char>,
    reason: Option<Seq<char>>,
    list: BlocklistView,
    proxies: ProxiesView,
)
    requires
        carries_signature(key, entries, body),
    ensures
        ({
            let action = ActionView { action: "flag_ip"@, ip: Some(ip), reason };
            let effect = webhook::webhook_effect(
                Some(key),
                entries,
                body,
                Some(action),
                list,
                proxies,
            );
            &&& effect.list.blocked == list.blocked
            &&& reason matches Some(why) ==> effect.list.flagged == list.flagged.insert(ip, why)
            &&& reason is None ==> effect.list.flagged == list.flagged.insert(ip, "flagged"@)
            &&& effect.outcome matches Ok(answer) && says(answer, "status"@, "success"@) && says(
                answer,
                "message"@,
                "IP "@ + ip + " flagged."@,
            )
            &&& effect.event matches Some(event) && event.event_type == "webhook_flag_ip"@
                && event.actor == ip && says(event.payload, "ip"@, ip) && says(
                event.payload,
                "reason"@,
                effect.list.flagged[ip],
            )
        }),
        ({
            let action = ActionView { action: "unflag_ip"@, ip: Some(ip), reason };
            let effect = webhook::webhook_effect(
                Some(key),
                entries,
                body,
                Some(action),
                list,
                proxies,
            );
            &&& effect.list.blocked == list.blocked
            &&& effect.list.flagged == list.flagged.remove(ip)
            &&& effect.outcome matches Ok(answer) && says(answer, "status"@, "success"@) && says(
                answer,
                "message"@,
                "IP "@ + ip + " unflagged."@,
            )
            &&& effect.event matches Some(event) && event.event_type == "webhook_unflag_ip"@
                && event.actor == ip && says(event.payload, "ip"@, ip)
        }),
{
    lemma_webhook_actions_differ();
    lemma_webhook_names_differ();
}

/// A signed request without an action, without an address, or with an action of
/// another name is refused with 400 and changes nothing.
pub proof fn law_other_webhooks_are_answered_400(
    key: Seq<char>,
    entries: Seq<(Seq<char>, Option<Seq<char>>)>,
    body: Seq<u8>,
    action: Option<ActionView>,
    list: BlocklistView,
    proxies: ProxiesView,
)
    requires
        carries_signature(key, entries, body),
        action matches Some(named) ==> (named.ip is None || (named.action != "block_ip"@
            && named.action != "allow_ip"@ && named.action != "flag_ip"@ && named.action
            != "unflag_ip"@)),
    ensures
        ({
            let effect = webhook::webhook_effect(Some(key), entries, body, action, list, proxies);
            &&& effect.outcome matches Err(refusal) && refuses(refusal, 400, "Invalid payload"@)
            &&& effect.event is None
            &&& effect.list == list
        }),
{
    answers::lemma_refusal(400, "Invalid payload"@);
}

/// Without a shared secret every request is heard as if it were signed.
pub proof fn law_no_secret_asks_no_signature(
    key: Seq<char>,
    signed: Seq<(Seq<char>, Option<Seq<char>>)>,
    entries: Seq<(Seq<char>, Option<Seq<char>>)>,
    body: Seq<u8>,
    action: Option<ActionView>,
    list: BlocklistView,
    proxies: ProxiesView,
)
    requires
        carries_signature(key, signed, body),
    ensures
        webhook::webhook_effect(None, entries, body, action, list, proxies)
            == webhook::webhook_effect(Some(key), signed, body, action, list, proxies),
{
}

/// The change that an action asks for is the one of its name.
pub proof fn law_actions_ask_for_their_change(
    action: WebhookAction,
    ip: String,
    change: Option<ListChange>,
)
    requires
        action.ip == Some(ip),
        call_ensures(webhook::change_of, (&action,), change),
    ensures
        action.action@ == "block_ip"@ ==> (change matches Some(ListChange::Block(changed))
            && changed@ == ip@),
        action.action@ == "allow_ip"@ ==> (change matches Some(ListChange::Allow(changed))
            && changed@ == ip@),
        action.action@ == "flag_ip"@ ==> (change matches Some(ListChange::Flag(changed, why))
            && changed@ == ip@ && (action.reason matches Some(reason) ==> why@ == reason@) && (
        action.reason is None ==> why@ == "flagged"@)),
        action.action@ == "unflag_ip"@ ==> (change matches Some(ListChange::Unflag(changed))
            && changed@ == ip@),
        action.action@ != "block_ip"@ && action.action@ != "allow_ip"@ && action.action@
            != "flag_ip"@ && action.action@ != "unflag_ip"@ ==> change is None,
{
    lemma_webhook_actions_differ();
}

/// Each change does its own thing to one address, and nothing to any other.
pub proof fn law_changes_touch_one_address(
    list: BlocklistView,
    ip: Seq<char>,
    reason: Seq<char>,
    other: Seq<char>,
)
    requires
        other != ip,
    ensures
        ({
            let blocked = webhook::after_change(list, webhook::ChangeView::Block(ip));
            let allowed = webhook::after_change(list, webhook::ChangeView::Allow(ip));
            let flagged = webhook::after_change(list, webhook::ChangeView::Flag(ip, reason));
            let unflagged = webhook::after_change(list, webhook::ChangeView::Unflag(ip));
            &&& blocked.blocked.contains(ip) && blocked.flagged == list.flagged
            &&& !allowed.blocked.contains(ip) && allowed.flagged == list.flagged
            &&& flagged.flagged.contains_pair(ip, reason) && flagged.blocked == list.blocked
            &&& !unflagged.flagged.contains_key(ip) && unflagged.blocked == list.blocked
            &&& blocked.blocked.contains(other) == list.blocked.contains(other)
            &&& allowed.blocked.contains(other) == list.blocked.contains(other)
            &&& flagged.flagged.contains_key(other) == list.flagged.contains_key(other)
            &&& unflagged.flagged.contains_key(other) == list.flagged.contains_key(other)
            &&& list.flagged.contains_key(other) ==> flagged.flagged[other] == list.flagged[other]
                && unflagged.flagged[other] == list.flagged[other]
        }),
{
}

/// Anybody may report an address, which flags it with the reason given; a report
/// without an address does nothing.
pub proof fn law_reports_flag(ip: Seq<char>, reason: Option<Seq<char>>, list: BlocklistView)
    ensures
        ({
            let effect = webhook::report_effect(Some(ip), reason, list);
            &&& effect.list.blocked == list.blocked
            &&& reason matches Some(why) ==> effect.list.flagged == list.flagged.insert(ip, why)
            &&& reason is None ==> effect.list.flagged == list.flagged.insert(
                ip,
                "community_report"@,
            )
            &&& effect.outcome matches Ok(answer) && says(answer, "status"@, "accepted"@) && says(
                answer,
                "ip"@,
                ip,
            )
            &&& effect.event matches Some(event) && event.event_type == "public_blocklist_report"@
                && event.actor == ip && says(event.payload, "ip"@, ip) && says(
                event.payload,
                "reason"@,
                effect.list.flagged[ip],
            )
        }),
        ({
            let effect = webhook::report_effect(None, reason, list);
            &&& effect.list == list
            &&& effect.event is None
            &&& effect.outcome matches Ok(answer) && says(answer, "status"@, "error"@) && says(
                answer,
                "message"@,
                "ip required"@,
            )
        }),
{
    lemma_webhook_names_differ();
}

/// Of a list of addresses, exactly those that can be blocked are taken.
proof fn lemma_blockable_of(ips: Seq<Seq<char>>, proxies: ProxiesView, ip: Seq<char>)
    ensures
        blocklist::blockable_of(ips, proxies).contains(ip) <==> ips.contains(ip)
            && origin::is_blockable(ip, proxies),
        blocklist::blockable_of(ips, proxies).len() <= ips.len(),
    decreases ips.len(),
{
    if ips.len() > 0 {
        let rest = ips.drop_last();
        let before = blocklist::blockable_of(rest, proxies);
        let all = blocklist::blockable_of(ips, proxies);
        lemma_blockable_of(rest, proxies, ip);
        if ips.contains(ip) && origin::is_blockable(ip, proxies) {
            let i = choose|i: int| 0 <= i < ips.len() && ips[i] == ip;
            if i < rest.len() {
                assert(rest[i] == ip);
                let k = choose|k: int| 0 <= k < before.len() && before[k] == ip;
                assert(all[k] == ip);
            } else {
                assert(all[before.len() as int] == ip);
            }
        }
        if all.contains(ip) {
            let k = choose|k: int| 0 <= k < all.len() && all[k] == ip;
            if k < before.len() {
                assert(before[k] == ip);
                let i = choose|i: int| 0 <= i < rest.len() && rest[i] == ip;
                assert(ips[i] == ip);
            } else {
                assert(ips[ips.len() - 1] == ip);
            }
        }
    }
}

/// A synchronized list adds every address that can be blocked, and only those;
/// the answer and the record count what was taken and what was not.
pub proof fn law_synchronized_lists_are_added(
    ips: Seq<Seq<char>>,
    source: Option<Seq<char>>,
    list: BlocklistView,
    proxies: ProxiesView,
    ip: Seq<char>,
)
    ensures
        ({
            let effect = webhook::sync_effect(true, ips, source, list, proxies);
            &&& effect.list.blocked.contains(ip) <==> list.blocked.contains(ip) || (ips.contains(ip)
                && origin::is_blockable(ip, proxies))
            &&& effect.list.flagged == list.flagged
            &&& effect.outcome matches Ok(answer) && says(answer, "status"@, "success"@) && (
            json::member(answer, "accepted"@) matches Some(JsonView::Int(accepted)) && (
            json::member(answer, "rejected"@) matches Some(JsonView::Int(rejected)) && accepted >= 0
                && rejected >= 0 && accepted + rejected == ips.len()))
            &&& effect.event matches Some(event) && event.event_type == "blocklist_sync_applied"@
                && (source matches Some(name) ==> event.actor == name) && (source is None
                ==> event.actor == "edge-ops"@) && json::member(event.payload, "accepted"@)
                == json::member(effect.outcome->Ok_0, "accepted"@) && json::member(
                event.payload,
                "rejected"@,
            ) == json::member(effect.outcome->Ok_0, "rejected"@)
        }),
        ({
            let effect = webhook::sync_effect(false, ips, source, list, proxies);
            &&& effect.list == list
            &&& effect.event is None
            &&& effect.outcome matches Err(refusal) && refuses(refusal, 401, "Unauthorized"@)
        }),
{
    lemma_webhook_names_differ();
    answers::lemma_refusal(401, "Unauthorized"@);
    lemma_blockable_of(ips, proxies, ip);
}

/// The list is shown as it is, where it takes an authorization only with one.
pub proof fn law_lists_are_shown(
    authorized: bool,
    blocked: Vec<String>,
    document: Json,
    answer: Result<Json, Reply>,
)
    requires
        call_ensures(webhook::blocked_document, (&blocked,), document),
        call_ensures(webhook::list_auth, (authorized, &blocked), answer),
    ensures
        json::member(document@, "blocked"@) == Some(json::texts_view(text::views(blocked@))),
        answer is Ok <==> authorized,
        answer matches Ok(shown) ==> json::member(shown@, "blocked"@) == Some(
            json::texts_view(text::views(blocked@)),
        ),
        answer matches Err(refusal) ==> refuses(refusal@, 401, "Unauthorized"@),
{
    answers::lemma_refusal(401, "Unauthorized"@);
}

/// A flag is filed under the address.
pub proof fn law_flags_are_filed_by_address(prefix: &str, ip: &str, key: String)
    requires
        call_ensures(blocklist::flag_key, (prefix, ip), key),
    ensures
        key@ == prefix@ + ip@,
{
}

/// What tells these names apart.
proof fn lemma_backends_differ()
    ensures
        "auto"@.len() == 4,
        "jsonl"@.len() == 5,
        "postgres"@.len() == 8,
        "postgresql"@.len() == 10,
        "disabled"@.len() == 8,
        "none"@.len() == 4,
        "auto"@[0] == 'a',
        "none"@[0] == 'n',
        "postgres"@[0] == 'p',
        "disabled"@[0] == 'd',
{
    reveal_strlit("auto");
    reveal_strlit("jsonl");
    reveal_strlit("postgres");
    reveal_strlit("postgresql");
    reveal_strlit("disabled");
    reveal_strlit("none");
}

/// The trail is kept in the database where there is one, else in a file, unless a
/// backend is named; a named database must be there, and no other name is known.
pub proof fn law_audit_backends(
    setting: Option<&str>,
    database: bool,
    store: Result<AuditStore, AuditError>,
)
    requires
        call_ensures(AuditStore::from_setting, (setting, database), store),
    ensures
        setting is None ==> store == (if database {
            Ok::<AuditStore, AuditError>(AuditStore::Postgres)
        } else {
            Ok::<AuditStore, AuditError>(AuditStore::Jsonl)
        }),
        setting matches Some(word) ==> ({
            let name = text::lower(word@);
            &&& name == "auto"@ ==> store == (if database {
                Ok::<AuditStore, AuditError>(AuditStore::Postgres)
            } else {
                Ok::<AuditStore, AuditError>(AuditStore::Jsonl)
            })
            &&& name == "jsonl"@ ==> store == Ok::<AuditStore, AuditError>(AuditStore::Jsonl)
            &&& name == "postgres"@ || name == "postgresql"@ ==> store == (if database {
                Ok::<AuditStore, AuditError>(AuditStore::Postgres)
            } else {
                Err::<AuditStore, AuditError>(AuditError::DatabaseRequired)
            })
            &&& name == "disabled"@ || name == "none"@ ==> store == Ok::<AuditStore, AuditError>(
                AuditStore::Disabled,
            )
            &&& store == Err::<AuditStore, AuditError>(AuditError::UnknownBackend) <==> name
                != "auto"@ && name != "jsonl"@ && name != "postgres"@ && name != "postgresql"@
                && name != "disabled"@ && name != "none"@
        }),
{
    lemma_backends_differ();
    reveal_strlit("auto");
    assert(text::lower("auto"@) =~= "auto"@);
}

/// A backend goes by the name that chooses it, and each fault says what is asked.
pub proof fn law_audit_backends_are_named(
    store: AuditStore,
    name: &'static str,
    error: AuditError,
    message: &'static str,
)
    requires
        call_ensures(AuditStore::backend_name, (&store,), name),
        call_ensures(AuditError::message, (&error,), message),
    ensures
        store is Postgres <==> name@ == "postgres"@,
        store is Jsonl <==> name@ == "jsonl"@,
        store is Disabled <==> name@ == "disabled"@,
        error is DatabaseRequired ==> message@
            == "AUDIT_STORAGE_BACKEND=postgres requires an available PostgreSQL connection"@,
        error is UnknownBackend ==> message@
            == "AUDIT_STORAGE_BACKEND must be one of: auto, postgres, jsonl, disabled"@,
{
    lemma_backends_differ();
}

/// Between one and ten thousand events are shown, as many as asked for there.
pub proof fn law_event_limits(limit: i64, shown: i64)
    requires
        call_ensures(audit::event_limit, (limit,), shown),
    ensures
        1 <= limit <= 10_000 ==> shown == limit,
        limit < 1 ==> shown == 1,
        limit > 10_000 ==> shown == 10_000,
{
}

/// An event is recorded as it happened.
pub proof fn law_events_are_recorded(
    event_type: &str,
    actor: &str,
    payload: Json,
    event: SecurityEvent,
)
    requires
        call_ensures(audit::event, (event_type, actor, payload), event),
    ensures
        event.event_type@ == event_type@,
        event.actor@ == actor@,
        event.payload@ == payload@,
{
}

/// The records of a trail are its lines that are not blank: a line ends with a
/// newline, which may follow a carriage return; what follows the last newline is
/// a line as it is.
pub proof fn law_records_are_lines(
    contents: &str,
    line: Seq<char>,
    rest: &str,
    records: Vec<String>,
    rest_records: Vec<String>,
)
    requires
        !line.contains('\n'),
        call_ensures(audit::jsonl_records, (contents,), records),
        call_ensures(audit::jsonl_records, (rest,), rest_records),
    ensures
        contents@ == line && text::trimmed(line).len() > 0 ==> text::views(records@) == seq![line],
        contents@ == line && text::trimmed(line).len() == 0 ==> records@.len() == 0,
        contents@ == line + seq!['\n'] + rest@ ==> ({
            let ended = if line.len() > 0 && line[line.len() - 1] == '\r' {
                line.take(line.len() - 1)
            } else {
                line
            };
            &&& text::trimmed(ended).len() > 0 ==> text::views(records@) == seq![ended]
                + text::views(rest_records@)
            &&& text::trimmed(ended).len() == 0 ==> text::views(records@) == text::views(
                rest_records@,
            )
        }),
{
    assert(text::views(records@).len() == records@.len());
    let none = Seq::<Seq<char>>::empty();
    if contents@ == line {
        text_laws::lemma_single_piece(line, '\n');
        assert(audit::lines_of(line) =~= seq![line]);
        assert(seq![line].drop_last() =~= none);
        assert(audit::record_lines(none) =~= none);
    }
    if contents@ == line + seq!['\n'] + rest@ {
        reading::lemma_pieces_of_rest(line, rest@, '\n');
        text_laws::lemma_pieces(rest@, '\n');
        let ended = audit::without_return(line);
        let parts = text::pieces(contents@, '\n');
        let tail = text::pieces(rest@, '\n');
        assert(parts =~= seq![line] + tail);
        assert(audit::lines_of(contents@) =~= seq![ended] + audit::lines_of(rest@));
        lemma_records_of_rest(ended, audit::lines_of(rest@));
        if line.len() > 0 && line[line.len() - 1] == '\r' {
            assert(line.drop_last() =~= line.take(line.len() - 1));
        }
    }
}

/// The records of a list of lines are those of its first and of the rest.
proof fn lemma_records_of_rest(first: Seq<char>, rest: Seq<Seq<char>>)
    ensures
        text::is_blank(first) ==> audit::record_lines(seq![first] + rest) == audit::record_lines(
            rest,
        ),
        !text::is_blank(first) ==> audit::record_lines(seq![first] + rest) == seq![first]
            + audit::record_lines(rest),
    decreases rest.len(),
{
    let all = seq![first] + rest;
    let none = Seq::<Seq<char>>::empty();
    if rest.len() == 0 {
        assert(all.drop_last() =~= none);
        assert(all.last() == first);
        assert(audit::record_lines(none) =~= none);
        assert(rest =~= none);
        assert(none.push(first) =~= seq![first] + none);
    } else {
        lemma_records_of_rest(first, rest.drop_last());
        assert(all.drop_last() =~= seq![first] + rest.drop_last());
        assert(all.last() == rest.last());
        let before = audit::record_lines(rest.drop_last());
        assert((seq![first] + before).push(rest.last()) =~= seq![first] + before.push(
            rest.last(),
        ));
    }
}

} // verus!
