//! Webhook actions on the blocklist, and the public reports and synchronized
//! lists that change it too.
use vstd::prelude::*;
use crate::audit;
use crate::audit::{EventView, SecurityEvent};
use crate::auth;
use crate::blocklist;
use crate::blocklist::{BlocklistState, BlocklistView, IpAction};
use crate::headers;
use crate::headers::Headers;
use crate::json;
use crate::json::{Json, JsonObject, JsonView};
use crate::origin;
use crate::origin::{ProxiesView, TrustedProxies};
use crate::outside;
use crate::reply;
use crate::reply::{Reply, ReplyView};
use crate::settings;
use crate::text;

verus! {

/// An action as a webhook request names it.
#[derive(Debug)]
pub struct WebhookAction {
    pub action: String,
    pub ip: Option<String>,
    pub reason: Option<String>,
}

/// What a webhook request asks for.
pub ghost struct ActionView {
    pub action: Seq<char>,
    pub ip: Option<Seq<char>>,
    pub reason: Option<Seq<char>>,
}

impl View for WebhookAction {
    type V = ActionView;

    open spec fn view(&self) -> ActionView {
        ActionView {
            action: self.action@,
            ip: text::opt_view(self.ip),
            reason: text::opt_view(self.reason),
        }
    }
}

/// The meaning of an optional action.
pub open spec fn opt_action(action: Option<&WebhookAction>) -> Option<ActionView> {
    match action {
        Some(found) => Some(found@),
        None => None,
    }
}

/// What a request leads to: the answer, the event to record, and the list.
pub ghost struct Effect {
    pub outcome: Result<JsonView, ReplyView>,
    pub event: Option<EventView>,
    pub list: BlocklistView,
}

/// The request carries the HMAC of its body, where a secret is configured.
pub open spec fn is_signed(
    secret: Option<Seq<char>>,
    entries: Seq<(Seq<char>, Option<Seq<char>>)>,
    body: Seq<u8>,
) -> bool {
    match secret {
        Some(key) => auth::header_or_empty(entries, "x-signature"@) == outside::hex_text(
            outside::hmac_sha256_of(vstd::utf8::encode_utf8(key), body)@,
        ),
        None => true,
    }
}

/// The answer to an action that was done.
pub open spec fn done(ip: Seq<char>, what: Seq<char>) -> JsonView {
    JsonView::Object(
        map![
            "status"@ => JsonView::Text("success"@),
            "message"@ => JsonView::Text("IP "@ + ip + what),
        ],
    )
}

/// The members that name an address and a reason.
pub open spec fn ip_and_reason(ip: Seq<char>, reason: JsonView) -> JsonView {
    JsonView::Object(map!["ip"@ => JsonView::Text(ip), "reason"@ => reason])
}

/// The members that name an address.
pub open spec fn only_ip(ip: Seq<char>) -> JsonView {
    JsonView::Object(map!["ip"@ => JsonView::Text(ip)])
}

/// An effect that refuses and changes nothing.
pub open spec fn refused(status: u16, message: Seq<char>, list: BlocklistView) -> Effect {
    Effect { outcome: Err(reply::refusal(status, message)), event: None, list }
}

/// What an action on an address leads to.
pub open spec fn action_effect(
    action: ActionView,
    ip: Seq<char>,
    list: BlocklistView,
    proxies: ProxiesView,
) -> Effect {
    if action.action == "block_ip"@ {
        if origin::is_blockable(ip, proxies) {
            Effect {
                outcome: Ok(done(ip, " added to blocklist."@)),
                event: Some(
                    EventView {
                        event_type: "webhook_block_ip"@,
                        actor: ip,
                        payload: ip_and_reason(ip, json::text_or_null(action.reason)),
                    },
                ),
                list: BlocklistView { blocked: list.blocked.insert(ip), ..list },
            }
        } else {
            refused(
                reply::BAD_REQUEST,
                "IP is invalid or belongs to trusted proxy infrastructure"@,
                list,
            )
        }
    } else if action.action == "allow_ip"@ {
        Effect {
            outcome: Ok(done(ip, " removed from blocklist."@)),
            event: Some(
                EventView {
                    event_type: "webhook_allow_ip"@,
                    actor: ip,
                    payload: only_ip(ip),
                },
            ),
            list: BlocklistView { blocked: list.blocked.remove(ip), ..list },
        }
    } else if action.action == "flag_ip"@ {
        let reason = settings::string_setting(action.reason, "flagged"@);
        Effect {
            outcome: Ok(done(ip, " flagged."@)),
            event: Some(
                EventView {
                    event_type: "webhook_flag_ip"@,
                    actor: ip,
                    payload: ip_and_reason(ip, JsonView::Text(reason)),
                },
            ),
            list: BlocklistView { flagged: list.flagged.insert(ip, reason), ..list },
        }
    } else if action.action == "unflag_ip"@ {
        Effect {
            outcome: Ok(done(ip, " unflagged."@)),
            event: Some(
                EventView {
                    event_type: "webhook_unflag_ip"@,
                    actor: ip,
                    payload: only_ip(ip),
                },
            ),
            list: BlocklistView { flagged: list.flagged.remove(ip), ..list },
        }
    } else {
        refused(reply::BAD_REQUEST, "Invalid payload"@, list)
    }
}

/// What a webhook request leads to. The action is what the body says, if it
/// says one.
pub open spec fn webhook_effect(
    secret: Option<Seq<char>>,
    entries: Seq<(Seq<char>, Option<Seq<char>>)>,
    body: Seq<u8>,
    action: Option<ActionView>,
    list: BlocklistView,
    proxies: ProxiesView,
) -> Effect {
    if !is_signed(secret, entries, body) {
        refused(reply::UNAUTHORIZED, "Unauthorized"@, list)
    } else {
        match action {
            Some(named) => match named.ip {
                Some(ip) => action_effect(named, ip, list, proxies),
                None => refused(reply::BAD_REQUEST, "Invalid payload"@, list),
            },
            None => refused(reply::BAD_REQUEST, "Invalid payload"@, list),
        }
    }
}

/// A change of the list, as other stores of it take it over.
#[derive(Debug)]
pub enum ListChange {
    Block(String),
    Allow(String),
    Flag(String, String),
    Unflag(String),
}

/// A change of the list.
pub ghost enum ChangeView {
    Block(Seq<char>),
    Allow(Seq<char>),
    Flag(Seq<char>, Seq<char>),
    Unflag(Seq<char>),
}

impl View for ListChange {
    type V = ChangeView;

    open spec fn view(&self) -> ChangeView {
        match self {
            ListChange::Block(ip) => ChangeView::Block(ip@),
            ListChange::Allow(ip) => ChangeView::Allow(ip@),
            ListChange::Flag(ip, reason) => ChangeView::Flag(ip@, reason@),
            ListChange::Unflag(ip) => ChangeView::Unflag(ip@),
        }
    }
}

/// The list after a change.
pub open spec fn after_change(list: BlocklistView, change: ChangeView) -> BlocklistView {
    match change {
        ChangeView::Block(ip) => BlocklistView { blocked: list.blocked.insert(ip), ..list },
        ChangeView::Allow(ip) => BlocklistView { blocked: list.blocked.remove(ip), ..list },
        ChangeView::Flag(ip, reason) => BlocklistView {
            flagged: list.flagged.insert(ip, reason),
            ..list
        },
        ChangeView::Unflag(ip) => BlocklistView { flagged: list.flagged.remove(ip), ..list },
    }
}

/// The change that an action asks for.
pub open spec fn change_for(action: ActionView) -> Option<ChangeView> {
    match action.ip {
        None => None,
        Some(ip) => if action.action == "block_ip"@ {
            Some(ChangeView::Block(ip))
        } else if action.action == "allow_ip"@ {
            Some(ChangeView::Allow(ip))
        } else if action.action == "flag_ip"@ {
            Some(ChangeView::Flag(ip, settings::string_setting(action.reason, "flagged"@)))
        } else if action.action == "unflag_ip"@ {
            Some(ChangeView::Unflag(ip))
        } else {
            None
        },
    }
}

/// The meaning of an optional change.
pub open spec fn opt_change(change: Option<ListChange>) -> Option<ChangeView> {
    match change {
        Some(found) => Some(found@),
        None => None,
    }
}

/// The change that an action asks for.
pub fn change_of(action: &WebhookAction) -> (r: Option<ListChange>)
    ensures
        opt_change(r) == change_for(action@),
{
    let ip = match &action.ip {
        Some(named) => named.clone(),
        None => {
            return None;
        },
    };
    let kind = action.action.as_str();
    if text::text_eq(kind, "block_ip") {
        Some(ListChange::Block(ip))
    } else if text::text_eq(kind, "allow_ip") {
        Some(ListChange::Allow(ip))
    } else if text::text_eq(kind, "flag_ip") {
        let reason = settings::env_string(text::borrowed(&action.reason), "flagged");
        Some(ListChange::Flag(ip, reason))
    } else if text::text_eq(kind, "unflag_ip") {
        Some(ListChange::Unflag(ip))
    } else {
        None
    }
}

/// The answer to an action that was done.
fn say_done(ip: &str, what: &str) -> (r: Json)
    ensures
        r@ == done(ip@, what@),
{
    let mut words = "IP ".to_string();
    words.append(ip);
    words.append(what);
    let mut answer = JsonObject::new();
    answer.put("status", json::text_value("success"));
    answer.put("message", json::text_value(words.as_str()));
    Json::Object(answer)
}

fn name_ip_and_reason(ip: &str, reason: Json) -> (r: Json)
    ensures
        r@ == ip_and_reason(ip@, reason@),
{
    let mut members = JsonObject::new();
    members.put("ip", json::text_value(ip));
    members.put("reason", reason);
    Json::Object(members)
}

fn name_ip(ip: &str) -> (r: Json)
    ensures
        r@ == only_ip(ip@),
{
    let mut members = JsonObject::new();
    members.put("ip", json::text_value(ip));
    Json::Object(members)
}

/// Carries a webhook request out: answers it, changes the list, and says which
/// event to record.
pub fn webhook(
    state: &mut BlocklistState,
    secret: Option<&str>,
    headers: &Headers,
    body: &[u8],
    action: Option<&WebhookAction>,
    proxies: &TrustedProxies,
) -> (r: (Result<Json, Reply>, Option<SecurityEvent>))
    requires
        old(state).well_formed(),
    ensures
        final(state).well_formed(),
        (Effect {
            outcome: reply::outcome(r.0),
            event: audit::opt_event(r.1),
            list: final(state)@,
        }) == webhook_effect(
            text::opt_str_view(secret),
            headers@,
            body@,
            opt_action(action),
            old(state)@,
            proxies@,
        ),
{
    if let Some(key) = secret {
        proof {
            reveal_strlit("");
            assert(""@ =~= Seq::<char>::empty());
        }
        let signature = headers.get("x-signature").unwrap_or("");
        if !auth::verify_hmac_sha256(key, body, signature) {
            return (Err(reply::unauthorized()), None);
        }
    }
    let named = match action {
        Some(found) => found,
        None => {
            return (Err(reply::refuse(reply::BAD_REQUEST, "Invalid payload")), None);
        },
    };
    let ip = match &named.ip {
        Some(found) => found.as_str(),
        None => {
            return (Err(reply::refuse(reply::BAD_REQUEST, "Invalid payload")), None);
        },
    };
    let verb = named.action.as_str();
    if text::text_eq(verb, "block_ip") {
        if !state.block(ip, proxies) {
            return (
                Err(
                    reply::refuse(
                        reply::BAD_REQUEST,
                        "IP is invalid or belongs to trusted proxy infrastructure",
                    ),
                ),
                None,
            );
        }
        let reason = json::optional_text(text::borrowed(&named.reason));
        (
            Ok(say_done(ip, " added to blocklist.")),
            Some(audit::event("webhook_block_ip", ip, name_ip_and_reason(ip, reason))),
        )
    } else if text::text_eq(verb, "allow_ip") {
        state.allow(ip);
        (
            Ok(say_done(ip, " removed from blocklist.")),
            Some(audit::event("webhook_allow_ip", ip, name_ip(ip))),
        )
    } else if text::text_eq(verb, "flag_ip") {
        let reason = settings::env_string(text::borrowed(&named.reason), "flagged");
        state.flag(ip, reason.as_str());
        (
            Ok(say_done(ip, " flagged.")),
            Some(
                audit::event(
                    "webhook_flag_ip",
                    ip,
                    name_ip_and_reason(ip, json::text_value(reason.as_str())),
                ),
            ),
        )
    } else if text::text_eq(verb, "unflag_ip") {
        state.unflag(ip);
        (
            Ok(say_done(ip, " unflagged.")),
            Some(audit::event("webhook_unflag_ip", ip, name_ip(ip))),
        )
    } else {
        (Err(reply::refuse(reply::BAD_REQUEST, "Invalid payload")), None)
    }
}

/// What a public report of an address leads to.
pub open spec fn report_effect(
    ip: Option<Seq<char>>,
    reason: Option<Seq<char>>,
    list: BlocklistView,
) -> Effect {
    match ip {
        Some(address) => {
            let why = settings::string_setting(reason, "community_report"@);
            Effect {
                outcome: Ok(
                    JsonView::Object(
                        map![
                            "status"@ => JsonView::Text("accepted"@),
                            "ip"@ => JsonView::Text(address),
                        ],
                    ),
                ),
                event: Some(
                    EventView {
                        event_type: "public_blocklist_report"@,
                        actor: address,
                        payload: ip_and_reason(address, JsonView::Text(why)),
                    },
                ),
                list: BlocklistView { flagged: list.flagged.insert(address, why), ..list },
            }
        },
        None => Effect { outcome: Ok(reply::error_body("ip required"@)), event: None, list },
    }
}

/// Takes a public report: it flags the address, and never blocks it.
pub fn report(state: &mut BlocklistState, action: &IpAction) -> (r: (Json, Option<SecurityEvent>))
    requires
        old(state).well_formed(),
    ensures
        final(state).well_formed(),
        (Effect {
            outcome: Ok(r.0@),
            event: audit::opt_event(r.1),
            list: final(state)@,
        }) == report_effect(
            text::opt_view(action.ip),
            text::opt_view(action.reason),
            old(state)@,
        ),
{
    match &action.ip {
        Some(address) => {
            let ip = address.as_str();
            let why = settings::env_string(text::borrowed(&action.reason), "community_report");
            state.flag(ip, why.as_str());
            let mut answer = JsonObject::new();
            answer.put("status", json::text_value("accepted"));
            answer.put("ip", json::text_value(ip));
            (
                Json::Object(answer),
                Some(
                    audit::event(
                        "public_blocklist_report",
                        ip,
                        name_ip_and_reason(ip, json::text_value(why.as_str())),
                    ),
                ),
            )
        },
        None => (reply::error_document("ip required"), None),
    }
}

/// The document of the blocked addresses.
pub fn blocked_document(blocked: &Vec<String>) -> (r: Json)
    ensures
        r@ == JsonView::Object(map!["blocked"@ => json::texts_view(text::views(blocked@))]),
{
    let mut answer = JsonObject::new();
    answer.put("blocked", json::text_array(blocked));
    Json::Object(answer)
}

/// What a request for the blocked addresses is answered where it needs a right.
pub fn list_auth(authorized: bool, blocked: &Vec<String>) -> (r: Result<Json, Reply>)
    ensures
        reply::outcome(r) == (if authorized {
            Ok::<JsonView, ReplyView>(
                JsonView::Object(map!["blocked"@ => json::texts_view(text::views(blocked@))]),
            )
        } else {
            Err::<JsonView, ReplyView>(reply::unauthorized_view())
        }),
{
    if !authorized {
        return Err(reply::unauthorized());
    }
    Ok(blocked_document(blocked))
}

/// The counts of a synchronized list.
pub open spec fn sync_counts(accepted: int, rejected: int) -> Map<Seq<char>, JsonView> {
    map!["accepted"@ => JsonView::Int(accepted), "rejected"@ => JsonView::Int(rejected)]
}

/// What a synchronized list of addresses leads to.
pub open spec fn sync_effect(
    authorized: bool,
    ips: Seq<Seq<char>>,
    source: Option<Seq<char>>,
    list: BlocklistView,
    proxies: ProxiesView,
) -> Effect {
    if !authorized {
        Effect { outcome: Err(reply::unauthorized_view()), event: None, list }
    } else {
        let taken = blocklist::blockable_of(ips, proxies);
        let accepted = taken.len() as int;
        let rejected = ips.len() - accepted;
        Effect {
            outcome: Ok(
                JsonView::Object(
                    map![
                        "status"@ => JsonView::Text("success"@),
                        "accepted"@ => JsonView::Int(accepted),
                        "rejected"@ => JsonView::Int(rejected),
                    ],
                ),
            ),
            event: Some(
                EventView {
                    event_type: "blocklist_sync_applied"@,
                    actor: settings::string_setting(source, "edge-ops"@),
                    payload: JsonView::Object(sync_counts(accepted, rejected)),
                },
            ),
            list: BlocklistView { blocked: list.blocked.union(taken.to_set()), ..list },
        }
    }
}

/// Takes a synchronized list of addresses: blocks those that may be blocked.
pub fn sync_blocklist(
    state: &mut BlocklistState,
    authorized: bool,
    ips: &Vec<String>,
    source: Option<&str>,
    proxies: &TrustedProxies,
) -> (r: (Result<Json, Reply>, Option<SecurityEvent>))
    requires
        old(state).well_formed(),
    ensures
        final(state).well_formed(),
        (Effect {
            outcome: reply::outcome(r.0),
            event: audit::opt_event(r.1),
            list: final(state)@,
        }) == sync_effect(
            authorized,
            text::views(ips@),
            text::opt_str_view(source),
            old(state)@,
            proxies@,
        ),
{
    if !authorized {
        return (Err(reply::unauthorized()), None);
    }
    let accepted = blocklist::block_all(state, ips, proxies);
    let rejected = ips.len() - accepted;
    let mut counts = JsonObject::new();
    counts.put("accepted", Json::Unsigned(accepted as u64));
    counts.put("rejected", Json::Unsigned(rejected as u64));
    let mut answer = JsonObject::new();
    answer.put("status", json::text_value("success"));
    answer.put("accepted", Json::Unsigned(accepted as u64));
    answer.put("rejected", Json::Unsigned(rejected as u64));
    let actor = settings::env_string(source, "edge-ops");
    (
        Ok(Json::Object(answer)),
        Some(audit::event("blocklist_sync_applied", actor.as_str(), Json::Object(counts))),
    )
}

/// A request that is not signed changes nothing and records nothing.
pub proof fn law_unsigned_requests_change_nothing(
    secret: Option<Seq<char>>,
    entries: Seq<(Seq<char>, Option<Seq<char>>)>,
    body: Seq<u8>,
    action: Option<ActionView>,
    list: BlocklistView,
    proxies: ProxiesView,
)
    requires
        !is_signed(secret, entries, body),
    ensures
        ({
            let effect = webhook_effect(secret, entries, body, action, list, proxies);
            effect.outcome is Err && effect.event is None && effect.list == list
        }),
{
}

/// A refused request changes nothing and records nothing; a served one is recorded.
pub proof fn law_refusals_change_nothing(
    secret: Option<Seq<char>>,
    entries: Seq<(Seq<char>, Option<Seq<char>>)>,
    body: Seq<u8>,
    action: Option<ActionView>,
    list: BlocklistView,
    proxies: ProxiesView,
)
    ensures
        ({
            let effect = webhook_effect(secret, entries, body, action, list, proxies);
            &&& effect.outcome is Err ==> effect.event is None && effect.list == list
            &&& effect.outcome is Ok ==> effect.event is Some
        }),
{
}

/// Blocking an address and then allowing it leaves it allowed, and flags are
/// not touched by either.
pub proof fn law_allow_undoes_block(
    reason: Option<Seq<char>>,
    ip: Seq<char>,
    list: BlocklistView,
    proxies: ProxiesView,
)
    ensures
        ({
            let block = ActionView { action: "block_ip"@, ip: Some(ip), reason };
            let allow = ActionView { action: "allow_ip"@, ip: Some(ip), reason };
            let blocked = action_effect(block, ip, list, proxies).list;
            let allowed = action_effect(allow, ip, blocked, proxies).list;
            &&& origin::is_blockable(ip, proxies) ==> blocked.blocked.contains(ip)
            &&& !allowed.blocked.contains(ip)
            &&& allowed.flagged == list.flagged
            &&& !list.blocked.contains(ip) ==> allowed.blocked == list.blocked
        }),
{
    reveal_strlit("block_ip");
    reveal_strlit("allow_ip");
    assert("block_ip"@[0] != "allow_ip"@[0]);
    let block = ActionView { action: "block_ip"@, ip: Some(ip), reason };
    let blocked = action_effect(block, ip, list, proxies).list;
    assert(!list.blocked.contains(ip) ==> blocked.blocked.remove(ip) =~= list.blocked);
}

/// A request that is recorded changed the list by the change that its action asks
/// for, so that other stores follow the list by taking that change over.
pub proof fn law_recorded_changes_can_be_followed(
    secret: Option<Seq<char>>,
    entries: Seq<(Seq<char>, Option<Seq<char>>)>,
    body: Seq<u8>,
    action: Option<ActionView>,
    list: BlocklistView,
    proxies: ProxiesView,
)
    ensures
        ({
            let effect = webhook_effect(secret, entries, body, action, list, proxies);
            effect.event is Some ==> action is Some && change_for(action->0) is Some && effect.list
                == after_change(list, change_for(action->0)->0)
        }),
        ({
            let effect = webhook_effect(secret, entries, body, action, list, proxies);
            effect.event is None ==> effect.list == list
        }),
{
}

/// A text that is no address never gets onto the blocklist.
pub proof fn law_invalid_addresses_are_never_blocked(
    action: ActionView,
    ip: Seq<char>,
    list: BlocklistView,
    proxies: ProxiesView,
)
    requires
        !origin::is_blockable(ip, proxies),
    ensures
        action_effect(action, ip, list, proxies).list.blocked.subset_of(list.blocked),
{
}

/// A public report never changes what is blocked.
pub proof fn law_reports_never_block(
    ip: Option<Seq<char>>,
    reason: Option<Seq<char>>,
    list: BlocklistView,
)
    ensures
        report_effect(ip, reason, list).list.blocked == list.blocked,
{
}

} // verus!
