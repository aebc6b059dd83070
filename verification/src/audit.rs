//! The audit trail: the events that are recorded, where they are kept, and
//! which of them are shown.
use vstd::prelude::*;
use crate::json::{Json, JsonView};
use crate::order;
use crate::settings;
use crate::text;
use crate::text_laws;

verus! {

/// An event to be recorded.
#[derive(Debug)]
pub struct SecurityEvent {
    pub event_type: String,
    pub actor: String,
    pub payload: Json,
}

/// What an event says.
pub ghost struct EventView {
    pub event_type: Seq<char>,
    pub actor: Seq<char>,
    pub payload: JsonView,
}

impl View for SecurityEvent {
    type V = EventView;

    open spec fn view(&self) -> EventView {
        EventView { event_type: self.event_type@, actor: self.actor@, payload: self.payload@ }
    }
}

/// The meaning of an optional event.
pub open spec fn opt_event(event: Option<SecurityEvent>) -> Option<EventView> {
    match event {
        Some(found) => Some(found@),
        None => None,
    }
}

/// An event to be recorded.
pub fn event(event_type: &str, actor: &str, payload: Json) -> (r: SecurityEvent)
    ensures
        r@ == (EventView { event_type: event_type@, actor: actor@, payload: payload@ }),
{
    SecurityEvent { event_type: event_type.to_string(), actor: actor.to_string(), payload }
}

/// Where events are kept.
#[derive(Debug, Clone, Copy, PartialEq, Eq, Structural)]
pub enum AuditStore {
    Postgres,
    Jsonl,
    Disabled,
}

/// Why no store was chosen.
#[derive(Debug, Clone, Copy, PartialEq, Eq, Structural)]
pub enum AuditError {
    DatabaseRequired,
    UnknownBackend,
}

/// The store that a setting selects.
pub open spec fn store_for(setting: Option<Seq<char>>, database: bool) -> Result<
    AuditStore,
    AuditError,
> {
    let backend = text::lower(settings::string_setting(setting, "auto"@));
    if backend == "auto"@ {
        if database {
            Ok(AuditStore::Postgres)
        } else {
            Ok(AuditStore::Jsonl)
        }
    } else if backend == "jsonl"@ {
        Ok(AuditStore::Jsonl)
    } else if backend == "postgres"@ || backend == "postgresql"@ {
        if database {
            Ok(AuditStore::Postgres)
        } else {
            Err(AuditError::DatabaseRequired)
        }
    } else if backend == "disabled"@ || backend == "none"@ {
        Ok(AuditStore::Disabled)
    } else {
        Err(AuditError::UnknownBackend)
    }
}

/// The name of a store.
pub open spec fn store_name(store: AuditStore) -> Seq<char> {
    match store {
        AuditStore::Postgres => "postgres"@,
        AuditStore::Jsonl => "jsonl"@,
        AuditStore::Disabled => "disabled"@,
    }
}

impl AuditStore {
    /// The store that a setting selects, given whether a database is connected.
    pub fn from_setting(setting: Option<&str>, database: bool) -> (r: Result<
        AuditStore,
        AuditError,
    >)
        ensures
            r == store_for(text::opt_str_view(setting), database),
    {
        let value = settings::env_string(setting, "auto");
        let lowered = text::to_lower(value.as_str());
        let backend = lowered.as_str();
        if text::text_eq(backend, "auto") {
            if database {
                Ok(AuditStore::Postgres)
            } else {
                Ok(AuditStore::Jsonl)
            }
        } else if text::text_eq(backend, "jsonl") {
            Ok(AuditStore::Jsonl)
        } else if text::text_eq(backend, "postgres") || text::text_eq(backend, "postgresql") {
            if database {
                Ok(AuditStore::Postgres)
            } else {
                Err(AuditError::DatabaseRequired)
            }
        } else if text::text_eq(backend, "disabled") || text::text_eq(backend, "none") {
            Ok(AuditStore::Disabled)
        } else {
            Err(AuditError::UnknownBackend)
        }
    }

    /// The name of the store.
    pub fn backend_name(&self) -> (r: &'static str)
        ensures
            r@ == store_name(*self),
    {
        match self {
            AuditStore::Postgres => "postgres",
            AuditStore::Jsonl => "jsonl",
            AuditStore::Disabled => "disabled",
        }
    }
}

impl AuditError {
    /// What an operator is told.
    pub fn message(&self) -> (r: &'static str)
        ensures
            r@ == (match self {
                AuditError::DatabaseRequired =>
                    "AUDIT_STORAGE_BACKEND=postgres requires an available PostgreSQL connection"@,
                AuditError::UnknownBackend =>
                    "AUDIT_STORAGE_BACKEND must be one of: auto, postgres, jsonl, disabled"@,
            }),
    {
        match self {
            AuditError::DatabaseRequired =>
                "AUDIT_STORAGE_BACKEND=postgres requires an available PostgreSQL connection",
            AuditError::UnknownBackend =>
                "AUDIT_STORAGE_BACKEND must be one of: auto, postgres, jsonl, disabled",
        }
    }
}

/// How many events may be asked for at once, at least and at most.
pub const MIN_EVENTS: i64 = 1;

pub const MAX_EVENTS: i64 = 10_000;

/// The number of events that a limit stands for.
pub fn event_limit(limit: i64) -> (r: i64)
    ensures
        r == settings::clamped(limit as int, MIN_EVENTS as int, MAX_EVENTS as int),
{
    if limit < MIN_EVENTS {
        MIN_EVENTS
    } else if limit > MAX_EVENTS {
        MAX_EVENTS
    } else {
        limit
    }
}

/// The line without a carriage return at its end.
pub open spec fn without_return(line: Seq<char>) -> Seq<char> {
    if line.len() > 0 && line.last() == '\r' {
        line.drop_last()
    } else {
        line
    }
}

/// The lines between line ends. A carriage return in front of a line end belongs
/// to it; one at the very end of the last line does not.
pub open spec fn lines_of(contents: Seq<char>) -> Seq<Seq<char>> {
    let parts = text::pieces(contents, '\n');
    Seq::new(
        parts.len(),
        |i: int|
            if i < parts.len() - 1 {
                without_return(parts[i])
            } else {
                parts[i]
            },
    )
}

/// The lines that hold a record: neither empty nor white space only.
pub open spec fn record_lines(lines: Seq<Seq<char>>) -> Seq<Seq<char>>
    decreases lines.len(),
{
    if lines.len() == 0 {
        Seq::empty()
    } else {
        let before = record_lines(lines.drop_last());
        if text::is_blank(lines.last()) {
            before
        } else {
            before.push(lines.last())
        }
    }
}

/// The lines of a file that hold a record.
pub fn jsonl_records(contents: &str) -> (r: Vec<String>)
    ensures
        text::views(r@) == record_lines(lines_of(contents@)),
{
    let lines = text::split_on(contents, '\n');
    let ghost parts = text::views(lines@);
    let ghost views = lines_of(contents@);
    assert(parts.len() == lines@.len());
    let mut out: Vec<String> = Vec::new();
    let mut i: usize = 0;
    assert(text::views(out@) =~= record_lines(views.take(0)));
    while i < lines.len()
        invariant
            i <= lines@.len(),
            parts == text::views(lines@),
            parts == text::pieces(contents@, '\n'),
            parts.len() == lines@.len(),
            views == lines_of(contents@),
            text::views(out@) == record_lines(views.take(i as int)),
        decreases lines@.len() - i,
    {
        let ghost now = views.take(i + 1);
        let ghost done = text::views(out@);
        assert(now.drop_last() =~= views.take(i as int));
        assert(parts[i as int] == lines@[i as int]@);
        let chars = text::chars_of(lines[i].as_str());
        let line = if i < lines.len() - 1 && chars.len() > 0 && chars[chars.len() - 1] == '\r' {
            let shorter = text::string_between(chars.as_slice(), 0, chars.len() - 1);
            assert(shorter@ =~= lines@[i as int]@.drop_last());
            shorter
        } else {
            lines[i].clone()
        };
        assert(line@ == now.last());
        if !text::blank(line.as_str()) {
            let ghost new = line@;
            out.push(line);
            assert(text::views(out@) =~= done.push(new));
        }
        i += 1;
    }
    assert(views.take(i as int) =~= views);
    out
}

/// The places of the newest events, newest first, as many as the limit stands
/// for; events of the same moment stay in the order of the file.
pub fn newest_events(stamps: &Vec<i128>, limit: i64) -> (r: Vec<usize>)
    ensures
        exists|order: Seq<int>| #[trigger]
            order::is_arrangement(order, stamps@.len()) && order::newest_first(stamps@, order)
                && order::places(r@) == order.take(
                crate::detection::smaller(
                    stamps@.len() as int,
                    settings::clamped(limit as int, MIN_EVENTS as int, MAX_EVENTS as int),
                ),
            ),
{
    let mut ranked = order::rank_newest_first(stamps);
    let ghost order = order::places(ranked@);
    let most = event_limit(limit) as usize;
    let total: usize = stamps.len();
    assert(ranked@.len() == stamps@.len());
    if ranked.len() > most {
        ranked.truncate(most);
    }
    assert(order::places(ranked@) =~= order.take(
        crate::detection::smaller(
            stamps@.len() as int,
            settings::clamped(limit as int, MIN_EVENTS as int, MAX_EVENTS as int),
        ),
    ));
    assert(order::is_arrangement(order, stamps@.len()));
    ranked
}

/// No event that is left out is newer than one that is shown.
pub proof fn law_newest_are_shown(stamps: Seq<i128>, order: Seq<int>, n: int, shown: int, hidden: int)
    requires
        order::is_arrangement(order, stamps.len()),
        order::newest_first(stamps, order),
        0 <= shown < n <= hidden < order.len(),
    ensures
        stamps[order[shown]] >= stamps[order[hidden]],
{
    assert(order::newer(stamps, order[shown], order[hidden]));
}

/// A trailing line end adds no record, unless a carriage return in front of it
/// becomes a part of it.
pub proof fn law_trailing_newline_adds_nothing(contents: Seq<char>)
    requires
        contents.len() > 0 ==> contents.last() != '\r',
    ensures
        record_lines(lines_of(contents.push('\n'))) == record_lines(lines_of(contents)),
{
    let all = contents.push('\n');
    assert(all.drop_last() =~= contents);
    let parts = text::pieces(contents, '\n');
    let longer = text::pieces(all, '\n');
    assert(longer == parts.push(Seq::<char>::empty()));
    lemma_last_piece(contents);
    let lines = lines_of(all);
    assert(lines.drop_last() =~= lines_of(contents)) by {
        assert(without_return(parts.last()) == parts.last());
    }
    assert(lines.last() =~= Seq::<char>::empty());
    assert(text::trimmed(Seq::<char>::empty()).len() == 0);
}

/// There is a last piece, and it ends as the whole does, unless it is empty.
proof fn lemma_last_piece(contents: Seq<char>)
    ensures
        text::pieces(contents, '\n').len() > 0,
        text::pieces(contents, '\n').last().len() > 0 ==> contents.len() > 0
            && text::pieces(contents, '\n').last().last() == contents.last(),
{
    text_laws::lemma_pieces(contents, '\n');
    if contents.len() > 0 {
        text_laws::lemma_pieces(contents.drop_last(), '\n');
    }
}

/// A record that was appended as a line of its own is read back behind those
/// that were there.
pub proof fn law_appended_record_is_read_back(contents: Seq<char>, line: Seq<char>)
    requires
        contents.len() == 0 || contents.last() == '\n',
        !line.contains('\n'),
        !text::is_blank(line),
        line.last() != '\r',
    ensures
        record_lines(lines_of(contents + line.push('\n'))) == record_lines(
            lines_of(contents),
        ).push(line),
{
    let before = text::pieces(contents, '\n');
    let empty = Seq::<char>::empty();
    text_laws::lemma_pieces(contents, '\n');
    text_laws::lemma_pieces_append(contents, line, '\n');
    assert(before.last() =~= empty);
    assert(empty + line =~= line);
    assert(line.len() > 0) by {
        assert(text::trimmed(empty).len() == 0);
        if line.len() == 0 {
            assert(line =~= empty);
        }
    }
    assert(contents + line.push('\n') =~= (contents + line).push('\n'));
    assert((contents + line).last() == line.last());
    law_trailing_newline_adds_nothing(contents + line);
    assert(text::trimmed(empty).len() == 0);
    let old_lines = lines_of(contents);
    let new_lines = lines_of(contents + line);
    assert(text::pieces(contents + line, '\n') == before.drop_last().push(line));
    assert(old_lines.last() =~= empty);
    assert(new_lines.last() == line);
    assert(new_lines.drop_last() =~= old_lines.drop_last());
}

} // verus!
