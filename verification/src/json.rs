//! JSON documents as the library reads and builds them.
use vstd::prelude::*;
use crate::text;

verus! {

/// A JSON value. A number that is not an integer is kept as its text.
#[derive(Debug)]
pub enum Json {
    Null,
    Bool(bool),
    Unsigned(u64),
    Signed(i64),
    Decimal(String),
    Text(String),
    Array(Vec<Json>),
    Object(JsonObject),
}

/// The members of a JSON object; of two with one name the later one counts.
#[derive(Debug)]
pub struct JsonObject {
    pub entries: Vec<(String, Json)>,
}

/// What a JSON value says.
pub ghost enum JsonView {
    Null,
    Bool(bool),
    Int(int),
    Decimal(Seq<char>),
    Text(Seq<char>),
    Array(Seq<JsonView>),
    Object(Map<Seq<char>, JsonView>),
}

/// The meaning of a value.
pub open spec fn json_view(j: Json) -> JsonView
    decreases j, 0nat,
{
    match j {
        Json::Null => JsonView::Null,
        Json::Bool(b) => JsonView::Bool(b),
        Json::Unsigned(n) => JsonView::Int(n as int),
        Json::Signed(n) => JsonView::Int(n as int),
        Json::Decimal(s) => JsonView::Decimal(s@),
        Json::Text(s) => JsonView::Text(s@),
        Json::Array(items) => JsonView::Array(items_view(items@, items@.len())),
        Json::Object(members) => JsonView::Object(
            members_view(members.entries@, members.entries@.len()),
        ),
    }
}

/// The meanings of the first `n` items.
pub open spec fn items_view(items: Seq<Json>, n: nat) -> Seq<JsonView>
    decreases items, n,
{
    if n == 0 || n > items.len() {
        Seq::empty()
    } else {
        items_view(items, (n - 1) as nat).push(json_view(items[n - 1]))
    }
}

/// The meanings of the first `n` members.
pub open spec fn members_view(entries: Seq<(String, Json)>, n: nat) -> Map<Seq<char>, JsonView>
    decreases entries, n,
{
    if n == 0 || n > entries.len() {
        Map::empty()
    } else {
        members_view(entries, (n - 1) as nat).insert(
            entries[n - 1].0@,
            json_view(entries[n - 1].1),
        )
    }
}

impl View for Json {
    type V = JsonView;

    open spec fn view(&self) -> JsonView {
        json_view(*self)
    }
}

impl View for JsonObject {
    type V = Map<Seq<char>, JsonView>;

    open spec fn view(&self) -> Map<Seq<char>, JsonView> {
        members_view(self.entries@, self.entries@.len())
    }
}

/// The member of an object with this name; nothing for any other value.
pub open spec fn member(value: JsonView, name: Seq<char>) -> Option<JsonView> {
    match value {
        JsonView::Object(members) if members.dom().contains(name) => Some(members[name]),
        _ => None,
    }
}

/// The meaning of a document or of what came in its place.
pub open spec fn outcome_view(r: Result<Json, bool>) -> Result<JsonView, bool> {
    match r {
        Ok(value) => Ok(value@),
        Err(fault) => Err(fault),
    }
}

/// The text of a text value.
pub open spec fn text_of(value: Option<JsonView>) -> Option<Seq<char>> {
    match value {
        Some(JsonView::Text(s)) => Some(s),
        _ => None,
    }
}

/// The number of an integer value that fits 64 bits with sign.
pub open spec fn i64_of(value: Option<JsonView>) -> Option<int> {
    match value {
        Some(JsonView::Int(n)) if i64::MIN <= n <= i64::MAX => Some(n),
        _ => None,
    }
}

/// The document nests arrays and objects at most this deep.
pub open spec fn nests_within(value: JsonView, depth: nat) -> bool
    decreases depth,
{
    match value {
        JsonView::Array(items) => depth > 0 && forall|i: int|
            0 <= i < items.len() ==> nests_within(#[trigger] items[i], (depth - 1) as nat),
        JsonView::Object(members) => depth > 0 && forall|name: Seq<char>|
            members.dom().contains(name) ==> nests_within(
                #[trigger] members[name],
                (depth - 1) as nat,
            ),
        _ => true,
    }
}

/// An array nests deeper than each of its items.
pub proof fn lemma_deep_item(value: JsonView, i: int, depth: nat)
    requires
        value is Array,
        depth > 0,
        0 <= i < value->Array_0.len(),
        !nests_within(value->Array_0[i], (depth - 1) as nat),
    ensures
        !nests_within(value, depth),
{
}

/// An object nests deeper than each of its members.
pub proof fn lemma_deep_member(value: JsonView, name: Seq<char>, depth: nat)
    requires
        value is Object,
        depth > 0,
        value->Object_0.dom().contains(name),
        !nests_within(value->Object_0[name], (depth - 1) as nat),
    ensures
        !nests_within(value, depth),
{
}

/// The meanings of a prefix do not depend on what follows it.
pub proof fn lemma_items_prefix(a: Seq<Json>, b: Seq<Json>, n: nat)
    requires
        n <= a.len(),
        n <= b.len(),
        forall|i: int| 0 <= i < n ==> json_view(#[trigger] a[i]) == json_view(b[i]),
    ensures
        items_view(a, n) == items_view(b, n),
    decreases n,
{
    if n > 0 {
        lemma_items_prefix(a, b, (n - 1) as nat);
        assert(json_view(a[n - 1]) == json_view(b[n - 1]));
    }
}

/// The items of an array have the meanings of the items.
pub proof fn lemma_items_index(items: Seq<Json>, n: nat)
    requires
        n <= items.len(),
    ensures
        items_view(items, n).len() == n,
        forall|i: int| 0 <= i < n ==> #[trigger] items_view(items, n)[i] == json_view(items[i]),
    decreases n,
{
    if n > 0 {
        lemma_items_index(items, (n - 1) as nat);
        assert forall|i: int| 0 <= i < n implies #[trigger] items_view(items, n)[i] == json_view(
            items[i],
        ) by {
            if i < n - 1 {
                assert(items_view(items, n)[i] == items_view(items, (n - 1) as nat)[i]);
            }
        }
    }
}

/// The meanings of a prefix do not depend on what follows it.
pub proof fn lemma_members_prefix(a: Seq<(String, Json)>, b: Seq<(String, Json)>, n: nat)
    requires
        n <= a.len(),
        n <= b.len(),
        forall|i: int|
            0 <= i < n ==> (#[trigger] a[i]).0@ == b[i].0@ && json_view(a[i].1) == json_view(b[i].1),
    ensures
        members_view(a, n) == members_view(b, n),
    decreases n,
{
    if n > 0 {
        lemma_members_prefix(a, b, (n - 1) as nat);
        assert(a[n - 1].0@ == b[n - 1].0@);
    }
}

impl JsonObject {
    /// An object without members.
    pub fn new() -> (r: JsonObject)
        ensures
            r@ == Map::<Seq<char>, JsonView>::empty(),
    {
        JsonObject { entries: Vec::new() }
    }

    /// The member with this name.
    pub fn get(&self, name: &str) -> (r: Option<&Json>)
        ensures
            match r {
                Some(value) => self@.dom().contains(name@) && self@[name@] == value@,
                None => !self@.dom().contains(name@),
            },
    {
        let mut i: usize = self.entries.len();
        while i > 0
            invariant
                i <= self.entries@.len(),
                members_view(self.entries@, i as nat).dom().contains(name@)
                    == self@.dom().contains(name@),
                self@.dom().contains(name@) ==> members_view(self.entries@, i as nat)[name@]
                    == self@[name@],
            decreases i,
        {
            i -= 1;
            if text::text_eq(self.entries[i].0.as_str(), name) {
                return Some(&self.entries[i].1);
            }
        }
        None
    }

    /// Takes the member with this name out.
    pub fn remove(&mut self, name: &str)
        ensures
            final(self)@ == old(self)@.remove(name@),
    {
        let mut kept: Vec<(String, Json)> = Vec::new();
        let mut all: Vec<(String, Json)> = Vec::new();
        std::mem::swap(&mut all, &mut self.entries);
        let ghost entries = all@;
        for entry in it: all.into_iter()
            invariant
                it.seq() == entries,
                members_view(kept@, kept@.len()) == members_view(
                    entries,
                    it.index() as nat,
                ).remove(name@),
        {
            let ghost before = kept@;
            let ghost n = it.index() as nat;
            if !text::text_eq(entry.0.as_str(), name) {
                kept.push(entry);
                proof {
                    lemma_members_prefix(before, kept@, before.len());
                    assert(members_view(kept@, kept@.len()) =~= members_view(
                        entries,
                        n + 1,
                    ).remove(name@));
                }
            } else {
                assert(members_view(entries, n + 1).remove(name@) =~= members_view(
                    entries,
                    n,
                ).remove(name@));
            }
        }
        self.entries = kept;
    }

    /// Sets the member with this name.
    pub fn put(&mut self, name: &str, value: Json)
        ensures
            final(self)@ == old(self)@.insert(name@, value@),
    {
        self.remove(name);
        let ghost before = self.entries@;
        self.entries.push((name.to_string(), value));
        proof {
            lemma_members_prefix(before, self.entries@, before.len());
            assert(self@ =~= old(self)@.insert(name@, value@));
        }
    }
}

impl Json {
    /// The member of an object with this name; nothing for any other value.
    pub fn get(&self, name: &str) -> (r: Option<&Json>)
        ensures
            match r {
                Some(value) => member(self@, name@) == Some(value@),
                None => member(self@, name@) is None,
            },
    {
        match self {
            Json::Object(members) => members.get(name),
            _ => None,
        }
    }

    /// The text of a text value.
    pub fn as_text(&self) -> (r: Option<&str>)
        ensures
            text::opt_str_view(r) == text_of(Some(self@)),
    {
        match self {
            Json::Text(s) => Some(s.as_str()),
            _ => None,
        }
    }

    /// The text of the member with this name.
    pub fn get_text(&self, name: &str) -> (r: Option<&str>)
        ensures
            text::opt_str_view(r) == text_of(member(self@, name@)),
    {
        match self.get(name) {
            Some(value) => value.as_text(),
            None => None,
        }
    }

    /// The number of an integer value that fits 64 bits with sign.
    pub fn as_i64(&self) -> (r: Option<i64>)
        ensures
            match r {
                Some(n) => i64_of(Some(self@)) == Some(n as int),
                None => i64_of(Some(self@)) is None,
            },
    {
        match self {
            Json::Unsigned(n) => if *n <= 0x7fff_ffff_ffff_ffff {
                Some(*n as i64)
            } else {
                None
            },
            Json::Signed(n) => Some(*n),
            _ => None,
        }
    }

    /// The same value once more.
    pub fn copy(&self) -> (r: Json)
        ensures
            r@ == self@,
        decreases self,
    {
        match self {
            Json::Null => Json::Null,
            Json::Bool(b) => Json::Bool(*b),
            Json::Unsigned(n) => Json::Unsigned(*n),
            Json::Signed(n) => Json::Signed(*n),
            Json::Decimal(s) => Json::Decimal(s.clone()),
            Json::Text(s) => Json::Text(s.clone()),
            Json::Array(items) => {
                let mut out: Vec<Json> = Vec::new();
                let mut i: usize = 0;
                while i < items.len()
                    invariant
                        i <= items@.len(),
                        *self == Json::Array(*items),
                        out@.len() == i,
                        items_view(out@, i as nat) == items_view(items@, i as nat),
                    decreases items@.len() - i,
                {
                    let ghost before = out@;
                    assert(decreases_to!(self->Array_0 => self->Array_0@));
                    assert(decreases_to!(*self => self->Array_0@[i as int]));
                    out.push(items[i].copy());
                    proof {
                        lemma_items_prefix(before, out@, i as nat);
                    }
                    i += 1;
                }
                Json::Array(out)
            },
            Json::Object(members) => {
                let mut out: Vec<(String, Json)> = Vec::new();
                let mut i: usize = 0;
                while i < members.entries.len()
                    invariant
                        i <= members.entries@.len(),
                        *self == Json::Object(*members),
                        out@.len() == i,
                        members_view(out@, i as nat) == members_view(members.entries@, i as nat),
                    decreases members.entries@.len() - i,
                {
                    let ghost before = out@;
                    assert(decreases_to!(self->Object_0.entries => self->Object_0.entries@));
                    assert(decreases_to!(*self => self->Object_0.entries@[i as int].1));
                    out.push((members.entries[i].0.clone(), members.entries[i].1.copy()));
                    proof {
                        lemma_members_prefix(before, out@, i as nat);
                    }
                    i += 1;
                }
                Json::Object(JsonObject { entries: out })
            },
        }
    }
}

/// A text value.
pub fn text_value(s: &str) -> (r: Json)
    ensures
        r@ == JsonView::Text(s@),
{
    Json::Text(s.to_string())
}

/// The meaning of an optional text: the text, or null.
pub open spec fn text_or_null(value: Option<Seq<char>>) -> JsonView {
    match value {
        Some(s) => JsonView::Text(s),
        None => JsonView::Null,
    }
}

/// The text, or null.
pub fn optional_text(value: Option<&str>) -> (r: Json)
    ensures
        r@ == text_or_null(text::opt_str_view(value)),
{
    match value {
        Some(s) => text_value(s),
        None => Json::Null,
    }
}

/// The meaning of a list of texts.
pub open spec fn texts_view(list: Seq<Seq<char>>) -> JsonView {
    JsonView::Array(list.map_values(|s: Seq<char>| JsonView::Text(s)))
}

/// An array of texts.
pub fn text_array(list: &Vec<String>) -> (r: Json)
    ensures
        r@ == texts_view(text::views(list@)),
{
    let mut out: Vec<Json> = Vec::new();
    let mut i: usize = 0;
    while i < list.len()
        invariant
            i <= list@.len(),
            out@.len() == i,
            forall|j: int| 0 <= j < i ==> (#[trigger] out@[j])@ == JsonView::Text(list@[j]@),
        decreases list@.len() - i,
    {
        out.push(text_value(list[i].as_str()));
        i += 1;
    }
    proof {
        lemma_items_index(out@, out@.len());
        assert(items_view(out@, out@.len()) =~= text::views(list@).map_values(
            |s: Seq<char>| JsonView::Text(s),
        ));
    }
    Json::Array(out)
}

/// Whether one of the items is a text.
pub fn has_text(items: &Vec<Json>, wanted: &str) -> (r: bool)
    ensures
        r == items_view(items@, items@.len()).contains(JsonView::Text(wanted@)),
{
    let ghost views = items_view(items@, items@.len());
    proof {
        lemma_items_index(items@, items@.len());
    }
    let mut i: usize = 0;
    while i < items.len()
        invariant
            i <= items@.len(),
            views == items_view(items@, items@.len()),
            views.len() == items@.len(),
            forall|j: int| 0 <= j < items@.len() ==> #[trigger] views[j] == items@[j]@,
            forall|j: int| 0 <= j < i ==> #[trigger] views[j] != JsonView::Text(wanted@),
        decreases items@.len() - i,
    {
        assert(views[i as int] == items@[i as int]@);
        if let Some(s) = items[i].as_text() {
            if text::text_eq(s, wanted) {
                return true;
            }
        }
        i += 1;
    }
    false
}

/// An array of one item.
pub fn one_item(item: Json) -> (r: Json)
    ensures
        r@ == JsonView::Array(seq![item@]),
{
    let mut out: Vec<Json> = Vec::new();
    let ghost meaning = item@;
    out.push(item);
    proof {
        lemma_items_index(out@, 1);
        assert(items_view(out@, 1) =~= seq![meaning]);
    }
    Json::Array(out)
}

} // verus!
