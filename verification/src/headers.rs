//! Request headers as the rules read them: names, and values where they are text.
use vstd::prelude::*;
use crate::text;

verus! {

/// The headers of a request in the order received; a value that is not visible
/// text has none.
#[derive(Debug)]
pub struct Headers {
    pub entries: Vec<(String, Option<String>)>,
}

/// The names and the texts of headers.
pub open spec fn entries_view(entries: Seq<(String, Option<String>)>) -> Seq<
    (Seq<char>, Option<Seq<char>>),
> {
    entries.map_values(
        |entry: (String, Option<String>)| (entry.0@, text::opt_view(entry.1)),
    )
}

impl View for Headers {
    type V = Seq<(Seq<char>, Option<Seq<char>>)>;

    open spec fn view(&self) -> Seq<(Seq<char>, Option<Seq<char>>)> {
        entries_view(self.entries@)
    }
}

/// The text of the first header with this name, whatever the case of its letters.
pub open spec fn header_text(
    headers: Seq<(Seq<char>, Option<Seq<char>>)>,
    name: Seq<char>,
) -> Option<Seq<char>>
    decreases headers.len(),
{
    if headers.len() == 0 {
        None
    } else if text::same_ignoring_case(headers[0].0, name) {
        headers[0].1
    } else {
        header_text(headers.drop_first(), name)
    }
}

impl Headers {
    /// No headers.
    pub fn new() -> (r: Headers)
        ensures
            r@ == Seq::<(Seq<char>, Option<Seq<char>>)>::empty(),
    {
        let r = Headers { entries: Vec::new() };
        assert(r@ =~= Seq::<(Seq<char>, Option<Seq<char>>)>::empty());
        r
    }

    /// Adds a header behind the others.
    pub fn push(&mut self, name: &str, value: Option<&str>)
        ensures
            final(self)@ == old(self)@.push((name@, text::opt_str_view(value))),
    {
        let owned = match value {
            Some(s) => Some(s.to_string()),
            None => None,
        };
        self.entries.push((name.to_string(), owned));
        assert(self@ =~= old(self)@.push((name@, text::opt_str_view(value))));
    }

    /// The text of the first header with this name.
    pub fn get(&self, name: &str) -> (r: Option<&str>)
        ensures
            text::opt_str_view(r) == header_text(self@, name@),
    {
        let mut i: usize = 0;
        assert(self@.subrange(0, self@.len() as int) =~= self@);
        while i < self.entries.len()
            invariant
                i <= self.entries@.len(),
                self@.len() == self.entries@.len(),
                header_text(self@, name@) == header_text(
                    self@.subrange(i as int, self@.len() as int),
                    name@,
                ),
            decreases self.entries@.len() - i,
        {
            let ghost rest = self@.subrange(i as int, self@.len() as int);
            proof {
                assert(rest[0] == self@[i as int]);
                assert(self@[i as int] == (
                    self.entries@[i as int].0@,
                    text::opt_view(self.entries@[i as int].1),
                ));
                assert(rest.drop_first() =~= self@.subrange(i + 1, self@.len() as int));
            }
            if text::eq_ignoring_case(self.entries[i].0.as_str(), name) {
                return match &self.entries[i].1 {
                    Some(value) => Some(value.as_str()),
                    None => None,
                };
            }
            i += 1;
        }
        None
    }
}

} // verus!
