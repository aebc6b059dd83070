//! What a refusal is owed: a status, and a document that says what went wrong.
use vstd::prelude::*;
use crate::json::{Json, JsonView};
use crate::json;
use crate::reply::{Reply, ReplyView};
use crate::reply;
use crate::text;

verus! {

/// The document has this text under this name.
pub open spec fn says(document: JsonView, name: Seq<char>, value: Seq<char>) -> bool {
    json::member(document, name) == Some(JsonView::Text(value))
}

/// The answer is a refusal with this status and this message.
pub open spec fn refuses(answer: ReplyView, status: int, message: Seq<char>) -> bool {
    &&& answer.status == status
    &&& says(answer.body, "status"@, "error"@)
    &&& says(answer.body, "message"@, message)
}

/// What tells these names apart.
proof fn lemma_refusal_names_differ()
    ensures
        "status"@.len() == 6,
        "message"@.len() == 7,
{
    reveal_strlit("status");
    reveal_strlit("message");
}

/// A refusal carries its status and its message.
pub proof fn lemma_refusal(status: u16, message: Seq<char>)
    ensures
        refuses(reply::refusal(status, message), status as int, message),
{
    lemma_refusal_names_differ();
}

/// A refusal carries its status and its message, in an answer that is an error.
pub proof fn law_refusals_say_why(status: u16, message: &str, answer: Reply)
    requires
        call_ensures(reply::refuse, (status, message), answer),
    ensures
        refuses(answer@, status as int, message@),
{
    lemma_refusal(status, message@);
}

/// Whoever is not authorized is answered 401, and nobody else is.
pub proof fn law_strangers_are_answered_401(authorized: bool, answer: Result<(), Reply>)
    requires
        call_ensures(reply::require_authorized, (authorized,), answer),
    ensures
        answer is Ok <==> authorized,
        answer matches Err(refusal) ==> refuses(refusal@, 401, "Unauthorized"@),
{
    lemma_refusal(401, "Unauthorized"@);
}

/// An error document says that it is one.
pub proof fn law_error_documents_say_why(message: &str, document: Json)
    requires
        call_ensures(reply::error_document, (message,), document),
    ensures
        says(document@, "status"@, "error"@),
        says(document@, "message"@, message@),
{
    lemma_refusal_names_differ();
}

/// Texts are told as a list of texts, in order.
pub proof fn law_texts_are_told_as_a_list(list: Vec<String>, i: int, told: Json)
    requires
        call_ensures(json::text_array, (&list,), told),
        0 <= i < list@.len(),
    ensures
        told@ matches JsonView::Array(items) && items.len() == list@.len() && items[i]
            == JsonView::Text(list@[i]@),
{
    assert(text::views(list@).len() == list@.len());
    assert(text::views(list@)[i] == list@[i]@);
}

/// A text that is not known is null.
pub proof fn law_unknown_texts_are_null(value: Option<&str>, told: Json)
    requires
        call_ensures(json::optional_text, (value,), told),
    ensures
        value matches Some(word) ==> told@ == JsonView::Text(word@),
        value is None ==> told@ == JsonView::Null,
{
}

} // verus!
