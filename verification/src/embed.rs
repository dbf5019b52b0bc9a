//! The replies the bot shows: a coloured box with an optional title, an
//! optional description and named fields.

use vstd::prelude::*;

verus! {

/// Colour of error replies.
pub const ERROR_COLOUR: u32 = 10038562;

/// Colour of success replies.
pub const SUCCESS_COLOUR: u32 = 16748258;

/// Colour of the command list.
pub const HELP_COLOUR: u32 = 16178136;

/// One named field of a reply.
pub struct EmbedField {
    pub name: String,
    pub value: String,
    pub inline: bool,
}

/// A reply box.
pub struct Embed {
    pub title: Option<String>,
    pub colour: u32,
    pub description: Option<String>,
    pub fields: Vec<EmbedField>,
}

/// `e` is a plain box of colour `colour` that says `text`.
pub open spec fn says(e: Embed, colour: u32, text: Seq<char>) -> bool {
    &&& e.title is None
    &&& e.colour == colour
    &&& e.description matches Some(d) && d@ == text
    &&& e.fields@.len() == 0
}

/// `e` is an error box that says `text`.
pub open spec fn is_error(e: Embed, text: Seq<char>) -> bool {
    says(e, ERROR_COLOUR, text)
}

/// `e` is a success box that says `text`.
pub open spec fn is_success(e: Embed, text: Seq<char>) -> bool {
    says(e, SUCCESS_COLOUR, text)
}

/// A plain box of colour `colour` that says `text`.
pub fn plain(colour: u32, text: String) -> (e: Embed)
    ensures
        says(e, colour, text@),
{
    Embed { title: None, colour, description: Some(text), fields: Vec::new() }
}

/// An error box that says `text`.
pub fn error(text: String) -> (e: Embed)
    ensures
        is_error(e, text@),
{
    plain(ERROR_COLOUR, text)
}

/// An error box that says `text`.
pub fn error_str(text: &str) -> (e: Embed)
    ensures
        is_error(e, text@),
{
    plain(ERROR_COLOUR, String::from_str(text))
}

/// A success box that says `text`.
pub fn success_str(text: &str) -> (e: Embed)
    ensures
        is_success(e, text@),
{
    plain(SUCCESS_COLOUR, String::from_str(text))
}

/// An error box that says `prefix` followed by `detail`.
pub fn error_with(prefix: &str, detail: &str) -> (e: Embed)
    ensures
        is_error(e, prefix@ + detail@),
{
    let mut text = String::from_str(prefix);
    text.append(detail);
    plain(ERROR_COLOUR, text)
}

} // verus!
