//! `minecraft link`: hands out a verification code and the server address
//! that carries it.

use crate::embed::{Embed, EmbedField, SUCCESS_COLOUR};
use crate::minecraft::codes::{without_user, VerificationCodes};
use rand::distributions::Alphanumeric;
use rand::Rng;
use vstd::prelude::*;

verus! {

/// `c` is an ASCII letter or digit.
pub open spec fn ascii_alphanumeric(c: char) -> bool {
    ('0' <= c <= '9') || ('A' <= c <= 'Z') || ('a' <= c <= 'z')
}

/// `rng.sample(Alphanumeric)` of rand on the thread's generator: a random
/// byte that is an ASCII letter or digit.
#[verifier::external_body]
fn random_alphanumeric() -> (b: u8)
    ensures
        ascii_alphanumeric(b as char),
{
    rand::thread_rng().sample(Alphanumeric)
}

/// Length of a verification code.
pub const CODE_LENGTH: usize = 10;

/// The code made of the drawn bytes, each read as a character.
pub fn code_from_draws(draws: &Vec<u8>) -> (code: String)
    ensures
        code@ == draws@.map_values(|b: u8| b as char),
{
    let mut code = String::new();
    let mut i: usize = 0;
    while i < draws.len()
        invariant
            i <= draws@.len(),
            code@ == draws@.take(i as int).map_values(|b: u8| b as char),
        decreases draws@.len() - i,
    {
        code.push(draws[i] as char);
        proof {
            assert(code@ =~= draws@.take(i + 1).map_values(|b: u8| b as char));
        }
        i = i + 1;
    }
    proof {
        assert(draws@.take(draws@.len() as int) =~= draws@);
    }
    code
}

/// A fresh random code of ten ASCII letters and digits: ten bytes are
/// drawn, then read as characters.
pub fn new_code() -> (code: String)
    ensures
        code@.len() == CODE_LENGTH,
        forall|i: int| 0 <= i < code@.len() ==> ascii_alphanumeric(#[trigger] code@[i]),
{
    let mut draws: Vec<u8> = Vec::new();
    let mut i: usize = 0;
    while i < CODE_LENGTH
        invariant
            i <= CODE_LENGTH,
            draws@.len() == i,
            forall|j: int| 0 <= j < draws@.len() ==> ascii_alphanumeric(#[trigger] draws@[j] as char),
        decreases CODE_LENGTH - i,
    {
        draws.push(random_alphanumeric());
        i = i + 1;
    }
    let code = code_from_draws(&draws);
    proof {
        assert forall|j: int| 0 <= j < code@.len() implies ascii_alphanumeric(#[trigger] code@[j]) by {
            assert(code@[j] == draws@[j] as char);
        }
    }
    code
}

/// The text of the reply to `minecraft link`.
pub open spec fn link_text(code: Seq<char>) -> Seq<char> {
    "Join the server ``"@ + code + ".homebot.freemyip.com`` to continue"@
}

/// Hands `code` out to `user`, who will join as `username` (withdrawing the
/// user's earlier codes), and builds the reply that tells them where to join.
pub fn execute(codes: &mut VerificationCodes, user: u64, username: String, code: String) -> (e: Embed)
    requires
        old(codes).wf(),
    ensures
        final(codes).wf(),
        final(codes)@ == without_user(old(codes)@, user).insert(code@, (user, username@)),
        e.title is None,
        e.colour == SUCCESS_COLOUR,
        e.description matches Some(d) && d@ == link_text(code@),
        e.fields@.len() == 1,
        e.fields@[0].name@ == "Minecraft username"@,
        e.fields@[0].value@ == username@,
        e.fields@[0].inline,
{
    codes.issue(code.clone(), user, username.clone());
    let mut text = String::from_str("Join the server ``");
    text.append(code.as_str());
    text.append(".homebot.freemyip.com`` to continue");
    let mut fields: Vec<EmbedField> = Vec::new();
    fields.push(EmbedField { name: String::from_str("Minecraft username"), value: username, inline: true });
    Embed { title: None, colour: SUCCESS_COLOUR, description: Some(text), fields }
}

} // verus!
