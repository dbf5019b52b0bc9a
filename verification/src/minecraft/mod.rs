//! Minecraft account linking: a player joins a special server address that
//! carries a verification code, and the code tells which Discord user the
//! account belongs to.

pub mod codes;
pub mod codec;
pub mod model;

use crate::minecraft::codes::{without_user, VerificationCodes};
use crate::text::{hex_digit, replace_all, replaced, signed_lower_hex, twos_complement_be};
use num_bigint::BigInt;
use sha1::{Digest, Sha1};
use vstd::prelude::*;

verus! {

/// The SHA-1 digest of `data`.
pub uninterp spec fn sha1_of(data: Seq<u8>) -> Seq<u8>;

/// `Sha1::digest` of the sha1 crate: the 20-byte SHA-1 digest of `data`.
#[verifier::external_body]
fn sha1_digest(data: &[u8]) -> (r: [u8; 20])
    ensures
        r@ == sha1_of(data@),
{
    Sha1::digest(data).into()
}

/// `BigInt::from_signed_bytes_be` of num-bigint, printed with `{:x}`: the
/// big-endian two's complement number of `bytes` in lowercase hexadecimal,
/// with a `-` when negative.
#[verifier::external_body]
fn signed_be_hex(bytes: &[u8]) -> (r: String)
    ensures
        r@ == signed_lower_hex(twos_complement_be(bytes@)),
{
    format!("{:x}", BigInt::from_signed_bytes_be(bytes))
}

/// The server hash that the session server expects for a login: the SHA-1
/// digest of the (empty) server id, the shared secret and the server's
/// public key, read as a signed number and printed in hexadecimal.
pub open spec fn minecraft_server_hash(secret: Seq<u8>, public_key: Seq<u8>) -> Seq<char> {
    signed_lower_hex(twos_complement_be(sha1_of(secret + public_key)))
}

/// Computes the server hash of a login from the shared secret and the
/// server's public key.
pub fn server_hash(shared_secret: &[u8; 16], public_key: &Vec<u8>) -> (r: String)
    ensures
        r@ == minecraft_server_hash(shared_secret@, public_key@),
        r@ == signed_lower_hex(twos_complement_be(sha1_of(shared_secret@ + public_key@))),
{
    let mut data: Vec<u8> = Vec::new();
    let mut i: usize = 0;
    while i < 16
        invariant
            i <= 16,
            data@ == shared_secret@.take(i as int),
        decreases 16 - i,
    {
        data.push(shared_secret[i]);
        proof {
            assert(data@ =~= shared_secret@.take(i + 1));
        }
        i = i + 1;
    }
    let mut j: usize = 0;
    while j < public_key.len()
        invariant
            j <= public_key@.len(),
            data@ == shared_secret@ + public_key@.take(j as int),
        decreases public_key@.len() - j,
    {
        data.push(public_key[j]);
        proof {
            assert(data@ =~= shared_secret@ + public_key@.take(j + 1));
        }
        j = j + 1;
    }
    proof {
        assert(public_key@.take(public_key@.len() as int) =~= public_key@);
    }
    let digest = sha1_digest(data.as_slice());
    signed_be_hex(&digest)
}

/// The session server query that tells whether `username` joined with
/// `server_hash`.
pub open spec fn session_url_of(username: Seq<char>, server_hash: Seq<char>) -> Seq<char> {
    "https://sessionserver.mojang.com/session/minecraft/hasJoined?username="@ + username
        + "&serverId="@ + server_hash
}

/// Builds the session server query for a login.
pub fn session_url(username: &str, server_hash: &str) -> (r: String)
    ensures
        r@ == session_url_of(username@, server_hash@),
{
    let mut r = String::from_str("https://sessionserver.mojang.com/session/minecraft/hasJoined?username=");
    r.append(username);
    r.append("&serverId=");
    r.append(server_hash);
    r
}

/// The suffix of the server address that players join to link an account.
pub open spec fn address_suffix() -> Seq<char> {
    ".homebot.freemyip.com"@
}

/// The verification code carried by the server address a player joined:
/// the address with every occurrence of the suffix removed.
pub fn verification_code(server_address: &str) -> (r: String)
    ensures
        r@ == replaced(server_address@, address_suffix(), Seq::empty()),
{
    let suffix = ".homebot.freemyip.com";
    proof {
        reveal_strlit(".homebot.freemyip.com");
    }
    let empty = "";
    proof {
        reveal_strlit("");
        assert(empty@ =~= Seq::<char>::empty());
        assert(suffix@ == address_suffix());
    }
    replace_all(server_address, suffix, empty)
}

/// How redeeming a code ended.
pub enum LinkOutcome {
    /// The code was held for this Discord user and the player's name matched.
    Linked { user: u64 },
    /// The code was held for another Minecraft username.
    UsernameMismatch { expected: String },
    /// No such code is pending.
    UnknownCode,
}

/// Redeems `code` for the player named `player`: the code is withdrawn in
/// any case; it links when it was held for that player's name.
pub fn redeem(codes: &mut VerificationCodes, code: &String, player: &String) -> (r: LinkOutcome)
    requires
        old(codes).wf(),
    ensures
        final(codes).wf(),
        final(codes)@ == old(codes)@.remove(code@),
        match r {
            LinkOutcome::Linked { user } => old(codes)@.contains_key(code@) && old(codes)@[code@]
                == (user, player@),
            LinkOutcome::UsernameMismatch { expected } => old(codes)@.contains_key(code@)
                && old(codes)@[code@].1 == expected@ && expected@ != player@,
            LinkOutcome::UnknownCode => !old(codes)@.contains_key(code@),
        },
{
    match codes.take(code) {
        Some((user, username)) => {
            if username == *player {
                LinkOutcome::Linked { user }
            } else {
                LinkOutcome::UsernameMismatch { expected: username }
            }
        },
        None => LinkOutcome::UnknownCode,
    }
}

impl LinkOutcome {
    /// The text shown to the player when the server disconnects them.
    pub fn disconnect_message(&self, code: &str) -> (r: String)
        ensures
            r@ == match self {
                LinkOutcome::Linked { .. } => "Successfully linked!"@,
                LinkOutcome::UsernameMismatch { expected } =>
                    "Username mismatch! This code was meant for the user "@ + expected@,
                LinkOutcome::UnknownCode => "Verification code "@ + code@
                    + " doesn't exist or has been deleted (generating new codes will delete earlier ones)"@,
            },
    {
        match self {
            LinkOutcome::Linked { .. } => String::from_str("Successfully linked!"),
            LinkOutcome::UsernameMismatch { expected } => {
                let mut r = String::from_str("Username mismatch! This code was meant for the user ");
                r.append(expected.as_str());
                r
            },
            LinkOutcome::UnknownCode => {
                let mut r = String::from_str("Verification code ");
                r.append(code);
                r.append(
                    " doesn't exist or has been deleted (generating new codes will delete earlier ones)",
                );
                r
            },
        }
    }

    /// What handling the connection gives: the linked user, or the reason
    /// the link failed.
    pub fn result(&self) -> (r: Result<u64, &'static str>)
        ensures
            match self {
                LinkOutcome::Linked { user } => r == Ok::<u64, &'static str>(*user),
                LinkOutcome::UsernameMismatch { .. } => r is Err && r->Err_0@ == "username mismatch"@,
                LinkOutcome::UnknownCode => r is Err && r->Err_0@
                    == "verification code doesn't exist"@,
            },
    {
        match self {
            LinkOutcome::Linked { user } => Ok(*user),
            LinkOutcome::UsernameMismatch { .. } => {
                let m = "username mismatch";
                proof {
                    reveal_strlit("username mismatch");
                }
                Err(m)
            },
            LinkOutcome::UnknownCode => {
                let m = "verification code doesn't exist";
                proof {
                    reveal_strlit("verification code doesn't exist");
                }
                Err(m)
            },
        }
    }
}

/// A code without `.` comes back unchanged from the address that carries
/// it: removing the suffix from `code` followed by the suffix gives `code`.
pub proof fn lemma_address_roundtrip(code: Seq<char>)
    requires
        forall|i: int| 0 <= i < code.len() ==> #[trigger] code[i] != '.',
    ensures
        replaced(code + address_suffix(), address_suffix(), Seq::empty()) == code,
    decreases code.len(),
{
    let suf = address_suffix();
    reveal_strlit(".homebot.freemyip.com");
    let s = code + suf;
    if code.len() == 0 {
        assert(s =~= suf);
        assert(s.take(suf.len() as int) =~= suf);
        assert(s.skip(suf.len() as int) =~= Seq::<char>::empty());
        assert(replaced(Seq::<char>::empty(), suf, Seq::empty()) == Seq::<char>::empty());
        assert(replaced(s, suf, Seq::empty()) == Seq::<char>::empty() + replaced(
            s.skip(suf.len() as int),
            suf,
            Seq::empty(),
        ));
        assert(Seq::<char>::empty() + Seq::<char>::empty() =~= code);
    } else {
        assert(s.take(suf.len() as int)[0] == code[0]);
        assert(s.take(suf.len() as int) != suf);
        let rest = code.skip(1);
        assert(s.skip(1) =~= rest + suf);
        lemma_address_roundtrip(rest);
        assert(s.len() >= suf.len());
        assert(s[0] == code[0]);
        assert(replaced(s, suf, Seq::empty()) == seq![s[0]] + replaced(s.skip(1), suf, Seq::empty()));
        assert(seq![code[0]] + rest =~= code);
    }
}

/// `c` as serde_json writes it inside a JSON string: quote, backslash and
/// the control characters below 0x20 are escaped, the rest is kept.
pub open spec fn json_escape_char(c: char) -> Seq<char> {
    let v = c as u32;
    if c == '"' {
        seq!['\\', '"']
    } else if c == '\\' {
        seq!['\\', '\\']
    } else if v == 8 {
        seq!['\\', 'b']
    } else if v == 9 {
        seq!['\\', 't']
    } else if v == 10 {
        seq!['\\', 'n']
    } else if v == 12 {
        seq!['\\', 'f']
    } else if v == 13 {
        seq!['\\', 'r']
    } else if v < 0x20 {
        seq!['\\', 'u', '0', '0', hex_digit((v / 16) as nat), hex_digit((v % 16) as nat)]
    } else {
        seq![c]
    }
}

/// The characters `s` escaped for a JSON string.
pub open spec fn json_escaped(s: Seq<char>) -> Seq<char>
    decreases s.len(),
{
    if s.len() == 0 {
        s
    } else {
        json_escaped(s.drop_last()) + json_escape_char(s.last())
    }
}

/// The compact JSON text of the object with the one string field `key`
/// holding `value`.
pub open spec fn json_string_object(key: Seq<char>, value: Seq<char>) -> Seq<char> {
    "{\""@ + json_escaped(key) + "\":\""@ + json_escaped(value) + "\"}"@
}

/// The compact JSON text of the object `{"text": text}`.
pub open spec fn json_text_object(text: Seq<char>) -> Seq<char> {
    json_string_object("text"@, text)
}

/// `serde_json::to_string` of the JSON object with the one string field
/// `key` holding `value`: compact JSON, both strings escaped as serde_json
/// escapes them.
#[verifier::external_body]
fn json_object_of(key: &str, value: &str) -> (r: String)
    ensures
        r@ == json_string_object(key@, value@),
{
    let mut object = serde_json::Map::new();
    object.insert(key.to_string(), serde_json::Value::String(value.to_string()));
    serde_json::to_string(&serde_json::Value::Object(object)).unwrap()
}

/// The disconnect reason sent to the player: a chat component holding
/// `message` as its text.
pub fn disconnect_reason(message: &str) -> (r: String)
    ensures
        r@ == json_text_object(message@),
{
    let key = "text";
    proof {
        reveal_strlit("text");
        reveal_with_fuel(json_escaped, 5);
        assert(json_escaped(key@) =~= key@);
    }
    json_object_of(key, message)
}

/// The direct message sent to a Discord user whose account got linked.
pub fn linked_message() -> (r: &'static str)
    ensures
        r@ == "ye ur verified congrats (this doesn't actually do anything as of rn so feel free to do this again)"@,
{
    "ye ur verified congrats (this doesn't actually do anything as of rn so feel free to do this again)"
}

/// A code handed out to `user` for the Minecraft name `name` is found
/// again from the server address that carries it, for that user and name;
/// and it is the only code the user holds.
pub proof fn lemma_issued_code_links(
    m: Map<Seq<char>, (u64, Seq<char>)>,
    code: Seq<char>,
    user: u64,
    name: Seq<char>,
)
    requires
        forall|i: int| 0 <= i < code.len() ==> #[trigger] code[i] != '.',
    ensures
        replaced(code + address_suffix(), address_suffix(), Seq::empty()) == code,
        without_user(m, user).insert(code, (user, name)).contains_key(code),
        without_user(m, user).insert(code, (user, name))[code] == (user, name),
        forall|k: Seq<char>|
            #[trigger] without_user(m, user).insert(code, (user, name)).contains_key(k)
                && without_user(m, user).insert(code, (user, name))[k].0 == user ==> k == code,
{
    lemma_address_roundtrip(code);
}

/// Decides on the client's second packet: its name when it is the start of
/// a login, an error otherwise.
pub fn expect_login_start(login_name: Option<String>) -> (r: Result<String, &'static str>)
    ensures
        match login_name {
            Some(n) => r == Ok::<String, &'static str>(n),
            None => r is Err && r->Err_0@ == "expected login start packet"@,
        },
{
    match login_name {
        Some(n) => Ok(n),
        None => {
            let m = "expected login start packet";
            proof {
                reveal_strlit("expected login start packet");
            }
            Err(m)
        },
    }
}

/// Decides on the client's answer to the encryption request: its two
/// encrypted fields when it is an encryption response, an error otherwise.
pub fn expect_encryption_response(response: Option<(Vec<u8>, Vec<u8>)>) -> (r: Result<
    (Vec<u8>, Vec<u8>),
    &'static str,
>)
    ensures
        match response {
            Some(p) => r == Ok::<(Vec<u8>, Vec<u8>), &'static str>(p),
            None => r is Err && r->Err_0@ == "expected encryption response"@,
        },
{
    match response {
        Some(p) => Ok(p),
        None => {
            let m = "expected encryption response";
            proof {
                reveal_strlit("expected encryption response");
            }
            Err(m)
        },
    }
}

/// How asking the session server ended.
pub enum SessionReply {
    /// The request could not be sent.
    RequestFailed,
    /// The answer could not be read as an authentication response.
    Unreadable,
    /// The player as the session server knows them.
    Player(model::AuthResponse),
}

/// Decides on the session server's reply: the authenticated player, or why
/// the login fails.
pub fn after_session(reply: SessionReply) -> (r: Result<model::AuthResponse, &'static str>)
    ensures
        match reply {
            SessionReply::RequestFailed => r is Err && r->Err_0@
                == "failed to send GET request to sessionserver.mojang.com"@,
            SessionReply::Unreadable => r is Err && r->Err_0@
                == "failed to deserialize auth response"@,
            SessionReply::Player(p) => r == Ok::<model::AuthResponse, &'static str>(p),
        },
{
    match reply {
        SessionReply::RequestFailed => {
            let m = "failed to send GET request to sessionserver.mojang.com";
            proof {
                reveal_strlit("failed to send GET request to sessionserver.mojang.com");
            }
            Err(m)
        },
        SessionReply::Unreadable => {
            let m = "failed to deserialize auth response";
            proof {
                reveal_strlit("failed to deserialize auth response");
            }
            Err(m)
        },
        SessionReply::Player(p) => Ok(p),
    }
}

/// The server hash is the signed lowercase hexadecimal of the SHA-1 digest
/// of the shared secret followed by every byte of the public key, whatever
/// the key's length: the hashed data holds the secret, then the whole key,
/// so keys that differ anywhere (after byte 16 too) give different hashed
/// data.
pub proof fn lemma_server_hash_covers_key(secret: Seq<u8>, key: Seq<u8>, other_key: Seq<u8>)
    ensures
        minecraft_server_hash(secret, key) == signed_lower_hex(
            twos_complement_be(sha1_of(secret + key)),
        ),
        (secret + key).len() == secret.len() + key.len(),
        (secret + key).take(secret.len() as int) == secret,
        (secret + key).skip(secret.len() as int) == key,
        key != other_key ==> secret + key != secret + other_key,
        sha1_of(secret + key) == sha1_of(secret + other_key) ==> minecraft_server_hash(secret, key)
            == minecraft_server_hash(secret, other_key),
{
    assert((secret + key).take(secret.len() as int) =~= secret);
    assert((secret + key).skip(secret.len() as int) =~= key);
    if key != other_key {
        assert((secret + other_key).skip(secret.len() as int) =~= other_key);
    }
}

/// A redeemed code is used up: redeeming it again finds nothing.
pub proof fn lemma_code_used_once(m: Map<Seq<char>, (u64, Seq<char>)>, code: Seq<char>)
    ensures
        !m.remove(code).contains_key(code),
{
}

} // verus!
