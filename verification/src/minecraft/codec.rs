//! Decisions of the Minecraft login connection: the server key, the
//! encryption handshake and the packet reading loop.

use rand_core::OsRng;
use rsa::{PaddingScheme, PublicKeyParts, RSAPrivateKey};
use vstd::prelude::*;

verus! {

#[verifier::external_type_specification]
#[verifier::external_body]
pub struct ExRsaPrivateKey(RSAPrivateKey);

/// `RSAPrivateKey::new` of rsa with the operating system's random source
/// and 1024 bits. The crate reports an error only for fewer than two primes
/// or fewer than 64 bits, so with two primes and 1024 bits a key always comes
/// back. The key is random: nothing is stated of it.
#[verifier::external_body]
fn generate_rsa_key() -> (r: Option<RSAPrivateKey>)
    ensures
        r is Some,
{
    RSAPrivateKey::new(&mut OsRng, 1024).ok()
}

/// The big-endian bytes of the modulus of `key`.
pub uninterp spec fn rsa_modulus(key: RSAPrivateKey) -> Seq<u8>;

/// The big-endian bytes of the public exponent of `key`.
pub uninterp spec fn rsa_exponent(key: RSAPrivateKey) -> Seq<u8>;

/// `n().to_bytes_be()` of an rsa key: the big-endian bytes of its modulus,
/// named `rsa_modulus` of the key.
#[verifier::external_body]
fn modulus_bytes(key: &RSAPrivateKey) -> (r: Vec<u8>)
    ensures
        r@ == rsa_modulus(*key),
{
    key.n().to_bytes_be()
}

/// `e().to_bytes_be()` of an rsa key: the big-endian bytes of its public
/// exponent, named `rsa_exponent` of the key.
#[verifier::external_body]
fn exponent_bytes(key: &RSAPrivateKey) -> (r: Vec<u8>)
    ensures
        r@ == rsa_exponent(*key),
{
    key.e().to_bytes_be()
}

/// The DER encoding of the RSA public key with modulus `n` and exponent `e`.
pub uninterp spec fn der_public_key(n: Seq<u8>, e: Seq<u8>) -> Seq<u8>;

/// `rsa_der::public_key_to_der`: the DER encoding of the public key with the
/// big-endian modulus `n` and exponent `e`.
#[verifier::external_body]
fn public_key_to_der(n: &[u8], e: &[u8]) -> (r: Vec<u8>)
    ensures
        r@ == der_public_key(n@, e@),
{
    rsa_der::public_key_to_der(n, e)
}

/// What PKCS#1 v1.5 decryption of `ciphertext` with `key` gives: the
/// plaintext, or `None` where decryption fails.
pub uninterp spec fn pkcs1v15_decrypted(key: RSAPrivateKey, ciphertext: Seq<u8>) -> Option<Seq<u8>>;

/// `RSAPrivateKey::decrypt` with PKCS#1 v1.5 padding (no blinding, so the
/// result depends on the key and the ciphertext alone); `None` where the
/// crate reports an error. The result is named `pkcs1v15_decrypted`.
#[verifier::external_body]
fn decrypt_pkcs1v15(key: &RSAPrivateKey, ciphertext: &[u8]) -> (r: Option<Vec<u8>>)
    ensures
        bytes_of(r) == pkcs1v15_decrypted(*key, ciphertext@),
{
    key.decrypt(PaddingScheme::PKCS1v15Encrypt, ciphertext).ok()
}

/// `rand::random` for 16 bytes: a random verify token.
#[verifier::external_body]
pub fn random_verify_token() -> (r: [u8; 16]) {
    rand::random()
}

/// The server's RSA key and the DER encoding of its public half.
pub struct KeyPair {
    key: RSAPrivateKey,
    pub rsa_public_key: Vec<u8>,
}

/// The encryption request the server sends to a logging-in client.
pub struct EncryptionRequest {
    pub server_id: String,
    pub public_key: Vec<u8>,
    pub verify_token: Vec<u8>,
}

/// The result of checking a client's encryption response: the error
/// reported first, in the order the checks run, or the shared secret.
pub open spec fn encryption_check(
    expected: Seq<u8>,
    secret: Option<Seq<u8>>,
    token: Option<Seq<u8>>,
) -> Result<Seq<u8>, Seq<char>> {
    match secret {
        None => Err("failed to decrypt shared secret"@),
        Some(s) => match token {
            None => Err("failed to decrypt verify token"@),
            Some(t) => if t != expected {
                Err("verify tokens don't match"@)
            } else if s.len() != 16 {
                Err("shared secret not 16 bytes"@)
            } else {
                Ok(s)
            },
        },
    }
}

/// The bytes held by `o`, if any.
pub open spec fn bytes_of(o: Option<Vec<u8>>) -> Option<Seq<u8>> {
    match o {
        Some(v) => Some(v@),
        None => None,
    }
}

/// `r` is the check result `spec`, the error given as its text.
pub open spec fn matches_check(r: Result<[u8; 16], &'static str>, spec: Result<Seq<u8>, Seq<char>>) -> bool {
    match (r, spec) {
        (Ok(a), Ok(b)) => a@ == b,
        (Err(a), Err(b)) => a@ == b,
        _ => false,
    }
}

/// Checks the decrypted parts of a client's encryption response against
/// the verify token that was sent; gives the 16-byte shared secret.
pub fn check_encryption_response(
    expected: &[u8; 16],
    secret: Option<Vec<u8>>,
    token: Option<Vec<u8>>,
) -> (r: Result<[u8; 16], &'static str>)
    ensures
        matches_check(
            r,
            encryption_check(expected@, bytes_of(secret), bytes_of(token)),
        ),
{
    let secret = match secret {
        Some(s) => s,
        None => {
            let m = "failed to decrypt shared secret";
            proof {
                reveal_strlit("failed to decrypt shared secret");
            }
            return Err(m);
        },
    };
    let token = match token {
        Some(t) => t,
        None => {
            let m = "failed to decrypt verify token";
            proof {
                reveal_strlit("failed to decrypt verify token");
            }
            return Err(m);
        },
    };
    let mut same = token.len() == 16;
    let mut i: usize = 0;
    while i < 16 && same
        invariant
            i <= 16,
            same ==> token@.len() == 16,
            same ==> forall|j: int| 0 <= j < i ==> token@[j] == expected@[j],
            !same ==> token@ != expected@,
        decreases 16 - i,
    {
        if token[i] != expected[i] {
            same = false;
        }
        i = i + 1;
    }
    if !same {
        let m = "verify tokens don't match";
        proof {
            reveal_strlit("verify tokens don't match");
        }
        return Err(m);
    }
    proof {
        assert(token@ =~= expected@);
    }
    if secret.len() != 16 {
        let m = "shared secret not 16 bytes";
        proof {
            reveal_strlit("shared secret not 16 bytes");
        }
        return Err(m);
    }
    let mut ss = [0u8; 16];
    let mut k: usize = 0;
    while k < 16
        invariant
            k <= 16,
            secret@.len() == 16,
            forall|j: int| 0 <= j < k ==> ss@[j] == secret@[j],
        decreases 16 - k,
    {
        ss[k] = secret[k];
        k = k + 1;
    }
    proof {
        assert(ss@ =~= secret@);
    }
    Ok(ss)
}

impl KeyPair {
    /// The DER encoding of the public key.
    pub closed spec fn public_der(&self) -> Seq<u8> {
        self.rsa_public_key@
    }

    /// The private key that is kept.
    pub closed spec fn private_key(&self) -> RSAPrivateKey {
        self.key
    }

    /// A fresh random 1024-bit key and the DER encoding of its public half;
    /// making the key always succeeds.
    pub fn new() -> (r: Option<KeyPair>)
        ensures
            r is Some,
            r matches Some(k) ==> k.public_der() == der_public_key(
                rsa_modulus(k.private_key()),
                rsa_exponent(k.private_key()),
            ),
    {
        match generate_rsa_key() {
            Some(key) => {
                let n = modulus_bytes(&key);
                let e = exponent_bytes(&key);
                let rsa_public_key = public_key_to_der(n.as_slice(), e.as_slice());
                Some(KeyPair { key, rsa_public_key })
            },
            None => None,
        }
    }

    /// The request that starts encryption: an empty server id, the public
    /// key and the verify token.
    pub fn encryption_request(&self, verify_token: &[u8; 16]) -> (r: EncryptionRequest)
        ensures
            r.server_id@ == Seq::<char>::empty(),
            r.public_key@ == self.public_der(),
            r.verify_token@ == verify_token@,
    {
        let mut token: Vec<u8> = Vec::new();
        let mut i: usize = 0;
        while i < 16
            invariant
                i <= 16,
                token@ == verify_token@.take(i as int),
            decreases 16 - i,
        {
            token.push(verify_token[i]);
            proof {
                assert(token@ =~= verify_token@.take(i + 1));
            }
            i = i + 1;
        }
        proof {
            assert(verify_token@.take(16) =~= verify_token@);
        }
        EncryptionRequest {
            server_id: String::new(),
            public_key: self.rsa_public_key.clone(),
            verify_token: token,
        }
    }

    /// Decrypts the client's encrypted shared secret and verify token with
    /// the server key and checks them against the verify token that was sent.
    pub fn enable_encryption(
        &self,
        verify_token: &[u8; 16],
        shared_secret: &[u8],
        received_token: &[u8],
    ) -> (r: Result<[u8; 16], &'static str>)
        ensures
            matches_check(
                r,
                encryption_check(
                    verify_token@,
                    pkcs1v15_decrypted(self.private_key(), shared_secret@),
                    pkcs1v15_decrypted(self.private_key(), received_token@),
                ),
            ),
    {
        let secret = decrypt_pkcs1v15(&self.key, shared_secret);
        let token = decrypt_pkcs1v15(&self.key, received_token);
        check_encryption_response(verify_token, secret, token)
    }
}

/// What a look at the codec's buffer gives while waiting for a packet.
pub enum PollStep<P> {
    /// A whole packet was decoded.
    Packet(P),
    /// More bytes are needed from the socket.
    NeedData,
    /// The codec failed.
    Failed(&'static str),
}

/// Decides on the codec's answer: a packet ends the wait, no packet asks
/// for more data, an error ends the connection.
pub fn after_poll<P>(polled: Result<Option<P>, ()>) -> (r: PollStep<P>)
    ensures
        match polled {
            Ok(Some(p)) => r == PollStep::Packet(p),
            Ok(None) => r == PollStep::<P>::NeedData,
            Err(_) => r is Failed && r->Failed_0@ == "failed to get next packet (codec error)"@,
        },
{
    match polled {
        Ok(Some(p)) => PollStep::Packet(p),
        Ok(None) => PollStep::NeedData,
        Err(_) => {
            let m = "failed to get next packet (codec error)";
            proof {
                reveal_strlit("failed to get next packet (codec error)");
            }
            PollStep::Failed(m)
        },
    }
}

/// How one read from the socket ended.
pub enum ReadOutcome {
    /// Ten seconds passed without data.
    TimedOut,
    /// The socket reported an error.
    IoError,
    /// This many bytes arrived.
    Read(usize),
}

/// Decides on a socket read: the number of bytes to hand to the codec, or
/// why the connection ends.
pub fn after_read(outcome: ReadOutcome) -> (r: Result<usize, &'static str>)
    ensures
        match outcome {
            ReadOutcome::TimedOut => r is Err && r->Err_0@
                == "timeout reached before client sent any data"@,
            ReadOutcome::IoError => r is Err && r->Err_0@ == "io error while reading from socket"@,
            ReadOutcome::Read(n) => if n == 0 {
                r is Err && r->Err_0@ == "read 0 bytes"@
            } else {
                r == Ok::<usize, &'static str>(n)
            },
        },
{
    match outcome {
        ReadOutcome::TimedOut => {
            let m = "timeout reached before client sent any data";
            proof {
                reveal_strlit("timeout reached before client sent any data");
            }
            Err(m)
        },
        ReadOutcome::IoError => {
            let m = "io error while reading from socket";
            proof {
                reveal_strlit("io error while reading from socket");
            }
            Err(m)
        },
        ReadOutcome::Read(n) => {
            if n == 0 {
                let m = "read 0 bytes";
                proof {
                    reveal_strlit("read 0 bytes");
                }
                Err(m)
            } else {
                Ok(n)
            }
        },
    }
}

/// Decides on a socket write: success, or the error that ends the connection.
pub fn after_write(written: bool) -> (r: Result<(), &'static str>)
    ensures
        written ==> r is Ok,
        !written ==> r is Err && r->Err_0@ == "io error while writing to socket"@,
{
    if written {
        Ok(())
    } else {
        let m = "io error while writing to socket";
        proof {
            reveal_strlit("io error while writing to socket");
        }
        Err(m)
    }
}

} // verus!
