use rsa::{PaddingScheme, PublicKey, RSAPublicKey};
use homebot::minecraft::codec::{
    after_poll, after_read, after_write, check_encryption_response, random_verify_token, KeyPair,
    PollStep, ReadOutcome,
};
use homebot::minecraft::codes::VerificationCodes;
use homebot::minecraft::model::AuthResponse;
use homebot::minecraft::{
    after_session, disconnect_reason, expect_encryption_response, expect_login_start,
    linked_message, redeem, server_hash, session_url, verification_code, LinkOutcome,
    SessionReply,
};

fn s(x: &str) -> String {
    x.to_string()
}

#[test]
fn server_hash_of_positive_digest() {
    let secret: [u8; 16] = core::array::from_fn(|i| i as u8);
    assert_eq!(server_hash(&secret, &vec![]), "56178b86a57fac22899a9964185c2cc96e7da589");
}

#[test]
fn server_hash_of_negative_digest() {
    let secret: [u8; 16] = core::array::from_fn(|i| i as u8);
    assert_eq!(server_hash(&secret, &b"key".to_vec()), "-7e1b79723a6c4b206b6dc17039b2747151e4a95e");
    assert_eq!(
        server_hash(&secret, &vec![0x30, 0x81, 0x9f]),
        "-627c710fc5045ccd7ed3e1d846a734d6eb4b277d"
    );
    assert_eq!(server_hash(&[0xff; 16], &vec![]), "52e0e9d4f46c97ca5bcb0708d18633698d60fa5f");
}

#[test]
fn session_url_is_built() {
    assert_eq!(
        session_url("Notch", "-7c9d"),
        "https://sessionserver.mojang.com/session/minecraft/hasJoined?username=Notch&serverId=-7c9d"
    );
}

#[test]
fn verification_code_strips_the_suffix() {
    assert_eq!(verification_code("Ab3dE6gH9j.homebot.freemyip.com"), "Ab3dE6gH9j");
    assert_eq!(verification_code("localhost"), "localhost");
    assert_eq!(verification_code(".homebot.freemyip.com.homebot.freemyip.com"), "");
}

#[test]
fn codes_issue_withdraws_earlier_codes() {
    let mut codes = VerificationCodes::new();
    codes.issue(s("AAAA"), 1, s("steve"));
    codes.issue(s("BBBB"), 2, s("alex"));
    codes.issue(s("CCCC"), 1, s("steve2"));
    assert_eq!(codes.len(), 2);
    assert_eq!(codes.take(&s("AAAA")), None);
    assert_eq!(codes.take(&s("CCCC")), Some((1, s("steve2"))));
    assert_eq!(codes.take(&s("BBBB")), Some((2, s("alex"))));
    assert_eq!(codes.len(), 0);
}

#[test]
fn codes_issue_replaces_a_taken_code() {
    let mut codes = VerificationCodes::new();
    codes.issue(s("SAME"), 1, s("steve"));
    codes.issue(s("SAME"), 2, s("alex"));
    assert_eq!(codes.len(), 1);
    assert_eq!(codes.take(&s("SAME")), Some((2, s("alex"))));
}

#[test]
fn redeem_links_a_matching_player() {
    let mut codes = VerificationCodes::new();
    codes.issue(s("Xy12"), 42, s("Notch"));
    let code = verification_code("Xy12.homebot.freemyip.com");
    let outcome = redeem(&mut codes, &code, &s("Notch"));
    assert!(matches!(outcome, LinkOutcome::Linked { user: 42 }));
    assert_eq!(outcome.result(), Ok(42));
    assert_eq!(outcome.disconnect_message(&code), "Successfully linked!");
    // the code is used up
    let again = redeem(&mut codes, &code, &s("Notch"));
    assert!(matches!(again, LinkOutcome::UnknownCode));
}

#[test]
fn redeem_refuses_another_player() {
    let mut codes = VerificationCodes::new();
    codes.issue(s("Xy12"), 42, s("Notch"));
    let outcome = redeem(&mut codes, &s("Xy12"), &s("jeb_"));
    match &outcome {
        LinkOutcome::UsernameMismatch { expected } => assert_eq!(expected, "Notch"),
        _ => panic!("expected a mismatch"),
    }
    assert_eq!(outcome.result(), Err("username mismatch"));
    assert_eq!(
        outcome.disconnect_message("Xy12"),
        "Username mismatch! This code was meant for the user Notch"
    );
    assert_eq!(codes.len(), 0);
}

#[test]
fn redeem_of_unknown_code() {
    let mut codes = VerificationCodes::new();
    let outcome = redeem(&mut codes, &s("nope"), &s("Notch"));
    assert!(matches!(outcome, LinkOutcome::UnknownCode));
    assert_eq!(outcome.result(), Err("verification code doesn't exist"));
    assert_eq!(
        outcome.disconnect_message("nope"),
        "Verification code nope doesn't exist or has been deleted (generating new codes will delete earlier ones)"
    );
}

#[test]
fn disconnect_reason_is_escaped_json() {
    assert_eq!(disconnect_reason("Successfully linked!"), r#"{"text":"Successfully linked!"}"#);
    assert_eq!(
        disconnect_reason("a\"b\\c\nd\u{1}é\u{7f}\t"),
        "{\"text\":\"a\\\"b\\\\c\\nd\\u0001é\u{7f}\\t\"}"
    );
}

#[test]
fn linked_message_text() {
    assert_eq!(
        linked_message(),
        "ye ur verified congrats (this doesn't actually do anything as of rn so feel free to do this again)"
    );
}

#[test]
fn handshake_decisions() {
    assert_eq!(expect_login_start(Some(s("Notch"))), Ok(s("Notch")));
    assert_eq!(expect_login_start(None), Err("expected login start packet"));
    assert_eq!(expect_encryption_response(Some((vec![1], vec![2]))), Ok((vec![1], vec![2])));
    assert_eq!(expect_encryption_response(None), Err("expected encryption response"));
    assert_eq!(
        after_session(SessionReply::RequestFailed).err(),
        Some("failed to send GET request to sessionserver.mojang.com")
    );
    assert_eq!(after_session(SessionReply::Unreadable).err(), Some("failed to deserialize auth response"));
    let player = after_session(SessionReply::Player(AuthResponse { id: 7, name: s("Notch") })).ok().unwrap();
    assert_eq!(player.id, 7);
    assert_eq!(player.name, "Notch");
}

#[test]
fn encryption_response_checks_in_order() {
    let token = [9u8; 16];
    assert_eq!(check_encryption_response(&token, None, None), Err("failed to decrypt shared secret"));
    assert_eq!(
        check_encryption_response(&token, Some(vec![1; 16]), None),
        Err("failed to decrypt verify token")
    );
    assert_eq!(
        check_encryption_response(&token, Some(vec![1; 16]), Some(vec![9; 15])),
        Err("verify tokens don't match")
    );
    assert_eq!(
        check_encryption_response(&token, Some(vec![1; 16]), Some(vec![8; 16])),
        Err("verify tokens don't match")
    );
    assert_eq!(
        check_encryption_response(&token, Some(vec![1; 15]), Some(vec![9; 16])),
        Err("shared secret not 16 bytes")
    );
    assert_eq!(check_encryption_response(&token, Some(vec![1; 16]), Some(vec![9; 16])), Ok([1u8; 16]));
}

#[test]
fn socket_decisions() {
    assert!(matches!(after_poll(Ok(Some(5u8))), PollStep::Packet(5)));
    assert!(matches!(after_poll::<u8>(Ok(None)), PollStep::NeedData));
    match after_poll::<u8>(Err(())) {
        PollStep::Failed(m) => assert_eq!(m, "failed to get next packet (codec error)"),
        _ => panic!("expected a failure"),
    }
    assert_eq!(after_read(ReadOutcome::TimedOut), Err("timeout reached before client sent any data"));
    assert_eq!(after_read(ReadOutcome::IoError), Err("io error while reading from socket"));
    assert_eq!(after_read(ReadOutcome::Read(0)), Err("read 0 bytes"));
    assert_eq!(after_read(ReadOutcome::Read(12)), Ok(12));
    assert_eq!(after_write(true), Ok(()));
    assert_eq!(after_write(false), Err("io error while writing to socket"));
}

#[test]
fn key_pair_round_trip() {
    let keys = KeyPair::new().expect("key");
    assert_eq!(keys.rsa_public_key[0], 0x30);
    // the modulus has its top bit set, so the DER holds it as a negative
    // integer; the decoder hands back its magnitude 2^1024 - n
    let (magnitude, e) = rsa_der::public_key_from_der(&keys.rsa_public_key).expect("der");
    let n = (rsa::BigUint::from_bytes_be(&[1]) << 1024usize) - rsa::BigUint::from_bytes_be(&magnitude);
    let public = RSAPublicKey::new(n, rsa::BigUint::from_bytes_be(&e)).unwrap();
    let token = random_verify_token();
    let request = keys.encryption_request(&token);
    assert_eq!(request.server_id, "");
    assert_eq!(request.public_key, keys.rsa_public_key);
    assert_eq!(request.verify_token, token.to_vec());
    let secret = [7u8; 16];
    let mut rng = rand_core::OsRng;
    let enc_secret = public.encrypt(&mut rng, PaddingScheme::PKCS1v15Encrypt, &secret).unwrap();
    let enc_token = public.encrypt(&mut rng, PaddingScheme::PKCS1v15Encrypt, &token).unwrap();
    assert_eq!(keys.enable_encryption(&token, &enc_secret, &enc_token), Ok(secret));
    assert_eq!(keys.enable_encryption(&token, &enc_token, &enc_token), Ok(token));
    assert_eq!(keys.enable_encryption(&token, &[1, 2, 3], &enc_token), Err("failed to decrypt shared secret"));
    assert_eq!(keys.enable_encryption(&token, &enc_secret, &[1, 2, 3]), Err("failed to decrypt verify token"));
    if secret != token {
        assert_eq!(keys.enable_encryption(&token, &enc_token, &enc_secret), Err("verify tokens don't match"));
    }
    assert_eq!(e, vec![1, 0, 1]);
}
