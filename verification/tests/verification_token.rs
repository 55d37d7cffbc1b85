use axum_gatekeeper::error::GateKeeperError;
use axum_gatekeeper::tokens::{Claims, Token, TokenError, VerificationToken};
use base64::Engine;

fn token_with_wire_string(encoded: &str) -> VerificationToken {
    let claims = Claims {
        exp: 10,
        iat: 5,
        sub: "someone".to_string(),
    };
    VerificationToken::new(encoded.to_string(), claims)
}

#[test]
fn link_form_is_padded_url_safe_base64() {
    assert_eq!(
        token_with_wire_string("hello?>").try_as_base64().unwrap(),
        "aGVsbG8_Pg=="
    );
    assert_eq!(
        token_with_wire_string("\u{fb}\u{ff}").try_as_base64().unwrap(),
        "w7vDvw=="
    );
    assert_eq!(token_with_wire_string("").try_as_base64().unwrap(), "");
}

#[test]
fn link_gives_the_wire_string_back() {
    for encoded in [
        "",
        "a",
        "ab",
        "abc",
        "header.payload.signature",
        "sch\u{f6}n \u{1f511} ~?>",
    ] {
        let link = token_with_wire_string(encoded).try_as_base64().unwrap();

        assert_eq!(
            VerificationToken::try_wire_from_base64(&link).unwrap(),
            encoded
        );
    }
}

#[test]
fn link_of_a_signed_token_gives_the_token_back() {
    let claims = Claims {
        exp: 10,
        iat: 5,
        sub: "someone".to_string(),
    };
    let encoded = VerificationToken::encode(&claims, "test".to_string()).unwrap();
    let token = VerificationToken::new(encoded.clone(), claims);
    let link = token.try_as_base64().unwrap();

    assert_eq!(
        link,
        base64::engine::general_purpose::URL_SAFE.encode(encoded.as_bytes())
    );
    assert_eq!(
        VerificationToken::try_wire_from_base64(&link).unwrap(),
        encoded
    );
    assert_eq!(
        VerificationToken::try_from_base64(&link, &"test".to_string()).unwrap(),
        token
    );
}

#[test]
fn link_must_be_base64() {
    for bad in ["%%%", "aGVsbG8_Pg", "aGVsbG8/Pg==", "a", "aGVsbG8_Pg==="] {
        assert!(matches!(
            VerificationToken::try_wire_from_base64(bad),
            Err(GateKeeperError::Token(TokenError::Base64Decode(_)))
        ));
        assert!(matches!(
            VerificationToken::try_from_base64(bad, &"test".to_string()),
            Err(GateKeeperError::Token(TokenError::Base64Decode(_)))
        ));
    }
}

#[test]
fn link_must_hold_utf8() {
    let link = base64::engine::general_purpose::URL_SAFE.encode([0xffu8, 0xfe, 0x41]);

    assert!(matches!(
        VerificationToken::try_wire_from_base64(&link),
        Err(GateKeeperError::Token(TokenError::Utf8(_)))
    ));
    assert!(matches!(
        VerificationToken::try_from_base64(&link, &"test".to_string()),
        Err(GateKeeperError::Token(TokenError::Utf8(_)))
    ));
}

#[test]
fn link_must_hold_a_token() {
    let link = token_with_wire_string("no token").try_as_base64().unwrap();

    assert!(matches!(
        VerificationToken::try_from_base64(&link, &"test".to_string()),
        Err(GateKeeperError::Token(TokenError::Decode(_, _)))
    ));
}

#[test]
fn decoder_answers_become_wire_strings_or_failures() {
    assert_eq!(
        VerificationToken::wire_from_bytes(Ok(vec![0x61, 0xc3, 0xa9])).unwrap(),
        "a\u{e9}"
    );
    assert!(matches!(
        VerificationToken::wire_from_bytes(Ok(vec![0x61, 0xc3])),
        Err(GateKeeperError::Token(TokenError::Utf8(_)))
    ));
    match VerificationToken::wire_from_bytes(Err("no base64".to_string())) {
        Err(GateKeeperError::Token(TokenError::Base64Decode(detail))) => {
            assert_eq!(detail, "no base64")
        }
        other => panic!("expected the failure to read base64, got {:?}", other),
    }
}

#[test]
fn failures_tell_what_the_crates_said() {
    let bad = "%%%";
    let said = base64::engine::general_purpose::URL_SAFE
        .decode(bad)
        .unwrap_err()
        .to_string();

    match VerificationToken::try_wire_from_base64(bad) {
        Err(GateKeeperError::Token(TokenError::Base64Decode(detail))) => {
            assert_eq!(detail, said)
        }
        other => panic!("expected the failure to read base64, got {:?}", other),
    }

    let bytes = vec![0x61, 0xff];
    let said = String::from_utf8(bytes.clone()).unwrap_err().to_string();

    match VerificationToken::wire_from_bytes(Ok(bytes)) {
        Err(GateKeeperError::Token(TokenError::Utf8(detail))) => assert_eq!(detail, said),
        other => panic!("expected the failure to read UTF-8, got {:?}", other),
    }
}
