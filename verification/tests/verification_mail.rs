use axum_gatekeeper::error::GateKeeperError;
use axum_gatekeeper::model::{GateKeeperModel, SubjectId};
use axum_gatekeeper::tokens::{Claims, Token, TokenError, VerificationToken};
use axum_gatekeeper::verification::{Mail, UserVerificationMail};

#[derive(Debug, Clone, Default)]
struct TestUser;

impl GateKeeperModel for TestUser {
    fn id(&self) -> SubjectId {
        SubjectId::from_u128(uuid::Uuid::new_v4().as_u128())
    }

    fn secret(&self) -> &'static str {
        "some-awesome-secret"
    }

    fn first_name(&self) -> &str {
        "Hugo"
    }

    fn last_name(&self) -> &str {
        "Boss"
    }

    fn email(&self) -> &str {
        "hugo.boss@gmail.com"
    }

    fn verification_token(&self) -> Option<VerificationToken> {
        let claims = Claims {
            exp: 1,
            iat: 1,
            sub: self.id().to_text(),
        };
        let token = VerificationToken::encode(&claims, self.secret().to_string()).unwrap();
        let token = VerificationToken::new(token, claims);

        Some(token)
    }
}

#[derive(Debug, Clone, Default)]
struct UserWithoutToken;

impl GateKeeperModel for UserWithoutToken {
    fn id(&self) -> SubjectId {
        SubjectId::from_u128(7)
    }

    fn secret(&self) -> &'static str {
        "secret"
    }

    fn first_name(&self) -> &str {
        "Nobody"
    }

    fn last_name(&self) -> &str {
        "Here"
    }

    fn email(&self) -> &str {
        "nobody@example.com"
    }

    fn verification_token(&self) -> Option<VerificationToken> {
        None
    }
}

#[test]
fn test_generate_body() {
    let link = "http://localhost:8000/verify/1234567890";
    let body_html = UserVerificationMail::generate_html_body(link).unwrap();
    let body_text = UserVerificationMail::generate_text_body(link).unwrap();

    assert!(body_html.contains(link));
    assert!(body_text.contains(link));
}

#[test]
fn html_body_is_written_out_in_full() {
    let body = UserVerificationMail::generate_html_body("L").unwrap();

    assert_eq!(
        body,
        "<p>Hi!</p>
        <p>Please click on the following link to verify your email address:</p>
        <p><a href=\"L\">L</a></p>
        <p>If you did not request this, please ignore this email.</p>"
    );
}

#[test]
fn text_body_is_written_out_in_full() {
    let body = UserVerificationMail::generate_text_body("L").unwrap();

    assert_eq!(
        body,
        "Hi!
            Please click on the following link to verify your email address:
            \"L\"

            If you did not request this, please ignore this email."
    );
}

#[test]
fn default_mail_has_sender_and_subject_only() {
    let mail = UserVerificationMail::default();

    assert_eq!(mail.email_from(), "ShaZone <no-reply@sha.zone>");
    assert_eq!(mail.email_subject(), "Verify your email address");
    assert_eq!(mail.email_to(), "");
    assert_eq!(mail.email_to_name(), "");
}

#[test]
fn mail_for_a_user_carries_the_token_behind_the_prefix() {
    let prefix = "http://localhost:8000/v1/auth/verify?token=";
    let mail = UserVerificationMail::try_from_user(TestUser, Some(prefix)).unwrap();

    assert_eq!(mail.email_from(), "ShaZone <no-reply@sha.zone>");
    assert_eq!(mail.email_to(), "hugo.boss@gmail.com");
    assert_eq!(mail.email_to_name(), "Hugo");
    assert_eq!(mail.email_subject(), "Verify your email address");

    let html = mail.email_html_body();
    let start = html.find(prefix).unwrap() + prefix.len();
    let hash: String = html[start..].chars().take_while(|c| *c != '"').collect();
    let token =
        VerificationToken::try_from_base64(&hash, &"some-awesome-secret".to_string()).unwrap();

    assert_eq!(token.get_claims().exp, 1);
    assert_eq!(hash, token.try_as_base64().unwrap());
    assert!(mail
        .email_text_body()
        .contains(&format!("\"{}{}\"", prefix, hash)));
}

fn token_with_wire_string(encoded: &str) -> VerificationToken {
    let claims = Claims {
        exp: 10,
        iat: 5,
        sub: "someone".to_string(),
    };
    VerificationToken::new(encoded.to_string(), claims)
}

#[test]
fn mail_is_written_from_the_answers() {
    let mail = UserVerificationMail::try_from_answers(
        Some("http://x/?token="),
        Some(token_with_wire_string("hello?>")),
        "to@example.com",
        "Name",
    )
    .unwrap();

    assert_eq!(mail.email_from(), "ShaZone <no-reply@sha.zone>");
    assert_eq!(mail.email_subject(), "Verify your email address");
    assert_eq!(mail.email_to(), "to@example.com");
    assert_eq!(mail.email_to_name(), "Name");
    assert_eq!(
        mail.email_html_body(),
        UserVerificationMail::generate_html_body("http://x/?token=aGVsbG8_Pg==").unwrap()
    );
    assert_eq!(
        mail.email_text_body(),
        UserVerificationMail::generate_text_body("http://x/?token=aGVsbG8_Pg==").unwrap()
    );
}

#[test]
fn answers_without_prefix_or_token_give_no_mail() {
    assert!(matches!(
        UserVerificationMail::try_from_answers(
            None,
            Some(token_with_wire_string("a.b.c")),
            "to@example.com",
            "Name"
        ),
        Err(GateKeeperError::EnvVar)
    ));
    assert!(matches!(
        UserVerificationMail::try_from_answers(None, None, "to@example.com", "Name"),
        Err(GateKeeperError::EnvVar)
    ));
    assert!(matches!(
        UserVerificationMail::try_from_answers(Some("http://x/"), None, "to@example.com", "Name"),
        Err(GateKeeperError::Token(TokenError::MissingTokenString))
    ));
}

/// A user who must not be asked anything.
struct SilentUser;

impl GateKeeperModel for SilentUser {
    fn id(&self) -> SubjectId {
        panic!("asked for the identifier")
    }

    fn secret(&self) -> &'static str {
        panic!("asked for the secret")
    }

    fn first_name(&self) -> &str {
        panic!("asked for the first name")
    }

    fn last_name(&self) -> &str {
        panic!("asked for the last name")
    }

    fn email(&self) -> &str {
        panic!("asked for the address")
    }

    fn verification_token(&self) -> Option<VerificationToken> {
        panic!("asked for the verification token")
    }
}

#[test]
fn user_is_not_asked_without_a_configured_prefix() {
    assert!(matches!(
        UserVerificationMail::try_from_user(SilentUser, None),
        Err(GateKeeperError::EnvVar)
    ));
}

#[test]
fn mail_needs_a_configured_prefix() {
    let refused = UserVerificationMail::try_from_user(TestUser, None);

    assert!(matches!(refused, Err(GateKeeperError::EnvVar)));
}

#[test]
fn mail_needs_a_verification_token() {
    let refused = UserVerificationMail::try_from_user(UserWithoutToken, Some("http://x/"));

    assert!(matches!(
        refused,
        Err(GateKeeperError::Token(TokenError::MissingTokenString))
    ));
}

#[test]
fn link_is_prefix_then_the_link_form_of_the_token() {
    let token = token_with_wire_string("hello?>");

    assert!(token.fits_in_link());
    assert_eq!(
        UserVerificationMail::link_for("http://x/?token=", &token),
        "http://x/?token=aGVsbG8_Pg=="
    );
}
