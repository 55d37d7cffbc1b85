use axum_gatekeeper::error::GateKeeperError;
use axum_gatekeeper::model::{GateKeeperModel, SubjectId};
use axum_gatekeeper::tokens::{
    AuthenticationToken, Claims, Header, RefreshToken, Token, TokenError, TokenService,
    VerificationToken,
};
use std::collections::HashMap;

#[derive(Debug, Clone, PartialEq, Eq)]
struct User {
    id: uuid::Uuid,
    secret: &'static str,
}

impl GateKeeperModel for User {
    fn id(&self) -> SubjectId {
        SubjectId::from_u128(self.id.as_u128())
    }

    fn secret(&self) -> &'static str {
        self.secret
    }

    fn first_name(&self) -> &str {
        "Grace"
    }

    fn last_name(&self) -> &str {
        "Hopper"
    }

    fn email(&self) -> &str {
        "grace@example.com"
    }

    fn verification_token(&self) -> Option<VerificationToken> {
        None
    }
}

/// A directory that holds its users in memory.
struct Directory {
    users: HashMap<u128, User>,
}

impl Directory {
    fn with(users: Vec<User>) -> Self {
        Self {
            users: users
                .into_iter()
                .map(|user| (user.id.as_u128(), user))
                .collect(),
        }
    }

    fn resolve(&self, id: SubjectId) -> Option<&User> {
        self.users.get(&id.as_u128())
    }
}

#[test]
fn test_try_get_user_for_encoded() {
    let user = User {
        id: uuid::Uuid::new_v4(),
        secret: "first secret",
    };
    let directory = Directory::with(vec![
        user.clone(),
        User {
            id: uuid::Uuid::new_v4(),
            secret: "second secret",
        },
    ]);
    let token = AuthenticationToken::try_new_for_user(&user, Some("3600")).unwrap();
    let subject =
        TokenService::try_get_subject_for_encoded(token.get_encoded().to_string()).unwrap();
    let svc_user = directory.resolve(subject).unwrap();

    assert_eq!(user.id, svc_user.id);
}

#[test]
fn test_get_token_headers_from_encoded() {
    let uuid = uuid::Uuid::new_v4();
    let now = chrono::Utc::now().timestamp() as usize;
    let claims = Claims {
        exp: now + 1000,
        iat: now,
        sub: uuid.to_string(),
    };
    let secret = "test";
    let encoded = RefreshToken::encode(&claims, secret.to_string()).unwrap();
    let headers = TokenService::get_token_headers_from_encoded(encoded).unwrap();

    assert_eq!(uuid.to_string(), headers.kid.unwrap());
}

#[test]
fn malformed_header_is_reported_as_such() {
    for bad in ["", "a.b.c", "only.two", "!!!.e30.sig", "e30.e30.e30"] {
        match TokenService::get_token_headers_from_encoded(bad.to_string()) {
            Err(GateKeeperError::Token(TokenError::DecodeHeader(response, detail))) => {
                assert!(!detail.is_empty());
                assert_eq!(response.status_code(), 401);
                assert_eq!(response.message(), "Error decoding token headers");
            }
            other => panic!("expected the failure to read the header, got {:?}", other),
        }
        assert!(matches!(
            TokenService::try_get_subject_for_encoded(bad.to_string()),
            Err(GateKeeperError::Token(TokenError::DecodeHeader(_, _)))
        ));
    }
}

#[test]
fn key_identifier_must_be_a_subject_identifier() {
    let claims = Claims {
        exp: 10,
        iat: 5,
        sub: "not an identifier".to_string(),
    };
    let encoded = RefreshToken::encode(&claims, "test".to_string()).unwrap();

    assert!(matches!(
        TokenService::try_get_subject_for_encoded(encoded),
        Err(GateKeeperError::ParseUuid(_))
    ));
}

#[test]
fn header_without_key_identifier_names_no_subject() {
    let header = jsonwebtoken::Header::new(jsonwebtoken::Algorithm::HS512);
    let key = jsonwebtoken::EncodingKey::from_secret(b"test");
    let encoded = jsonwebtoken::encode(&header, &serde_json::Map::new(), &key).unwrap();

    assert_eq!(
        TokenService::get_token_headers_from_encoded(encoded.clone())
            .unwrap()
            .kid,
        None
    );
    assert!(matches!(
        TokenService::try_get_subject_for_encoded(encoded),
        Err(GateKeeperError::ParseUuid(_))
    ));
    assert!(matches!(
        TokenService::try_get_subject_for_header(&Header { kid: None }),
        Err(GateKeeperError::ParseUuid(_))
    ));
}

#[test]
fn subject_is_read_from_the_key_identifier() {
    let header = Header {
        kid: Some("a1a2a3a4-b1b2-c1c2-d1d2-d3d4d5d6d7d8".to_string()),
    };

    assert_eq!(
        TokenService::try_get_subject_for_header(&header).unwrap(),
        SubjectId::from_u128(0xa1a2a3a4_b1b2_c1c2_d1d2_d3d4d5d6d7d8)
    );
}

#[test]
fn verification_link_leads_back_to_its_owner() {
    let user = User {
        id: uuid::Uuid::new_v4(),
        secret: "the owner's secret",
    };
    let stranger = User {
        id: uuid::Uuid::new_v4(),
        secret: "a stranger's secret",
    };
    let directory = Directory::with(vec![stranger.clone(), user.clone()]);
    let token = VerificationToken::try_new_for_user(&user, Some("6000")).unwrap();
    let link = token.try_as_base64().unwrap();

    let encoded = VerificationToken::try_wire_from_base64(&link).unwrap();
    let subject = TokenService::try_get_subject_for_encoded(encoded.clone()).unwrap();
    let owner = directory.resolve(subject).unwrap();
    let verified = VerificationToken::decode(encoded, &owner.secret().to_string()).unwrap();

    assert_eq!(owner, &user);
    assert_eq!(verified.get_claims().sub, user.id.to_string());
    assert_eq!(verified, token);
    assert_eq!(
        VerificationToken::try_from_base64(&link, &user.secret.to_string()).unwrap(),
        token
    );
    assert!(matches!(
        VerificationToken::try_from_base64(&link, &stranger.secret.to_string()),
        Err(GateKeeperError::Token(TokenError::Decode(_, _)))
    ));
}
