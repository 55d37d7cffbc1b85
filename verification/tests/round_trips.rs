use axum_gatekeeper::error::GateKeeperError;
use axum_gatekeeper::model::SubjectId;
use axum_gatekeeper::tokens::duration::parse_expire_secs;
use axum_gatekeeper::tokens::{
    AuthenticationToken, Claims, RefreshToken, Token, TokenError, TokenService, VerificationToken,
};
use axum_gatekeeper::trusted::{MAX_DATE_TIMESTAMP, MIN_DATE_TIMESTAMP};

/// A small generator of numbers that look random and are the same in every run.
struct Numbers {
    state: u64,
}

impl Numbers {
    fn new(seed: u64) -> Self {
        Self { state: seed }
    }

    fn next(&mut self) -> u64 {
        self.state ^= self.state << 13;
        self.state ^= self.state >> 7;
        self.state ^= self.state << 17;
        self.state
    }

    fn below(&mut self, bound: u64) -> u64 {
        self.next() % bound
    }

    fn text(&mut self, alphabet: &[char], longest: u64) -> String {
        let len = self.below(longest + 1);
        (0..len)
            .map(|_| alphabet[self.below(alphabet.len() as u64) as usize])
            .collect()
    }
}

const LETTERS: [char; 16] = [
    'a', 'Z', '0', '9', ' ', '.', '-', '_', '"', '\\', '\n', '\0', '\u{e9}', '\u{df}', '\u{4e2d}',
    '\u{1f511}',
];

#[test]
fn tokens_survive_signing_and_verifying() {
    let mut numbers = Numbers::new(0x9e37_79b9_7f4a_7c15);

    for round in 0..150 {
        let claims = Claims {
            exp: if round % 7 == 0 {
                usize::MAX - numbers.below(3) as usize
            } else {
                numbers.next() as usize
            },
            iat: numbers.next() as usize >> numbers.below(64),
            sub: numbers.text(&LETTERS, 40),
        };
        let secret = numbers.text(&LETTERS, 200);
        let encoded = AuthenticationToken::encode(&claims, secret.clone()).unwrap();
        let token = AuthenticationToken::decode(encoded.clone(), &secret).unwrap();
        let header = TokenService::get_token_headers_from_encoded(encoded.clone()).unwrap();

        assert_eq!(token.get_claims(), &claims);
        assert_eq!(token.get_encoded(), &encoded);
        assert_eq!(header.kid.as_ref(), Some(&claims.sub));
        assert_eq!(
            encoded,
            RefreshToken::encode(&claims, secret.clone()).unwrap()
        );

        let mut other = secret.clone();
        other.push('x');

        assert!(matches!(
            AuthenticationToken::decode(encoded, &other),
            Err(GateKeeperError::Token(TokenError::Decode(_, _)))
        ));
    }
}

#[test]
fn wire_strings_survive_the_link_form() {
    let mut numbers = Numbers::new(0x2545_f491_4f6c_dd1d);

    for _ in 0..300 {
        let encoded = numbers.text(&LETTERS, 64);
        let claims = Claims {
            exp: 10,
            iat: 5,
            sub: "someone".to_string(),
        };
        let link = VerificationToken::new(encoded.clone(), claims)
            .try_as_base64()
            .unwrap();

        assert_eq!(link.len() % 4, 0);
        assert!(link
            .chars()
            .all(|c| c.is_ascii_alphanumeric() || c == '-' || c == '_' || c == '='));
        assert_eq!(
            VerificationToken::try_wire_from_base64(&link).unwrap(),
            encoded
        );
    }
}

#[test]
fn identifiers_survive_writing_and_reading() {
    let mut numbers = Numbers::new(0xd6e8_feb8_6659_fd93);

    for _ in 0..300 {
        let value = ((numbers.next() as u128) << 64) | numbers.next() as u128;
        let id = SubjectId::from_u128(value);
        let text = id.to_text();

        assert_eq!(text.len(), 36);
        assert_eq!(text, format!("{}", uuid::Uuid::from_u128(value)));
        assert_eq!(SubjectId::parse_str(&text), Some(id));
        assert_eq!(SubjectId::parse_str(&text.to_uppercase()), Some(id));
    }
}

#[test]
fn cookies_expire_with_their_tokens_as_far_as_dates_reach() {
    let mut numbers = Numbers::new(0x1234_5678_9abc_def1);

    for round in 0..300 {
        let exp = match round % 3 {
            0 => numbers.below(MAX_DATE_TIMESTAMP as u64 + 1) as usize,
            1 => MAX_DATE_TIMESTAMP as usize - 100 + numbers.below(200) as usize,
            _ => numbers.next() as usize,
        };
        let claims = Claims {
            exp,
            iat: 0,
            sub: "someone".to_string(),
        };
        let cookie = RefreshToken::new("a.b.c".to_string(), claims).try_as_cookie();

        if exp <= MAX_DATE_TIMESTAMP as usize {
            let cookie = cookie.unwrap();
            let date = cookie::time::OffsetDateTime::from_unix_timestamp(exp as i64).unwrap();

            assert_eq!(cookie.expires, exp as i64);
            assert_eq!(date.unix_timestamp(), cookie.expires);
        } else {
            assert!(matches!(
                cookie,
                Err(GateKeeperError::Token(TokenError::ReadingExpiration(_)))
            ));
        }
    }
}

#[test]
fn dates_are_accepted_in_the_stated_range() {
    let mut numbers = Numbers::new(0x0fed_cba9_8765_4321);
    let span = (MAX_DATE_TIMESTAMP - MIN_DATE_TIMESTAMP) as u64 + 1;

    for round in 0..300 {
        let seconds = match round % 3 {
            0 => MIN_DATE_TIMESTAMP + numbers.below(200) as i64,
            1 => MAX_DATE_TIMESTAMP - numbers.below(200) as i64,
            _ => MIN_DATE_TIMESTAMP + numbers.below(span) as i64,
        };
        let date = cookie::time::OffsetDateTime::from_unix_timestamp(seconds).unwrap();

        assert_eq!(date.unix_timestamp(), seconds);
    }
}

#[test]
fn durations_are_read_as_the_standard_parser_reads_them() {
    let mut numbers = Numbers::new(0x0bad_cafe_dead_beef);
    let alphabet = ['+', '-', '0', '1', '5', '9', ' ', 'a', '\u{663}'];

    for _ in 0..2000 {
        let text = numbers.text(&alphabet, 6);

        assert_eq!(parse_expire_secs(&text), text.parse::<usize>().ok());
    }
    for _ in 0..500 {
        let text = numbers.text(&['0', '1', '4', '7', '9'], 24);

        assert_eq!(parse_expire_secs(&text), text.parse::<usize>().ok());
    }
}
