use base64::Engine;
use google_ai_rs::auth::{
    add_auth, parse_private_key, Auth, Error, JWTConfig, JwtService, PrivateKeyError, TimeSpan, TokenSource,
};
use rsa::pkcs1::EncodeRsaPrivateKey;
use rsa::pkcs8::EncodePrivateKey;
use rsa::signature::Verifier;

fn test_key() -> rsa::RsaPrivateKey {
    rsa::RsaPrivateKey::new(&mut rand::thread_rng(), 1024).unwrap()
}

fn config(key: &rsa::RsaPrivateKey, lifetime: Option<TimeSpan>) -> JWTConfig {
    JWTConfig {
        client_email: "svc@project.iam.gserviceaccount.com".to_owned(),
        private_key: key.to_pkcs8_pem(rsa::pkcs8::LineEnding::LF).unwrap().as_str().to_owned(),
        private_key_id: "k\"1".to_owned(),
        lifetime,
    }
}

fn service(cfg: JWTConfig, now: TimeSpan) -> JwtService {
    match TokenSource::from_jwt(cfg, now).unwrap() {
        TokenSource::Jwt { jwt } => *jwt,
    }
}

fn decode(seg: &str) -> Vec<u8> {
    base64::engine::general_purpose::URL_SAFE_NO_PAD.decode(seg).unwrap()
}

#[test]
fn token_layout_and_signature() {
    let key = test_key();
    let now = TimeSpan { secs: 1000, nanos: 5 };
    let svc = service(config(&key, None), now);
    let (jwt, exp) = svc.generate_token(now).unwrap();
    assert_eq!(exp, TimeSpan { secs: 4600, nanos: 5 });
    let segs: Vec<&str> = jwt.split('.').collect();
    assert_eq!(segs.len(), 3);
    let header = decode(segs[0]);
    assert_eq!(String::from_utf8(header.clone()).unwrap(), r#"{"alg":"RS256","kid":"k\"1","typ":"JWT"}"#);
    let claims = decode(segs[1]);
    assert_eq!(
        String::from_utf8(claims.clone()).unwrap(),
        r#"{"aud":"https://generativelanguage.googleapis.com/","exp":4600,"iat":1000,"iss":"svc@project.iam.gserviceaccount.com","sub":"svc@project.iam.gserviceaccount.com"}"#
    );
    let reparsed: serde_json::Value = serde_json::from_slice(&claims).unwrap();
    assert_eq!(serde_json::to_vec(&reparsed).unwrap(), claims);
    let reparsed: serde_json::Value = serde_json::from_slice(&header).unwrap();
    assert_eq!(serde_json::to_vec(&reparsed).unwrap(), header);

    let message = format!("{}.{}", segs[0], segs[1]);
    let sig = rsa::pkcs1v15::Signature::try_from(decode(segs[2]).as_slice()).unwrap();
    let verifier = rsa::pkcs1v15::VerifyingKey::<sha2::Sha256>::new(key.to_public_key());
    assert!(verifier.verify(message.as_bytes(), &sig).is_ok());
}

#[test]
fn lifetime_longer_than_an_hour_is_refused() {
    let key = test_key();
    let now = TimeSpan { secs: 10, nanos: 0 };
    let svc = service(config(&key, Some(TimeSpan { secs: 3600, nanos: 1 })), now);
    assert!(matches!(svc.generate_token(now), Err(Error::InvalidLifetime)));
    let svc = service(config(&key, Some(TimeSpan { secs: 60, nanos: 0 })), now);
    assert_eq!(svc.generate_token(now).unwrap().1, TimeSpan { secs: 70, nanos: 0 });
}

#[test]
fn tokens_are_cached_until_they_expire() {
    let key = test_key();
    let start = TimeSpan { secs: 100, nanos: 0 };
    let mut auth = Auth::TokenSource(TokenSource::Jwt { jwt: Box::new(service(config(&key, None), start)) });
    let (name, first) = add_auth(&mut auth, start).unwrap();
    assert_eq!(name, "authorization");
    assert!(first.starts_with("Bearer "));
    let (_, again) = add_auth(&mut auth, TimeSpan { secs: 3699, nanos: 999_999_999 }).unwrap();
    assert_eq!(again, first);
    let (_, renewed) = add_auth(&mut auth, TimeSpan { secs: 3700, nanos: 0 }).unwrap();
    assert_ne!(renewed, first);
}

#[test]
fn api_key_header() {
    let mut auth = Auth::new("abc");
    assert_eq!(add_auth(&mut auth, TimeSpan::from_secs(0)).unwrap(), ("x-goog-api-key".to_owned(), "abc".to_owned()));
    let mut bad = Auth::new("a\nb");
    assert!(matches!(add_auth(&mut bad, TimeSpan::from_secs(0)), Err(Error::InvalidHeader)));
    let mut tab = Auth::new("a\tb");
    assert!(add_auth(&mut tab, TimeSpan::from_secs(0)).is_ok());
}

#[test]
fn private_key_formats() {
    let key = test_key();
    let pem = key.to_pkcs8_pem(rsa::pkcs8::LineEnding::LF).unwrap();
    assert!(parse_private_key(pem.as_bytes()).is_ok());
    let pkcs1_pem = key.to_pkcs1_pem(rsa::pkcs8::LineEnding::LF).unwrap();
    assert!(parse_private_key(pkcs1_pem.as_bytes()).is_ok());
    let der = key.to_pkcs1_der().unwrap();
    assert!(parse_private_key(der.as_bytes()).is_ok());
    assert!(matches!(parse_private_key(b"not a key"), Err(PrivateKeyError::Pkcs1(_))));
    let cfg = JWTConfig {
        client_email: String::new(),
        private_key: "garbage".to_owned(),
        private_key_id: String::new(),
        lifetime: None,
    };
    assert!(matches!(Auth::from_jwt_config(cfg, TimeSpan::from_secs(0)), Err(Error::PrivateKey(PrivateKeyError::Pkcs1(_)))));
}

#[test]
fn time_spans() {
    let a = TimeSpan { secs: 1, nanos: 600_000_000 };
    let b = TimeSpan { secs: 2, nanos: 500_000_000 };
    assert_eq!(a.plus(&b), TimeSpan { secs: 4, nanos: 100_000_000 });
    assert!(a.is_before(&b));
    assert!(!b.is_before(&a));
    assert!(!a.is_before(&a));
}
