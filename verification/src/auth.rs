//! Authentication: API keys and service-account JSON Web Tokens.
//!
//! The caller supplies the current time; tokens are cached until they expire.
use vstd::prelude::*;
use crate::text::push_str;

verus! {

/// Authentication error types.
#[derive(Debug)]
pub enum Error {
    /// I/O error.
    Io(std::io::Error),
    /// JSON parsing error.
    Json(serde_json::Error),
    /// Private key parsing failed.
    PrivateKey(PrivateKeyError),
    /// System time error.
    SystemTime(std::time::SystemTimeError),
    /// Token generation failed.
    TokenGeneration(String),
    /// Invalid header value.
    InvalidHeader,
    /// Invalid token lifetime.
    InvalidLifetime,
}

/// Private key parsing specific errors.
#[derive(Debug)]
pub enum PrivateKeyError {
    /// PKCS#1 parsing error.
    Pkcs1(rsa::pkcs1::Error),
    /// PKCS#8 parsing error.
    Pkcs8(rsa::pkcs8::Error),
    /// PEM format error.
    Pem(pem::PemError),
}

impl From<std::io::Error> for Error {
    fn from(e: std::io::Error) -> (r: Error) {
        Error::Io(e)
    }
}

impl vstd::std_specs::convert::FromSpecImpl<std::io::Error> for Error {
    open spec fn obeys_from_spec() -> bool {
        true
    }

    open spec fn from_spec(e: std::io::Error) -> Error {
        Error::Io(e)
    }
}

impl From<PrivateKeyError> for Error {
    fn from(e: PrivateKeyError) -> (r: Error) {
        Error::PrivateKey(e)
    }
}

impl vstd::std_specs::convert::FromSpecImpl<PrivateKeyError> for Error {
    open spec fn obeys_from_spec() -> bool {
        true
    }

    open spec fn from_spec(e: PrivateKeyError) -> Error {
        Error::PrivateKey(e)
    }
}

impl From<std::time::SystemTimeError> for Error {
    fn from(e: std::time::SystemTimeError) -> (r: Error) {
        Error::SystemTime(e)
    }
}

impl vstd::std_specs::convert::FromSpecImpl<std::time::SystemTimeError> for Error {
    open spec fn obeys_from_spec() -> bool {
        true
    }

    open spec fn from_spec(e: std::time::SystemTimeError) -> Error {
        Error::SystemTime(e)
    }
}

/// A span of time in whole seconds and nanoseconds; a point in time is the
/// span since the Unix epoch.
#[derive(Clone, Copy, Debug, PartialEq, Eq)]
pub struct TimeSpan {
    /// Whole seconds.
    pub secs: u64,
    /// Nanoseconds past the whole seconds.
    pub nanos: u32,
}

impl TimeSpan {
    /// The nanoseconds are less than a second.
    pub open spec fn wf(self) -> bool {
        self.nanos < 1_000_000_000
    }

    /// The span in nanoseconds.
    pub open spec fn total_nanos(self) -> int {
        self.secs * 1_000_000_000 + self.nanos
    }

    /// Whether this span is shorter than `other` (this point in time is
    /// earlier).
    pub open spec fn lt(self, other: TimeSpan) -> bool {
        self.secs < other.secs || (self.secs == other.secs && self.nanos < other.nanos)
    }

    /// A span from whole seconds.
    pub fn from_secs(secs: u64) -> (r: TimeSpan)
        ensures
            r.secs == secs,
            r.nanos == 0,
    {
        TimeSpan { secs, nanos: 0 }
    }

    /// Whether this span is shorter than `other`.
    pub fn is_before(&self, other: &TimeSpan) -> (r: bool)
        ensures
            r == self.lt(*other),
    {
        self.secs < other.secs || (self.secs == other.secs && self.nanos < other.nanos)
    }

    /// The sum of two spans.
    pub fn plus(&self, d: &TimeSpan) -> (r: TimeSpan)
        requires
            self.wf(),
            d.wf(),
            self.secs + d.secs < u64::MAX,
        ensures
            r.wf(),
            r.total_nanos() == self.total_nanos() + d.total_nanos(),
    {
        let n = self.nanos + d.nanos;
        if n >= 1_000_000_000 {
            TimeSpan { secs: self.secs + d.secs + 1, nanos: n - 1_000_000_000 }
        } else {
            TimeSpan { secs: self.secs + d.secs, nanos: n }
        }
    }
}

/// JSON Web Token configuration for service account authentication.
#[derive(Debug)]
pub struct JWTConfig {
    /// Service account client email.
    pub client_email: String,
    /// RSA private key in PEM or DER format.
    pub private_key: String,
    /// Private key identifier from Google Cloud.
    pub private_key_id: String,
    /// Token lifetime (default: 1 hour, at most 1 hour).
    pub lifetime: Option<TimeSpan>,
}

/// Lifetime of a token when the configuration sets none.
pub open spec fn default_token_lifetime() -> TimeSpan {
    TimeSpan { secs: 3600, nanos: 0 }
}

/// The longest lifetime a token may have.
pub open spec fn max_token_lifetime() -> TimeSpan {
    TimeSpan { secs: 3600, nanos: 0 }
}

/// The audience of the tokens.
pub open spec fn jwt_audience() -> Seq<char> {
    "https://generativelanguage.googleapis.com/"@
}

/// The contents of the PEM document in `bytes`, if `bytes` is one
/// (`pem::parse`).
pub uninterp spec fn pem_body(bytes: Seq<u8>) -> Option<Seq<u8>>;

/// Whether `der` decodes as a PKCS#8 RSA private key.
pub uninterp spec fn pkcs8_decodes(der: Seq<u8>) -> bool;

/// Whether `der` decodes as a PKCS#1 RSA private key.
pub uninterp spec fn pkcs1_decodes(der: Seq<u8>) -> bool;

/// The URL-safe base64 encoding of `bytes`, without padding.
pub uninterp spec fn base64url(bytes: Seq<u8>) -> Seq<char>;

/// The bytes of the JSON object (`serde_json::to_vec` of a
/// `Value::Object`) whose members are the strings of `texts` and the whole
/// numbers of `numbers`, each under its key.
pub uninterp spec fn json_object(texts: Seq<(Seq<char>, Seq<char>)>, numbers: Seq<(Seq<char>, u64)>) -> Seq<u8>;

/// A character of the URL-safe base64 alphabet.
pub open spec fn is_base64url_char(c: char) -> bool {
    ('A' <= c <= 'Z') || ('a' <= c <= 'z') || ('0' <= c <= '9') || c == '-' || c == '_'
}

/// Whether a string can be sent as a header value: no control character
/// but the tab.
pub open spec fn header_value_ok(s: Seq<char>) -> bool {
    forall|i: int| 0 <= i < s.len() ==> (#[trigger] s[i] == '\t' || (s[i] as u32 >= 32 && s[i] as u32 != 127))
}

/// The contents of a PEM document (`pem::parse`, then `Pem::contents`);
/// `None` when the bytes are not one.
#[verifier::external_body]
fn pem_contents(bytes: &[u8]) -> (r: Option<Vec<u8>>)
    ensures
        match r {
            Some(v) => pem_body(bytes@) == Some(v@),
            None => pem_body(bytes@) is None,
        },
{
    match pem::parse(bytes) {
        Ok(p) => Some(p.contents().to_vec()),
        Err(_) => None,
    }
}

/// Decodes a PKCS#8 DER private key (`RsaPrivateKey::from_pkcs8_der`).
#[verifier::external_body]
fn decode_pkcs8(der: &[u8]) -> (r: Result<rsa::RsaPrivateKey, rsa::pkcs8::Error>)
    ensures
        r is Ok <==> pkcs8_decodes(der@),
{
    <rsa::RsaPrivateKey as rsa::pkcs8::DecodePrivateKey>::from_pkcs8_der(der)
}

/// Decodes a PKCS#1 DER private key (`RsaPrivateKey::from_pkcs1_der`).
#[verifier::external_body]
fn decode_pkcs1(der: &[u8]) -> (r: Result<rsa::RsaPrivateKey, rsa::pkcs1::Error>)
    ensures
        r is Ok <==> pkcs1_decodes(der@),
{
    <rsa::RsaPrivateKey as rsa::pkcs1::DecodeRsaPrivateKey>::from_pkcs1_der(der)
}

/// The RS256 signature (RSASSA-PKCS1-v1_5 with SHA-256) of `msg` by the
/// key that the PKCS#8 DER `der` holds; `None` when that key is too short
/// to sign a SHA-256 digest.
pub uninterp spec fn rs256_pkcs8(der: Seq<u8>, msg: Seq<u8>) -> Option<Seq<u8>>;

/// The RS256 signature of `msg` by the key that the PKCS#1 DER `der`
/// holds; `None` when that key is too short to sign a SHA-256 digest.
pub uninterp spec fn rs256_pkcs1(der: Seq<u8>, msg: Seq<u8>) -> Option<Seq<u8>>;

/// Signs `msg` with the key of a PKCS#8 DER (`from_pkcs8_der`, then
/// `SigningKey::<Sha256>` and `try_sign_with_rng`; the random generator
/// only blinds, so the signature is a function of key and message); the
/// error, when the key is too short for the digest, as text.
#[verifier::external_body]
fn sign_pkcs8(der: &[u8], msg: &[u8]) -> (r: Result<Vec<u8>, String>)
    requires
        pkcs8_decodes(der@),
    ensures
        match rs256_pkcs8(der@, msg@) {
            Some(s) => r matches Ok(v) && v@ == s,
            None => r is Err,
        },
{
    match <rsa::RsaPrivateKey as rsa::pkcs8::DecodePrivateKey>::from_pkcs8_der(der) {
        Ok(key) => rsa::signature::RandomizedSigner::try_sign_with_rng(
            &rsa::pkcs1v15::SigningKey::<sha2::Sha256>::new(key), &mut rand::thread_rng(), msg,
        ).map(|s| rsa::signature::SignatureEncoding::to_vec(&s)).map_err(|e| e.to_string()),
        Err(e) => Err(e.to_string()),
    }
}

/// Signs `msg` with the key of a PKCS#1 DER (`from_pkcs1_der`, then as
/// [`sign_pkcs8`] does).
#[verifier::external_body]
fn sign_pkcs1(der: &[u8], msg: &[u8]) -> (r: Result<Vec<u8>, String>)
    requires
        pkcs1_decodes(der@),
    ensures
        match rs256_pkcs1(der@, msg@) {
            Some(s) => r matches Ok(v) && v@ == s,
            None => r is Err,
        },
{
    match <rsa::RsaPrivateKey as rsa::pkcs1::DecodeRsaPrivateKey>::from_pkcs1_der(der) {
        Ok(key) => rsa::signature::RandomizedSigner::try_sign_with_rng(
            &rsa::pkcs1v15::SigningKey::<sha2::Sha256>::new(key), &mut rand::thread_rng(), msg,
        ).map(|s| rsa::signature::SignatureEncoding::to_vec(&s)).map_err(|e| e.to_string()),
        Err(e) => Err(e.to_string()),
    }
}

/// The RS256 signature of `msg` by the key in `der`, read as PKCS#8 when
/// `pkcs8`, else as PKCS#1.
pub open spec fn rs256(der: Seq<u8>, pkcs8: bool, msg: Seq<u8>) -> Option<Seq<u8>> {
    if pkcs8 {
        rs256_pkcs8(der, msg)
    } else {
        rs256_pkcs1(der, msg)
    }
}

/// Whether `der` holds a key in the format that `pkcs8` names.
pub open spec fn key_readable(der: Seq<u8>, pkcs8: bool) -> bool {
    if pkcs8 {
        pkcs8_decodes(der)
    } else {
        pkcs1_decodes(der)
    }
}

/// URL-safe base64 without padding (`URL_SAFE_NO_PAD.encode`); its
/// characters are those of the URL-safe alphabet.
#[verifier::external_body]
fn encode_base64url(bytes: &[u8]) -> (r: String)
    ensures
        r@ == base64url(bytes@),
        forall|i: int| 0 <= i < r@.len() ==> is_base64url_char(#[trigger] r@[i]),
{
    base64::Engine::encode(&base64::engine::general_purpose::URL_SAFE_NO_PAD, bytes)
}

/// The JSON object of string and number members
/// (`serde_json::to_vec` of a `Value::Object` built from them). A value
/// serialises without error and the output goes into a vector, which does
/// not fail, so the result is `Ok`.
#[verifier::external_body]
fn encode_json_object(texts: &Vec<(String, String)>, numbers: &Vec<(String, u64)>) -> (r: Result<Vec<u8>, serde_json::Error>)
    ensures
        r is Ok,
        r matches Ok(v) ==> v@ == json_object(texts.deep_view(), numbers.deep_view()),
{
    let members: serde_json::Map<String, serde_json::Value> = texts.iter()
        .map(|(k, v)| (k.clone(), serde_json::Value::from(v.as_str())))
        .chain(numbers.iter().map(|(k, n)| (k.clone(), serde_json::Value::from(*n))))
        .collect();
    serde_json::to_vec(&serde_json::Value::Object(members))
}

/// Whether `s` parses as an ASCII metadata value
/// (`MetadataValue::<Ascii>::from_str`, which checks each byte as
/// `http::HeaderValue::from_str` does).
#[verifier::external_body]
fn is_metadata_value(s: &str) -> (r: bool)
    ensures
        r == header_value_ok(s@),
{
    s.parse::<tonic::metadata::MetadataValue<tonic::metadata::Ascii>>().is_ok()
}

/// The DER bytes a key is read from: the contents of a PEM document, or the
/// bytes themselves.
pub open spec fn key_der(bytes: Seq<u8>) -> Seq<u8> {
    match pem_body(bytes) {
        Some(c) => c,
        None => bytes,
    }
}

/// Decodes DER as PKCS#8, then as PKCS#1; the PKCS#1 error if neither.
fn decode_der(der: &[u8]) -> (r: Result<rsa::RsaPrivateKey, PrivateKeyError>)
    ensures
        r is Ok <==> pkcs8_decodes(der@) || pkcs1_decodes(der@),
        r matches Err(e) ==> e is Pkcs1,
{
    match decode_pkcs8(der) {
        Ok(k) => Ok(k),
        Err(_) => match decode_pkcs1(der) {
            Ok(k) => Ok(k),
            Err(e) => Err(PrivateKeyError::Pkcs1(e)),
        },
    }
}

/// Parses an RSA private key from PEM (PKCS#8 or PKCS#1 inside), or else
/// from DER (PKCS#8 or PKCS#1).
pub fn parse_private_key(bytes: &[u8]) -> (r: Result<rsa::RsaPrivateKey, PrivateKeyError>)
    ensures
        r is Ok <==> pkcs8_decodes(key_der(bytes@)) || pkcs1_decodes(key_der(bytes@)),
        r matches Err(e) ==> e is Pkcs1,
{
    match pem_contents(bytes) {
        Some(contents) => decode_der(contents.as_slice()),
        None => decode_der(bytes),
    }
}

/// A copy of a byte slice.
fn copy_bytes(b: &[u8]) -> (r: Vec<u8>)
    ensures
        r@ == b@,
{
    let mut out: Vec<u8> = Vec::new();
    crate::content::extend_bytes(&mut out, b);
    assert(out@ =~= b@);
    out
}

/// The DER bytes of a private key read from PEM (PKCS#8 or PKCS#1 inside)
/// or DER, and whether they are PKCS#8 (tried first).
///
/// # Errors
/// The PKCS#1 error when the bytes hold neither.
pub fn private_key_der(bytes: &[u8]) -> (r: Result<(Vec<u8>, bool), PrivateKeyError>)
    ensures
        r is Ok <==> pkcs8_decodes(key_der(bytes@)) || pkcs1_decodes(key_der(bytes@)),
        r matches Ok((d, p)) ==> d@ == key_der(bytes@) && p == pkcs8_decodes(d@) && key_readable(d@, p),
        r matches Err(e) ==> e is Pkcs1,
{
    let der = match pem_contents(bytes) {
        Some(c) => c,
        None => copy_bytes(bytes),
    };
    match decode_pkcs8(der.as_slice()) {
        Ok(_) => Ok((der, true)),
        Err(_) => match decode_pkcs1(der.as_slice()) {
            Ok(_) => Ok((der, false)),
            Err(e) => Err(PrivateKeyError::Pkcs1(e)),
        },
    }
}

/// The JSON of a token's header: algorithm, type and key id.
pub open spec fn header_json(kid: Seq<char>) -> Seq<u8> {
    json_object(seq![("alg"@, "RS256"@), ("typ"@, "JWT"@), ("kid"@, kid)], seq![])
}

/// The JSON of a token's claims: issuer and subject (both the client
/// email), audience, expiry and issue time.
pub open spec fn claims_json(email: Seq<char>, iat: u64, exp: u64) -> Seq<u8> {
    json_object(
        seq![("iss"@, email), ("sub"@, email), ("aud"@, jwt_audience())],
        seq![("exp"@, exp), ("iat"@, iat)],
    )
}

/// The signed part of a token: header and claims, each base64-encoded,
/// joined by a dot.
pub open spec fn jwt_message(kid: Seq<char>, email: Seq<char>, iat: u64, exp: u64) -> Seq<char> {
    base64url(header_json(kid)) + "."@ + base64url(claims_json(email, iat, exp))
}

/// The lifetime of the tokens of a configuration.
pub open spec fn lifetime_of(config: JWTConfig) -> TimeSpan {
    match config.lifetime {
        Some(l) => l,
        None => default_token_lifetime(),
    }
}

/// The message of the token of `config` issued at `now`.
pub open spec fn token_message(config: JWTConfig, now: TimeSpan) -> Seq<char> {
    jwt_message(
        config.private_key_id@, config.client_email@, now.secs,
        (now.secs + lifetime_of(config).secs) as u64,
    )
}

/// The token of `config` issued at `now` and signed by the key in `der`
/// (PKCS#8 when `pkcs8`): its message, a dot, and the RS256 signature of the
/// message in base64; `None` when the key cannot sign.
pub open spec fn token_for(config: JWTConfig, der: Seq<u8>, pkcs8: bool, now: TimeSpan) -> Option<Seq<char>> {
    let m = token_message(config, now);
    match rs256(der, pkcs8, vstd::utf8::encode_utf8(m)) {
        Some(s) => Some(m + "."@ + base64url(s)),
        None => None,
    }
}

/// Cached JWT token data.
#[derive(Debug)]
pub struct JwtCache {
    /// The header value: "Bearer " and the token.
    pub token: String,
    /// When the token expires.
    pub expires_at: TimeSpan,
}

/// JWT token service with caching.
#[derive(Debug)]
pub struct JwtService {
    config: JWTConfig,
    key_der: Vec<u8>,
    pkcs8: bool,
    cache: JwtCache,
}

/// Base64 output holds no control character.
proof fn lemma_base64_header_ok(s: Seq<char>)
    requires
        forall|i: int| 0 <= i < s.len() ==> is_base64url_char(#[trigger] s[i]),
    ensures
        header_value_ok(s),
{
    assert forall|i: int| 0 <= i < s.len() implies (#[trigger] s[i] == '\t' || (s[i] as u32 >= 32 && s[i] as u32 != 127)) by {
        assert(is_base64url_char(s[i]));
    }
}

/// Strings without control characters stay so when joined.
proof fn lemma_header_ok_concat(a: Seq<char>, b: Seq<char>)
    requires
        header_value_ok(a),
        header_value_ok(b),
    ensures
        header_value_ok(a + b),
{
    assert forall|i: int| 0 <= i < (a + b).len() implies (#[trigger] (a + b)[i] == '\t' || ((a + b)[i] as u32 >= 32 && (a + b)[i] as u32 != 127)) by {
        if i < a.len() {
            assert((a + b)[i] == a[i]);
        } else {
            assert((a + b)[i] == b[i - a.len()]);
        }
    }
}

impl JwtService {
    /// The service account configuration.
    pub closed spec fn config_view(&self) -> JWTConfig {
        self.config
    }

    /// The DER bytes of the signing key.
    pub closed spec fn key_der_view(&self) -> Seq<u8> {
        self.key_der@
    }

    /// Whether the signing key's DER is PKCS#8 (else PKCS#1).
    pub closed spec fn pkcs8_view(&self) -> bool {
        self.pkcs8
    }

    /// The signing key can be read from its DER bytes.
    #[verifier::type_invariant]
    closed spec fn key_ok(&self) -> bool {
        key_readable(self.key_der@, self.pkcs8)
    }

    /// The token of this service issued at `now`, if its key can sign.
    pub open spec fn token_at(&self, now: TimeSpan) -> Option<Seq<char>> {
        token_for(self.config_view(), self.key_der_view(), self.pkcs8_view(), now)
    }

    /// The header value of the last token made.
    pub closed spec fn token_view(&self) -> Seq<char> {
        self.cache.token@
    }

    /// When the last token made expires.
    pub closed spec fn expiry_view(&self) -> TimeSpan {
        self.cache.expires_at
    }

    /// Generates a new signed JWT token issued at `now`, and when it
    /// expires.
    ///
    /// # Errors
    /// [`Error::InvalidLifetime`] when the configured lifetime is longer
    /// than an hour; [`Error::TokenGeneration`] when the key cannot sign.
    pub fn generate_token(&self, now: TimeSpan) -> (r: Result<(String, TimeSpan), Error>)
        requires
            now.wf(),
            self.config_view().lifetime matches Some(l) ==> l.wf(),
            now.secs + 3601 < u64::MAX,
        ensures
            max_token_lifetime().lt(lifetime_of(self.config_view())) <==> r matches Err(Error::InvalidLifetime),
            !max_token_lifetime().lt(lifetime_of(self.config_view())) ==> match self.token_at(now) {
                Some(t) => r matches Ok((jwt, exp)) && {
                    &&& jwt@ == t
                    &&& header_value_ok(jwt@)
                    &&& exp.wf()
                    &&& exp.total_nanos() == now.total_nanos() + lifetime_of(self.config_view()).total_nanos()
                },
                None => r matches Err(Error::TokenGeneration(_)),
            },
    {
        proof {
            use_type_invariant(self);
        }
        let iat = now.secs;
        let lifetime = match self.config.lifetime {
            Some(l) => l,
            None => TimeSpan::from_secs(3600),
        };
        if TimeSpan::from_secs(3600).is_before(&lifetime) {
            return Err(Error::InvalidLifetime);
        }
        let exp = iat + lifetime.secs;

        let mut header_texts: Vec<(String, String)> = Vec::new();
        header_texts.push(("alg".to_owned(), "RS256".to_owned()));
        header_texts.push(("typ".to_owned(), "JWT".to_owned()));
        header_texts.push(("kid".to_owned(), self.config.private_key_id.clone()));
        let header_numbers: Vec<(String, u64)> = Vec::new();
        let header = match encode_json_object(&header_texts, &header_numbers) {
            Ok(h) => h,
            Err(e) => return Err(Error::Json(e)),
        };

        let mut claims_texts: Vec<(String, String)> = Vec::new();
        claims_texts.push(("iss".to_owned(), self.config.client_email.clone()));
        claims_texts.push(("sub".to_owned(), self.config.client_email.clone()));
        claims_texts.push(("aud".to_owned(), "https://generativelanguage.googleapis.com/".to_owned()));
        let mut claims_numbers: Vec<(String, u64)> = Vec::new();
        claims_numbers.push(("exp".to_owned(), exp));
        claims_numbers.push(("iat".to_owned(), iat));
        let claims = match encode_json_object(&claims_texts, &claims_numbers) {
            Ok(c) => c,
            Err(e) => return Err(Error::Json(e)),
        };
        proof {
            assert(header_texts.deep_view() =~= seq![("alg"@, "RS256"@), ("typ"@, "JWT"@), ("kid"@, self.config.private_key_id@)]);
            assert(header_numbers.deep_view() =~= Seq::<(Seq<char>, u64)>::empty());
            assert(claims_texts.deep_view() =~= seq![("iss"@, self.config.client_email@), ("sub"@, self.config.client_email@), ("aud"@, jwt_audience())]);
            assert(claims_numbers.deep_view() =~= seq![("exp"@, exp), ("iat"@, iat)]);
        }

        let encoded_header = encode_base64url(header.as_slice());
        let encoded_claims = encode_base64url(claims.as_slice());
        let mut message = encoded_header;
        push_str(&mut message, ".");
        push_str(&mut message, encoded_claims.as_str());

        let signed = if self.pkcs8 {
            sign_pkcs8(self.key_der.as_slice(), message.as_str().as_bytes())
        } else {
            sign_pkcs1(self.key_der.as_slice(), message.as_str().as_bytes())
        };
        proof {
            assert(header@ == header_json(self.config.private_key_id@));
            assert(claims@ == claims_json(self.config.client_email@, iat, exp));
            assert(message@ == token_message(self.config, now));
        }
        let signature = match signed {
            Ok(s) => s,
            Err(e) => return Err(Error::TokenGeneration(e)),
        };
        let encoded_sig = encode_base64url(signature.as_slice());
        let mut jwt = message;
        push_str(&mut jwt, ".");
        push_str(&mut jwt, encoded_sig.as_str());
        let expires_at = now.plus(&lifetime);
        proof {
            let m = jwt_message(self.config.private_key_id@, self.config.client_email@, iat, exp);
            assert(jwt@ == m + "."@ + base64url(signature@));
            lemma_base64_header_ok(encoded_header@);
            lemma_base64_header_ok(encoded_claims@);
            lemma_base64_header_ok(encoded_sig@);
            reveal_strlit(".");
            assert(header_value_ok("."@)) by {
                assert("."@.len() == 1);
                assert("."@[0] == '.');
            }
            lemma_header_ok_concat(encoded_header@, "."@);
            lemma_header_ok_concat(encoded_header@ + "."@, encoded_claims@);
            lemma_header_ok_concat(encoded_header@ + "."@ + encoded_claims@, "."@);
            lemma_header_ok_concat(encoded_header@ + "."@ + encoded_claims@ + "."@, encoded_sig@);
        }
        Ok((jwt, expires_at))
    }
}


impl JwtService {
    /// A token service for a configuration and its key; its cache holds an
    /// empty token that expires at `now`.
    pub fn new(config: JWTConfig, key_der: Vec<u8>, pkcs8: bool, now: TimeSpan) -> (r: JwtService)
        requires
            key_readable(key_der@, pkcs8),
        ensures
            r.config_view() == config,
            r.key_der_view() == key_der@,
            r.pkcs8_view() == pkcs8,
            r.token_view().len() == 0,
            r.expiry_view() == now,
    {
        JwtService { config, key_der, pkcs8, cache: JwtCache { token: String::new(), expires_at: now } }
    }

    /// The header value of a valid token at `now`: the cached one while it
    /// has not expired, else a new one ("Bearer " and the token), which is
    /// cached until it expires.
    ///
    /// # Errors
    /// Those of [`JwtService::generate_token`]; the cache is then kept.
    pub fn get_token(&mut self, now: TimeSpan) -> (r: Result<String, Error>)
        requires
            now.wf(),
            old(self).config_view().lifetime matches Some(l) ==> l.wf(),
            now.secs + 3601 < u64::MAX,
        ensures
            final(self).config_view() == old(self).config_view(),
            now.lt(old(self).expiry_view()) ==> {
                &&& r matches Ok(t) && t@ == old(self).token_view()
                &&& final(self).token_view() == old(self).token_view()
                &&& final(self).expiry_view() == old(self).expiry_view()
            },
            final(self).key_der_view() == old(self).key_der_view(),
            final(self).pkcs8_view() == old(self).pkcs8_view(),
            !now.lt(old(self).expiry_view()) ==> {
                &&& max_token_lifetime().lt(lifetime_of(old(self).config_view())) ==> {
                    &&& r matches Err(Error::InvalidLifetime)
                    &&& final(self).token_view() == old(self).token_view()
                    &&& final(self).expiry_view() == old(self).expiry_view()
                }
                &&& !max_token_lifetime().lt(lifetime_of(old(self).config_view())) ==> match old(self).token_at(now) {
                    Some(t) => {
                        &&& r matches Ok(b) && b@ == "Bearer "@ + t
                        &&& final(self).token_view() == "Bearer "@ + t
                        &&& final(self).expiry_view().total_nanos()
                            == now.total_nanos() + lifetime_of(old(self).config_view()).total_nanos()
                    },
                    None => {
                        &&& r matches Err(Error::TokenGeneration(_))
                        &&& final(self).token_view() == old(self).token_view()
                        &&& final(self).expiry_view() == old(self).expiry_view()
                    },
                }
            },
    {
        proof {
            use_type_invariant(&*self);
        }
        if now.is_before(&self.cache.expires_at) {
            return Ok(self.cache.token.clone());
        }
        let (jwt, expires_at) = match self.generate_token(now) {
            Ok(t) => t,
            Err(e) => return Err(e),
        };
        let mut token = "Bearer ".to_owned();
        push_str(&mut token, jwt.as_str());
        if !is_metadata_value(token.as_str()) {
            proof {
                reveal_strlit("Bearer ");
                assert(header_value_ok("Bearer "@)) by {
                    assert forall|i: int| 0 <= i < "Bearer "@.len() implies (#[trigger] "Bearer "@[i] == '\t'
                        || ("Bearer "@[i] as u32 >= 32 && "Bearer "@[i] as u32 != 127)) by {
                        assert("Bearer "@[i] == "Bearer "@[i]);
                    }
                }
                lemma_header_ok_concat("Bearer "@, jwt@);
            }
            return Err(Error::InvalidHeader);
        }
        let result = token.clone();
        self.cache = JwtCache { token, expires_at };
        Ok(result)
    }
}

/// Token generation source types.
#[derive(Debug)]
pub enum TokenSource {
    /// JSON Web Token authentication flow.
    Jwt { jwt: Box<JwtService> },
}

impl TokenSource {
    /// Creates JWT authentication from configuration: its private key is
    /// read from PEM or DER; no token is cached yet.
    ///
    /// # Errors
    /// [`Error::PrivateKey`] when the key cannot be read.
    pub fn from_jwt(config: JWTConfig, now: TimeSpan) -> (r: Result<TokenSource, Error>)
        ensures
            r is Ok <==> pkcs8_decodes(key_der(vstd::utf8::encode_utf8(config.private_key@)))
                || pkcs1_decodes(key_der(vstd::utf8::encode_utf8(config.private_key@))),
            r matches Ok(TokenSource::Jwt { jwt }) ==> {
                &&& jwt.config_view() == config
                &&& jwt.key_der_view() == key_der(vstd::utf8::encode_utf8(config.private_key@))
                &&& jwt.pkcs8_view() == pkcs8_decodes(key_der(vstd::utf8::encode_utf8(config.private_key@)))
                &&& jwt.token_view().len() == 0
                &&& jwt.expiry_view() == now
            },
            r matches Err(e) ==> (e matches Error::PrivateKey(p) && p is Pkcs1),
    {
        match private_key_der(config.private_key.as_str().as_bytes()) {
            Ok((der, pkcs8)) => Ok(TokenSource::Jwt { jwt: Box::new(JwtService::new(config, der, pkcs8, now)) }),
            Err(e) => Err(Error::PrivateKey(e)),
        }
    }
}

/// Authentication configuration options.
#[derive(Debug)]
pub enum Auth {
    /// API key authentication.
    ApiKey(String),
    /// JWT-based service account authentication.
    TokenSource(TokenSource),
}

impl Auth {
    /// Creates API key authentication.
    pub fn new(api_key: &str) -> (r: Auth)
        ensures
            r matches Auth::ApiKey(k) && k@ == api_key@,
    {
        Auth::ApiKey(api_key.to_owned())
    }

    /// Creates JWT authentication from configuration.
    ///
    /// # Errors
    /// [`Error::PrivateKey`] when the key cannot be read.
    pub fn from_jwt_config(config: JWTConfig, now: TimeSpan) -> (r: Result<Auth, Error>)
        ensures
            r is Ok <==> pkcs8_decodes(key_der(vstd::utf8::encode_utf8(config.private_key@)))
                || pkcs1_decodes(key_der(vstd::utf8::encode_utf8(config.private_key@))),
            r matches Ok(Auth::TokenSource(TokenSource::Jwt { jwt })) ==> jwt.config_view() == config,
            r matches Ok(a) ==> a is TokenSource,
            r matches Err(e) ==> e is PrivateKey,
    {
        match TokenSource::from_jwt(config, now) {
            Ok(t) => Ok(Auth::TokenSource(t)),
            Err(e) => Err(e),
        }
    }
}

/// The header that carries an API key.
pub open spec fn api_key_header() -> Seq<char> {
    "x-goog-api-key"@
}

/// The header that carries a token.
pub open spec fn auth_header_name() -> Seq<char> {
    "authorization"@
}

/// The authentication header for a request sent at `now`: the API key, or a
/// valid token of the service account (made anew when the cached one has
/// expired).
///
/// # Errors
/// [`Error::InvalidHeader`] when the API key cannot be sent as a header
/// value; those of [`JwtService::get_token`].
pub fn add_auth(auth: &mut Auth, now: TimeSpan) -> (r: Result<(String, String), Error>)
    requires
        now.wf(),
        *old(auth) matches Auth::TokenSource(TokenSource::Jwt { jwt })
            ==> (jwt.config_view().lifetime matches Some(l) ==> l.wf()),
        now.secs + 3601 < u64::MAX,
    ensures
        match *old(auth) {
            Auth::ApiKey(k) => {
                &&& *final(auth) == *old(auth)
                &&& header_value_ok(k@) ==> (r matches Ok((n, v)) && n@ == api_key_header() && v@ == k@)
                &&& !header_value_ok(k@) ==> r matches Err(Error::InvalidHeader)
            },
            Auth::TokenSource(TokenSource::Jwt { jwt }) => {
                &&& *final(auth) matches Auth::TokenSource(TokenSource::Jwt { jwt: j2 })
                    && j2.config_view() == jwt.config_view()
                    && (r matches Ok((n, v)) ==> n@ == auth_header_name() && v@ == j2.token_view())
                &&& now.lt(jwt.expiry_view()) ==> (r matches Ok((_, v)) && v@ == jwt.token_view())
                &&& !now.lt(jwt.expiry_view()) && !max_token_lifetime().lt(lifetime_of(jwt.config_view())) ==> match jwt.token_at(now) {
                    Some(t) => r matches Ok((_, v)) && v@ == "Bearer "@ + t,
                    None => r matches Err(Error::TokenGeneration(_)),
                }
                &&& !now.lt(jwt.expiry_view()) && max_token_lifetime().lt(lifetime_of(jwt.config_view()))
                    ==> r matches Err(Error::InvalidLifetime)
            },
        },
{
    match auth {
        Auth::ApiKey(key) => {
            if is_metadata_value(key.as_str()) {
                Ok(("x-goog-api-key".to_owned(), key.clone()))
            } else {
                Err(Error::InvalidHeader)
            }
        },
        Auth::TokenSource(TokenSource::Jwt { jwt }) => {
            match jwt.get_token(now) {
                Ok(t) => Ok(("authorization".to_owned(), t)),
                Err(e) => Err(e),
            }
        },
    }
}

} // verus!
