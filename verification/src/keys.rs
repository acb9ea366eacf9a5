//! The outside types that key handling and token signing deal in.
use vstd::prelude::*;
use rsa::pkcs1::Error as Pkcs1Error;
use rsa::pkcs8::Error as Pkcs8Error;
use serde_json::Error as JsonError;

verus! {

/// An RSA private key.
#[verifier::external_type_specification]
#[verifier::external_body]
pub struct ExRsaPrivateKey(rsa::RsaPrivateKey);

/// An error of PKCS#1 key decoding.
#[verifier::external_type_specification]
#[verifier::external_body]
pub struct ExPkcs1Error(Pkcs1Error);

/// An error of PKCS#8 key decoding.
#[verifier::external_type_specification]
#[verifier::external_body]
pub struct ExPkcs8Error(Pkcs8Error);

/// An error of PEM parsing.
#[verifier::external_type_specification]
#[verifier::external_body]
pub struct ExPemError(pem::PemError);

/// An error of JSON parsing or writing.
#[verifier::external_type_specification]
#[verifier::external_body]
pub struct ExJsonError(JsonError);

/// A clock reading before the Unix epoch.
#[verifier::external_type_specification]
#[verifier::external_body]
pub struct ExSystemTimeError(std::time::SystemTimeError);

} // verus!
