//! The bearer-token gate: where the shared secret comes from, and how a
//! presented credential is held against it.

use crate::text::{bytes_eq, digit_char, lemma_encode_concat, lemma_same_bytes_same_chars, trim, trimmed};
use rand::Rng;
use vstd::prelude::*;
use vstd::string::*;
use vstd::utf8::*;

verus! {

/// The number of random bytes in a generated secret.
pub const TOKEN_BYTES: usize = 32;

/// The character that writes the hexadecimal digit `n` in lower case.
pub open spec fn hex_digit(n: int) -> char {
    if n < 10 {
        digit_char(n as nat)
    } else if n == 10 {
        'a'
    } else if n == 11 {
        'b'
    } else if n == 12 {
        'c'
    } else if n == 13 {
        'd'
    } else if n == 14 {
        'e'
    } else {
        'f'
    }
}

/// The bytes in hexadecimal: two lower-case digits for each byte, the high
/// half first.
pub open spec fn hex_chars(bytes: Seq<u8>) -> Seq<char> {
    Seq::new(
        2 * bytes.len(),
        |i: int|
            if i % 2 == 0 {
                hex_digit(bytes[i / 2] as int / 16)
            } else {
                hex_digit(bytes[i / 2] as int % 16)
            },
    )
}

/// One byte from the thread's random number generator.
///
/// Trusted: calls `rand::thread_rng` and `Rng::gen`. Nothing is claimed of
/// the byte.
#[verifier::external_body]
fn random_byte() -> u8 {
    rand::thread_rng().gen()
}

/// The bytes in hexadecimal.
///
/// Trusted: calls `hex::encode`, which writes each byte as two lower-case
/// hexadecimal digits, the high half first.
#[verifier::external_body]
fn hex_encode(bytes: &[u8]) -> (r: String)
    ensures
        r@ == hex_chars(bytes@),
{
    hex::encode(bytes)
}

/// Whether the text is the hexadecimal form of `TOKEN_BYTES` bytes.
pub open spec fn is_generated_token(token: Seq<char>) -> bool {
    exists|bytes: Seq<u8>| bytes.len() == TOKEN_BYTES && token == #[trigger] hex_chars(bytes)
}

/// A new random secret: 32 random bytes in hexadecimal, 64 characters long.
pub fn generate_secure_token() -> (r: String)
    ensures
        is_generated_token(r@),
        r@.len() == 2 * TOKEN_BYTES,
{
    let mut bytes: Vec<u8> = Vec::new();
    while bytes.len() < TOKEN_BYTES
        invariant
            bytes@.len() <= TOKEN_BYTES,
        decreases TOKEN_BYTES - bytes@.len(),
    {
        bytes.push(random_byte());
    }
    hex_encode(bytes.as_slice())
}

/// Whether the bytes of `presented` from `start` on are the bytes of
/// `expected`.
///
/// The lengths are compared first. Where they agree, every pair of bytes is
/// compared, whether or not an earlier pair differed, so that the time taken
/// does not tell where the first difference lies.
pub fn constant_time_eq_at(presented: &[u8], start: usize, expected: &[u8]) -> (r: bool)
    requires
        start <= presented@.len(),
    ensures
        r == (presented@.subrange(start as int, presented@.len() as int) == expected@),
{
    let ghost tail = presented@.subrange(start as int, presented@.len() as int);
    if presented.len() - start != expected.len() {
        return false;
    }
    let total: usize = presented.len();
    let mut diff: u8 = 0;
    let mut i: usize = 0;
    while i < expected.len()
        invariant
            total == presented@.len(),
            start + expected@.len() == presented@.len(),
            tail == presented@.subrange(start as int, presented@.len() as int),
            0 <= i <= expected@.len(),
            diff == 0 <==> forall|k: int| 0 <= k < i ==> tail[k] == expected@[k],
        decreases expected@.len() - i,
    {
        let x: u8 = presented[start + i];
        let y: u8 = expected[i];
        let ghost before = diff;
        assert(tail[i as int] == x);
        assert(((before | (x ^ y)) == 0u8) <==> (before == 0u8 && x == y)) by (bit_vector);
        diff = diff | (x ^ y);
        i += 1;
    }
    if diff == 0 {
        assert(tail =~= expected@);
    }
    diff == 0
}

/// Whether the presented credential is the expected secret, compared in
/// time that does not depend on where the two differ.
pub fn validate(credential: &str, expected: &str) -> (r: bool)
    ensures
        r == (credential@ == expected@),
        encode_utf8(credential@).len() != encode_utf8(expected@).len() ==> !r,
        (exists|i: int|
            0 <= i < encode_utf8(expected@).len() && i < encode_utf8(credential@).len()
                && encode_utf8(credential@)[i] != encode_utf8(expected@)[i]) ==> !r,
{
    proof {
        lemma_same_bytes_same_chars(credential@, expected@);
    }
    let presented = credential.as_bytes();
    assert(presented@.subrange(0, presented@.len() as int) =~= presented@);
    constant_time_eq_at(presented, 0, expected.as_bytes())
}

/// The part of a request's headers that authorisation depends on.
#[derive(Clone, Debug)]
pub struct RequestHeaders {
    /// The value of the `authorization` header, where the request has one
    /// that is text.
    pub authorization: Option<String>,
}

/// The value of the `authorization` header that carries the token.
pub open spec fn bearer(token: Seq<char>) -> Seq<char> {
    "Bearer "@ + token
}

/// Whether the request is authorised: it carries the expected secret as a
/// bearer token. A request is refused where the secret could not be
/// resolved.
pub open spec fn authorized(headers: RequestHeaders, expected: Result<String, String>) -> bool {
    match (headers.authorization, expected) {
        (Some(value), Ok(token)) => value@ == bearer(token@),
        _ => false,
    }
}

/// Holds the `authorization` header of a request against the expected
/// secret. The token is compared in constant time.
pub fn validate_auth_header(headers: &RequestHeaders, expected: &Result<String, String>) -> (r:
    bool)
    ensures
        r == authorized(*headers, *expected),
{
    let token = match expected {
        Ok(token) => token,
        Err(_) => {
            return false;
        },
    };
    let value = match &headers.authorization {
        Some(value) => value,
        None => {
            return false;
        },
    };
    let prefix = "Bearer ".as_bytes();
    let presented = value.as_str().as_bytes();
    proof {
        lemma_encode_concat("Bearer "@, token@);
        lemma_same_bytes_same_chars(value@, bearer(token@));
    }
    let secret = token.as_str().as_bytes();
    let ghost whole = prefix@ + secret@;
    if presented.len() < prefix.len() {
        assert(presented@ != whole);
        return false;
    }
    let n: usize = prefix.len();
    let (head, _rest) = presented.split_at(n);
    if !bytes_eq(head, prefix) {
        assert(whole.subrange(0, n as int) =~= prefix@);
        return false;
    }
    let same = constant_time_eq_at(presented, n, secret);
    proof {
        let rest = presented@.subrange(n as int, presented@.len() as int);
        assert(presented@ =~= head@ + rest);
        if rest == secret@ {
            assert(presented@ =~= whole);
        }
        if presented@ == whole {
            assert(rest =~= secret@);
        }
    }
    same
}

/// Where a secret came from.
#[derive(Clone, Copy, Debug, PartialEq, Eq, Structural)]
pub enum TokenOrigin {
    /// It was already held in memory.
    Cache,
    /// The environment overrides the file.
    Environment,
    /// It was read from the token file.
    File,
    /// No secret existed, and a new one was generated. It has yet to be
    /// written to the token file.
    Generated,
}

/// The expected secret and where it came from.
#[derive(Debug)]
pub struct ResolvedToken {
    pub token: String,
    pub origin: TokenOrigin,
}

/// What is known of the secret before it is resolved.
#[derive(Debug)]
pub struct TokenSources {
    /// The secret held in memory, if one was resolved before.
    pub cached: Option<String>,
    /// The secret that the environment sets, if it sets one.
    pub env_override: Option<String>,
    /// What the token file holds: nothing where there is no file, and an
    /// error where the file could not be found or read.
    pub file: Result<Option<String>, String>,
}

/// What is to be done to have a secret.
#[derive(Debug)]
pub enum TokenChoice {
    /// A secret exists.
    Use(ResolvedToken),
    /// None exists: a new one is to be generated.
    Generate,
    /// The sources could not be read.
    Fail(String),
}

/// How the sources are ranked: the secret in memory, then the one of the
/// environment, then the one in the file unless it is empty. A file that
/// cannot be read is a failure, and without any secret one is generated.
pub open spec fn token_choice(
    cached: Option<String>,
    env_override: Option<String>,
    file_token: Result<Option<String>, String>,
    r: TokenChoice,
) -> bool {
    match cached {
        Some(c) => r matches TokenChoice::Use(t) && t.token@ == c@ && t.origin
            == TokenOrigin::Cache,
        None => match env_override {
            Some(e) => r matches TokenChoice::Use(t) && t.token@ == e@ && t.origin
                == TokenOrigin::Environment,
            None => match file_token {
                Err(m) => r matches TokenChoice::Fail(x) && x@ == m@,
                Ok(Some(f)) => if f@.len() > 0 {
                    r matches TokenChoice::Use(t) && t.token@ == f@ && t.origin
                        == TokenOrigin::File
                } else {
                    r is Generate
                },
                Ok(None) => r is Generate,
            },
        },
    }
}

/// Picks the secret from its sources. `file_token` is what the token file
/// holds, without the white space around it.
pub fn choose_token(
    cached: Option<String>,
    env_override: Option<String>,
    file_token: Result<Option<String>, String>,
) -> (r: TokenChoice)
    ensures
        token_choice(cached, env_override, file_token, r),
{
    match cached {
        Some(c) => TokenChoice::Use(ResolvedToken { token: c, origin: TokenOrigin::Cache }),
        None => match env_override {
            Some(e) => TokenChoice::Use(
                ResolvedToken { token: e, origin: TokenOrigin::Environment },
            ),
            None => match file_token {
                Err(m) => TokenChoice::Fail(m),
                Ok(Some(f)) => {
                    if f.as_str().is_empty() {
                        TokenChoice::Generate
                    } else {
                        TokenChoice::Use(ResolvedToken { token: f, origin: TokenOrigin::File })
                    }
                },
                Ok(None) => TokenChoice::Generate,
            },
        },
    }
}

/// What resolving the secret gives: as `token_choice` ranks the sources,
/// with the file read without the white space around it, and with a newly
/// generated secret where none exists.
pub open spec fn token_resolution(sources: TokenSources, r: Result<ResolvedToken, String>) -> bool {
    match sources.cached {
        Some(c) => r matches Ok(t) && t.token@ == c@ && t.origin == TokenOrigin::Cache,
        None => match sources.env_override {
            Some(e) => r matches Ok(t) && t.token@ == e@ && t.origin == TokenOrigin::Environment,
            None => match sources.file {
                Err(m) => r matches Err(x) && x@ == m@,
                Ok(Some(f)) => if trimmed(f@).len() > 0 {
                    r matches Ok(t) && t.token@ == trimmed(f@) && t.origin == TokenOrigin::File
                } else {
                    r matches Ok(t) && is_generated_token(t.token@) && t.origin
                        == TokenOrigin::Generated
                },
                Ok(None) => r matches Ok(t) && is_generated_token(t.token@) && t.origin
                    == TokenOrigin::Generated,
            },
        },
    }
}

/// Resolves the expected secret from its sources, generating a new one
/// where none exists.
///
/// The caller keeps in memory what is returned, and writes a generated
/// secret to the token file.
pub fn get_or_create_auth_token(sources: TokenSources) -> (r: Result<ResolvedToken, String>)
    ensures
        token_resolution(sources, r),
{
    let file_token: Result<Option<String>, String> = match &sources.file {
        Ok(Some(content)) => Ok(Some(trim(content.as_str()).to_string())),
        Ok(None) => Ok(None),
        Err(m) => Err(m.clone()),
    };
    match choose_token(sources.cached, sources.env_override, file_token) {
        TokenChoice::Use(t) => Ok(t),
        TokenChoice::Generate => Ok(
            ResolvedToken { token: generate_secure_token(), origin: TokenOrigin::Generated },
        ),
        TokenChoice::Fail(m) => Err(m),
    }
}

} // verus!
