use argon2::{Argon2, PasswordHash, PasswordVerifier};
use uuid::Uuid;
use vstd::prelude::*;
use vstd::string::StringSliceAdditionalSpecFns;
use vstd::utf8::{decode_utf8, valid_utf8};

verus! {

/// argon2's parsed `PasswordHash`, held opaque between parsing and verifying.
#[verifier::external_type_specification]
#[verifier::external_body]
pub struct ExPasswordHash<'a>(PasswordHash<'a>);

/// std's `FromUtf8Error`, only ever discarded.
#[verifier::external_type_specification]
#[verifier::external_body]
pub struct ExFromUtf8Error(std::string::FromUtf8Error);

/// Relies on `String::from_utf8`: it succeeds exactly on valid UTF-8, and the
/// string then holds the characters that the bytes encode.
pub assume_specification[ String::from_utf8 ](vec: Vec<u8>) -> (r: Result<
    String,
    std::string::FromUtf8Error,
>)
    ensures
        r is Ok <==> valid_utf8(vec@),
        r matches Ok(s) ==> s@ == decode_utf8(vec@),
;

pub enum AuthError {
    InvalidCredentials(String),
    UnexpectedError(String),
}

/// A username and password, as given in a Basic authorization header.
pub struct Credentials {
    pub username: String,
    pub password: String,
}

/// `i` is the position of the first `:` in `s`.
pub open spec fn is_first_colon(s: Seq<char>, i: int) -> bool {
    &&& 0 <= i < s.len()
    &&& s[i] == ':'
    &&& forall|j: int| 0 <= j < i ==> s[j] != ':'
}

/// `user:password` split at its first colon; `None` when there is no colon.
pub open spec fn split_credentials(s: Seq<char>) -> Option<(Seq<char>, Seq<char>)> {
    if exists|i: int| is_first_colon(s, i) {
        let i = choose|i: int| is_first_colon(s, i);
        Some((s.take(i), s.skip(i + 1)))
    } else {
        None
    }
}

proof fn lemma_first_colon_unique(s: Seq<char>, i: int, k: int)
    requires
        is_first_colon(s, i),
        is_first_colon(s, k),
    ensures
        i == k,
{
    if i < k {
        assert(s[i] != ':');
    } else if k < i {
        assert(s[k] != ':');
    }
}

impl Credentials {
    /// Splits `user:password` at the first colon; the password may itself hold
    /// colons.
    pub fn parse(s: &str) -> (r: Result<Credentials, String>)
        ensures
            r is Ok <==> split_credentials(s@) is Some,
            r matches Ok(c) ==> split_credentials(s@) == Some((c.username@, c.password@)),
    {
        let n = s.unicode_len();
        let mut i: usize = 0;
        while i < n && s.get_char(i) != ':'
            invariant
                n == s@.len(),
                i <= n,
                forall|j: int| 0 <= j < i ==> s@[j] != ':',
            decreases n - i,
        {
            i = i + 1;
        }
        if i == n {
            proof {
                if exists|k: int| is_first_colon(s@, k) {
                    let k = choose|k: int| is_first_colon(s@, k);
                    assert(s@[k] != ':');
                }
            }
            return Err(String::from_str("A password must be provided for basic auth"));
        }
        proof {
            assert(is_first_colon(s@, i as int));
            let k = choose|k: int| is_first_colon(s@, k);
            lemma_first_colon_unique(s@, i as int, k);
        }
        let username = String::from_str(s.substring_char(0, i));
        let password = String::from_str(s.substring_char(i + 1, n));
        proof {
            assert(s@.subrange(i + 1, n as int) =~= s@.skip(i + 1));
            assert(s@.subrange(0, i as int) =~= s@.take(i as int));
        }
        Ok(Credentials { username, password })
    }
}

impl Credentials {
    /// Reads `user:password` from the bytes that the base64 of a Basic header
    /// decodes to.
    pub fn from_decoded(decoded: Vec<u8>) -> (r: Result<Credentials, String>)
        ensures
            r is Ok <==> valid_utf8(decoded@) && split_credentials(decode_utf8(decoded@)) is Some,
            r matches Ok(c) ==> split_credentials(decode_utf8(decoded@)) == Some(
                (c.username@, c.password@),
            ),
    {
        match String::from_utf8(decoded) {
            Err(_) => Err(String::from_str("The decoded credentials are not valid UTF-8")),
            Ok(text) => Credentials::parse(text.as_str()),
        }
    }
}

impl std::str::FromStr for Credentials {
    type Err = String;

    fn from_str(s: &str) -> Result<Credentials, String> {
        Credentials::parse(s)
    }
}

/// What base64's standard alphabet, with padding, decodes `s` to; `None` when
/// `s` is not such an encoding.
pub uninterp spec fn base64_standard_decoding(s: Seq<u8>) -> Option<Seq<u8>>;

/// Relies on base64::decode_config with `base64::STANDARD`: the decoded bytes,
/// or an error, depending on the input bytes alone. It panics only when the
/// length plus 3 overflows.
#[verifier::external_body]
fn decode_base64(input: &[u8]) -> (r: Option<Vec<u8>>)
    requires
        input@.len() + 3 <= usize::MAX,
    ensures
        r is Some <==> base64_standard_decoding(input@) is Some,
        r matches Some(v) ==> base64_standard_decoding(input@) == Some(v@),
{
    base64::decode_config(input, base64::STANDARD).ok()
}

/// A byte that a header value may hold and still read as text.
pub open spec fn is_visible_ascii(b: u8) -> bool {
    (32 <= b < 127) || b == 9
}

/// The bytes of `Basic `.
pub open spec fn basic_scheme() -> Seq<u8> {
    seq![66u8, 97u8, 115u8, 105u8, 99u8, 32u8]
}

/// The username and password that an `Authorization` header carries, if it is
/// present, readable as text, of the Basic scheme, and encodes `user:password`
/// in base64 and UTF-8.
pub open spec fn basic_credentials(header: Option<Seq<u8>>) -> Option<(Seq<char>, Seq<char>)> {
    match header {
        None => None,
        Some(h) => if (forall|i: int| 0 <= i < h.len() ==> is_visible_ascii(#[trigger] h[i]))
            && h.len() >= 6 && h.take(6) == basic_scheme() {
            match base64_standard_decoding(h.skip(6)) {
                None => None,
                Some(bytes) => if valid_utf8(bytes) {
                    split_credentials(decode_utf8(bytes))
                } else {
                    None
                },
            }
        } else {
            None
        },
    }
}

pub open spec fn header_bytes(header: Option<&[u8]>) -> Option<Seq<u8>> {
    match header {
        Some(h) => Some(h@),
        None => None,
    }
}

/// Reads the credentials of a Basic `Authorization` header, given as raw bytes.
pub fn basic_authentication(header: Option<&[u8]>) -> (r: Result<Credentials, String>)
    ensures
        r is Ok <==> basic_credentials(header_bytes(header)) is Some,
        r matches Ok(c) ==> basic_credentials(header_bytes(header)) == Some(
            (c.username@, c.password@),
        ),
{
    let h = match header {
        None => {
            return Err(String::from_str("The Authorization header is missing"));
        },
        Some(h) => h,
    };
    assert(header_bytes(header) == Some(h@));
    let n = h.len();
    let mut i: usize = 0;
    while i < n
        invariant
            n == h@.len(),
            i <= n,
            header_bytes(header) == Some(h@),
            forall|j: int| 0 <= j < i ==> is_visible_ascii(#[trigger] h@[j]),
        decreases n - i,
    {
        let b = h[i];
        if !((32 <= b && b < 127) || b == 9) {
            proof {
                assert(!is_visible_ascii(h@[i as int]));
                assert(!(forall|j: int| 0 <= j < h@.len() ==> is_visible_ascii(#[trigger] h@[j])));
                assert(basic_credentials(Some(h@)) is None);
            }
            return Err(String::from_str("The Authorization header is not a valid string"));
        }
        i = i + 1;
    }
    if n < 6 || h[0] != 66 || h[1] != 97 || h[2] != 115 || h[3] != 105 || h[4] != 99 || h[5]
        != 32 {
        proof {
            if n >= 6 && h@.take(6) == basic_scheme() {
                assert(h@.take(6)[0] == h@[0]);
                assert(h@.take(6)[1] == h@[1]);
                assert(h@.take(6)[2] == h@[2]);
                assert(h@.take(6)[3] == h@[3]);
                assert(h@.take(6)[4] == h@[4]);
                assert(h@.take(6)[5] == h@[5]);
            }
        }
        return Err(String::from_str("The authorization scheme was not Basic"));
    }
    proof {
        assert(h@.take(6) =~= basic_scheme());
    }
    let segment = vstd::slice::slice_subrange(h, 6, n);
    proof {
        assert(segment@ =~= h@.skip(6));
    }
    match decode_base64(segment) {
        None => Err(String::from_str("Failed to decode the base64 credentials")),
        Some(decoded) => Credentials::from_decoded(decoded),
    }
}

/// Whether `s` parses as a PHC password-hash string.
pub uninterp spec fn phc_decodes(s: Seq<char>) -> bool;

/// Whether Argon2 accepts `password` for the PHC string `phc`: the hash of the
/// password, recomputed with the algorithm, version, parameters and salt that
/// `phc` records, equals the hash it holds.
pub uninterp spec fn argon2_accepts(phc: Seq<char>, password: Seq<u8>) -> bool;

/// Relies on argon2's `PasswordHash::new`: it parses a PHC string, or fails,
/// depending on the string alone.
#[verifier::external_body]
fn decode_phc(s: &str) -> (r: Option<PasswordHash<'_>>)
    ensures
        r is Some <==> phc_decodes(s@),
{
    PasswordHash::new(s).ok()
}

/// A PHC string together with the hash parsed from it; only `decode` builds one.
pub struct ExpectedHash<'a> {
    phc: &'a str,
    parsed: PasswordHash<'a>,
}

impl<'a> ExpectedHash<'a> {
    pub closed spec fn phc(&self) -> Seq<char> {
        self.phc@
    }

    pub fn decode(phc: &'a str) -> (r: Option<ExpectedHash<'a>>)
        ensures
            r is Some <==> phc_decodes(phc@),
            r matches Some(h) ==> h.phc() == phc@,
    {
        match decode_phc(phc) {
            Some(parsed) => Some(ExpectedHash { phc, parsed }),
            None => None,
        }
    }
}

/// Relies on argon2's `PasswordVerifier::verify_password` for `Argon2::default()`,
/// which hashes `password` with the parameters and salt of the parsed hash and
/// compares; the parsed hash is the one decoded from `expected.phc()`.
#[verifier::external_body]
fn argon2_verify(expected: &ExpectedHash<'_>, password: &[u8]) -> (r: bool)
    ensures
        r == argon2_accepts(expected.phc(), password@),
{
    Argon2::default().verify_password(password, &expected.parsed).is_ok()
}

/// The expensive check: does `password_candidate` match the stored hash? A hash
/// that does not parse counts as a mismatch, so neither can be told apart.
pub fn verify_password(expected_password_hash: &str, password_candidate: &str) -> (r: Result<
    (),
    AuthError,
>)
    ensures
        r is Ok <==> phc_decodes(expected_password_hash@) && argon2_accepts(
            expected_password_hash@,
            password_candidate.spec_bytes(),
        ),
        r matches Err(e) ==> e is InvalidCredentials,
{
    let expected = match ExpectedHash::decode(expected_password_hash) {
        Some(h) => h,
        None => {
            return Err(
                AuthError::InvalidCredentials(
                    String::from_str("The stored password hash is not a PHC string"),
                ),
            );
        },
    };
    if argon2_verify(&expected, password_candidate.as_bytes()) {
        Ok(())
    } else {
        Err(AuthError::InvalidCredentials(String::from_str("Password verification failed")))
    }
}

/// A well-formed Argon2id hash that no password is known to match. It stands in
/// for the stored hash of an unknown user, so that such a request costs as much
/// as one for a known user.
pub const DECOY_PASSWORD_HASH: &'static str =
    "$argon2id$v=19$m=15000,t=2,p=1$gZiV/M1gPc22ElAH/Jh1Hw$CWOrkoo7oJBQ/iyh7uJ0LO2aLEfrHwTWllSAxT0zRno";

pub fn default_decoy_hash() -> (r: String)
    ensures
        r@ == DECOY_PASSWORD_HASH@,
{
    String::from_str(DECOY_PASSWORD_HASH)
}

/// The user, if any, and the hash that the password is to be checked against:
/// the stored hash for a known user, else the decoy, so that the check always
/// runs.
pub fn expected_credentials(stored: Option<(Uuid, String)>, decoy: &str) -> (r: (
    Option<Uuid>,
    String,
))
    ensures
        stored matches Some((id, h)) ==> r.0 == Some(id) && r.1@ == h@,
        stored is None ==> r.0 is None && r.1@ == decoy@,
{
    match stored {
        Some((id, h)) => (Some(id), h),
        None => (None, String::from_str(decoy)),
    }
}

/// How validating credentials ends.
pub enum AuthVerdict {
    Authenticated(Uuid),
    Rejected,
    Failed,
}

/// The verdict once the password check ran (`Some`, with whether it passed) or
/// could not run (`None`): only a known user whose password matched gets in.
pub open spec fn auth_verdict(user_id: Option<Uuid>, check: Option<bool>) -> AuthVerdict {
    match check {
        None => AuthVerdict::Failed,
        Some(false) => AuthVerdict::Rejected,
        Some(true) => match user_id {
            Some(id) => AuthVerdict::Authenticated(id),
            None => AuthVerdict::Rejected,
        },
    }
}

pub open spec fn verdict_of(r: Result<Uuid, AuthError>) -> AuthVerdict {
    match r {
        Ok(id) => AuthVerdict::Authenticated(id),
        Err(AuthError::InvalidCredentials(_)) => AuthVerdict::Rejected,
        Err(AuthError::UnexpectedError(_)) => AuthVerdict::Failed,
    }
}

/// What the password check told: `Some(true)` it passed, `Some(false)` the
/// credentials were refused, `None` it could not be carried out.
pub open spec fn check_outcome(check: Result<Result<(), AuthError>, String>) -> Option<bool> {
    match check {
        Ok(Ok(())) => Some(true),
        Ok(Err(AuthError::InvalidCredentials(_))) => Some(false),
        _ => None,
    }
}

/// Ends the validation: `check` is the result of `verify_password`, or the
/// reason the worker could not run it.
pub fn credentials_verdict(user_id: Option<Uuid>, check: Result<Result<(), AuthError>, String>) -> (r:
    Result<Uuid, AuthError>)
    ensures
        verdict_of(r) == auth_verdict(user_id, check_outcome(check)),
{
    match check {
        Err(msg) => Err(AuthError::UnexpectedError(msg)),
        Ok(Err(e)) => Err(e),
        Ok(Ok(())) => match user_id {
            Some(id) => Ok(id),
            None => Err(AuthError::InvalidCredentials(String::from_str("Unknown username."))),
        },
    }
}

} // verus!
