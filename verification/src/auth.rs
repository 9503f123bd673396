//! Bearer tokens and the interceptor that checks them on every inbound call.

use tonic::metadata::errors::InvalidMetadataValue;
use tonic::metadata::{Ascii, MetadataValue};
use uuid::Uuid;
use vstd::prelude::*;
use vstd::string::*;
use vstd::utf8::*;

verus! {

/// `tonic::metadata::errors::InvalidMetadataValue`, the error of a refused
/// header value, carried through as an opaque value.
#[verifier::external_type_specification]
#[verifier::external_body]
pub struct ExInvalidMetadataValue(tonic::metadata::errors::InvalidMetadataValue);

// ---------------------------------------------------------------------------
// What a token may look like
// ---------------------------------------------------------------------------

/// A character that may stand in the text of a request header: the tab, or
/// anything from the space upwards except the delete character.
pub open spec fn is_header_char(c: char) -> bool {
    c == '\t' || (c as u32 >= 0x20 && c as u32 != 0x7F)
}

/// Text that can travel as the value of a request header.
pub open spec fn is_header_text(s: Seq<char>) -> bool {
    forall|i: int| 0 <= i < s.len() ==> is_header_char(#[trigger] s[i])
}

/// A token that an interceptor can be built on: not empty, and fit for a
/// header.
pub open spec fn valid_token(s: Seq<char>) -> bool {
    s.len() > 0 && is_header_text(s)
}

/// A lower-case hexadecimal digit.
pub open spec fn is_lower_hex(c: char) -> bool {
    ('0' <= c && c <= '9') || ('a' <= c && c <= 'f')
}

/// A position of a hyphen in the 36-character notation of a UUID.
pub open spec fn is_hyphen_position(i: int) -> bool {
    i == 8 || i == 13 || i == 18 || i == 23
}

/// The hyphenated lower-case notation of a version 4 (random) UUID:
/// `xxxxxxxx-xxxx-4xxx-yxxx-xxxxxxxxxxxx`, where `y` is one of `8 9 a b`.
pub open spec fn is_uuid_text(s: Seq<char>) -> bool {
    &&& s.len() == 36
    &&& forall|i: int|
        0 <= i < 36 ==> if is_hyphen_position(i) {
            #[trigger] s[i] == '-'
        } else {
            is_lower_hex(s[i])
        }
    &&& s[14] == '4'
    &&& (s[19] == '8' || s[19] == '9' || s[19] == 'a' || s[19] == 'b')
}

/// A valid token contains neither a line feed nor a carriage return, so it
/// occupies exactly one line wherever it is written out.
pub proof fn lemma_valid_token_single_line(s: Seq<char>)
    requires
        valid_token(s),
    ensures
        s.len() > 0,
        forall|i: int| 0 <= i < s.len() ==> s[i] != '\n' && s[i] != '\r',
{
    assert forall|i: int| 0 <= i < s.len() implies s[i] != '\n' && s[i] != '\r' by {
        assert(is_header_char(s[i]));
    }
}

/// Every freshly generated identifier is a valid token.
pub proof fn lemma_uuid_text_is_valid_token(s: Seq<char>)
    requires
        is_uuid_text(s),
    ensures
        valid_token(s),
{
    assert forall|i: int| 0 <= i < s.len() implies is_header_char(#[trigger] s[i]) by {
        if is_hyphen_position(i) {
            assert(s[i] == '-');
        } else {
            assert(is_lower_hex(s[i]));
        }
    }
}

/// Two texts have the same UTF-8 bytes only if they are the same text: an
/// interceptor that compares bytes admits the expected token and no other
/// string.
pub proof fn lemma_same_bytes_same_text(a: Seq<char>, b: Seq<char>)
    ensures
        encode_utf8(a) == encode_utf8(b) <==> a == b,
{
    encode_utf8_decode_utf8(a);
    encode_utf8_decode_utf8(b);
}

// ---------------------------------------------------------------------------
// Trusted boundary
// ---------------------------------------------------------------------------

/// Draws a fresh random identifier.
///
/// Trusted: calls `uuid::Uuid::new_v4` and renders the result with its
/// `Display` impl. Claimed of every outcome: the text is the 36-character
/// hyphenated lower-case form, with the version digit `4` and a variant digit
/// among `8 9 a b`. Nothing is claimed about which identifier comes out.
/// The call aborts the process if the operating system cannot supply random
/// bytes.
#[verifier::external_body]
pub(crate) fn fresh_uuid() -> (id: String)
    ensures
        is_uuid_text(id@),
{
    Uuid::new_v4().to_string()
}

/// Asks the RPC library whether `token` can be a header value.
///
/// Trusted: calls `<tonic::metadata::MetadataValue<Ascii> as FromStr>::from_str`
/// and drops the value. That function accepts a string exactly when each of
/// its bytes is a tab, or at least 32 and not 127. A character below U+0080
/// is encoded as the byte of the same value and every other character as
/// bytes of 128 and more, so the condition on bytes is stated here on
/// characters.
#[verifier::external_body]
fn parse_metadata_value(token: &str) -> (r: Result<(), InvalidMetadataValue>)
    ensures
        r is Ok <==> is_header_text(token@),
{
    match token.parse::<MetadataValue<Ascii>>() {
        Ok(_) => Ok(()),
        Err(e) => Err(e),
    }
}

// ---------------------------------------------------------------------------
// The interceptor
// ---------------------------------------------------------------------------

/// Why an interceptor refused.
#[derive(Debug, Clone, Copy, PartialEq, Eq, Structural)]
pub enum AuthError {
    /// The token an interceptor was to be built on is empty or cannot be a
    /// header value.
    InvalidToken,
    /// A call carried no token, or one that is not the expected token.
    Unauthenticated,
}

impl AuthError {
    /// The text reported to the peer.
    pub open spec fn message_text(self) -> Seq<char> {
        match self {
            AuthError::InvalidToken => "Invalid auth token format"@,
            AuthError::Unauthenticated => "No valid auth token"@,
        }
    }

    /// The text reported to the peer. It never reveals the expected token.
    pub fn message(&self) -> (s: &'static str)
        ensures
            s@ == self.message_text(),
    {
        match self {
            AuthError::InvalidToken => "Invalid auth token format",
            AuthError::Unauthenticated => "No valid auth token",
        }
    }
}

/// Draws a fresh token: a random identifier, and as such a valid token that
/// fits on one line.
pub fn generate_auth_token() -> (token: String)
    ensures
        is_uuid_text(token@),
        valid_token(token@),
{
    let token = fresh_uuid();
    proof {
        lemma_uuid_text_is_valid_token(token@);
    }
    token
}

/// Tells whether `token` is present at all, which is all that is asked of a
/// token read from the parent process.
pub fn validate_auth_token(token: &str) -> (ok: bool)
    ensures
        ok == (token@.len() > 0),
{
    !token.is_empty()
}

/// Tells whether an interceptor can be built on `token`.
pub fn is_valid_token(token: &str) -> (ok: bool)
    ensures
        ok == valid_token(token@),
{
    if !validate_auth_token(token) {
        return false;
    }
    match parse_metadata_value(token) {
        Ok(_) => true,
        Err(_) => false,
    }
}

/// Compares two byte strings.
pub fn bytes_equal(a: &[u8], b: &[u8]) -> (same: bool)
    ensures
        same == (a@ == b@),
{
    if a.len() != b.len() {
        return false;
    }
    let n = a.len();
    let mut i: usize = 0;
    while i < n
        invariant
            i <= n,
            n == a@.len(),
            n == b@.len(),
            forall|k: int| 0 <= k < i ==> a@[k] == b@[k],
        decreases n - i,
    {
        if a[i] != b[i] {
            return false;
        }
        i = i + 1;
    }
    assert(a@ =~= b@);
    true
}

/// The interceptor in front of one RPC endpoint. It holds the one token that
/// the endpoint accepts, and that token is always a valid one.
#[derive(Debug)]
pub struct AuthInterceptor {
    expected_token: String,
}

impl AuthInterceptor {
    #[verifier::type_invariant]
    spec fn well_formed(self) -> bool {
        valid_token(self.expected_token@)
    }

    /// The token this interceptor expects.
    pub closed spec fn token(&self) -> Seq<char> {
        self.expected_token@
    }

    /// Builds the interceptor for `token_str`. Fails with `InvalidToken`
    /// exactly when the token is empty or holds a character that no header
    /// value may hold.
    pub fn new(token_str: String) -> (r: Result<Self, AuthError>)
        ensures
            valid_token(token_str@) ==> r is Ok && r->Ok_0.token() == token_str@,
            !valid_token(token_str@) ==> r is Err && r->Err_0 == AuthError::InvalidToken,
    {
        if is_valid_token(token_str.as_str()) {
            Ok(AuthInterceptor { expected_token: token_str })
        } else {
            Err(AuthError::InvalidToken)
        }
    }

    /// The token this interceptor expects.
    pub fn expected_token(&self) -> (t: &str)
        ensures
            t@ == self.token(),
            valid_token(t@),
    {
        proof {
            use_type_invariant(self);
        }
        self.expected_token.as_str()
    }

    /// Decides one inbound call from the value of its `authorization` header,
    /// `None` where the call carries none. The call is allowed exactly when
    /// the header's bytes are those of the expected token; in every other case
    /// it is rejected as `Unauthenticated`. The interceptor itself never
    /// changes.
    pub fn authenticate(&self, incoming: Option<&[u8]>) -> (r: Result<(), AuthError>)
        ensures
            r is Ok <==> (incoming is Some && incoming->0@ == encode_utf8(self.token())),
            r is Err ==> r->Err_0 == AuthError::Unauthenticated,
    {
        match incoming {
            Some(bytes) => {
                if bytes_equal(bytes, self.expected_token.as_str().as_bytes()) {
                    Ok(())
                } else {
                    Err(AuthError::Unauthenticated)
                }
            },
            None => Err(AuthError::Unauthenticated),
        }
    }
}

impl Clone for AuthInterceptor {
    /// A second interceptor for the same token.
    fn clone(&self) -> (other: Self)
        ensures
            other.token() == self.token(),
    {
        proof {
            use_type_invariant(self);
        }
        AuthInterceptor { expected_token: self.expected_token.clone() }
    }
}

} // verus!
