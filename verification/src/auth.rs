//! Admission to the advertisement: the credentials are taken out of an
//! `Authorization` header of the Basic scheme, or the reason is given why
//! they cannot be. Only the form of the header counts here, never whom the
//! credentials belong to.

use vstd::prelude::*;
use vstd::slice::slice_subrange;
use vstd::string::*;
use vstd::utf8::*;
use crate::text::{ascii_bytes, ascii_bytes_of, has_prefix, starts_with};

verus! {

/// Why a request was not admitted.
#[derive(Clone, Copy, Debug, PartialEq, Eq, Structural)]
pub enum AuthError {
    /// There is no `Authorization` header, or it is not of the Basic scheme:
    /// the client is challenged and may try again.
    AuthMissing,
    /// The header is of the Basic scheme, but what follows the scheme is not
    /// the base64 of `username:password`: the request is rejected.
    AuthMalformed,
}

/// A username and a password as plain text.
pub struct CredentialsView {
    pub username: Seq<char>,
    pub password: Seq<char>,
}

/// The username and password that a request carried. Both are non-empty and
/// neither holds a `:`. There is no `Debug` for them: they do not belong in a
/// log.
pub struct Credentials {
    username: String,
    password: String,
}

impl View for Credentials {
    type V = CredentialsView;

    closed spec fn view(&self) -> CredentialsView {
        CredentialsView { username: self.username@, password: self.password@ }
    }
}

/// The scheme token that opens the header's value: `Basic` and one space.
pub open spec fn scheme() -> Seq<u8> {
    ascii_bytes("Basic "@)
}

/// What `base64::Engine::decode` makes of `encoded` on the engine
/// `base64::engine::general_purpose::STANDARD`, which reads the standard
/// alphabet and asks for canonical padding: the decoded bytes, or `None`
/// where it reports an error.
pub uninterp spec fn standard_decoding(encoded: Seq<u8>) -> Option<Seq<u8>>;

/// Whether `at` is the place of the one separator of `text`, with text on
/// both sides of it.
pub open spec fn splits_at(text: Seq<char>, at: int) -> bool {
    &&& 0 < at < text.len() - 1
    &&& text[at] == ':'
    &&& forall|j: int| 0 <= j < text.len() && j != at ==> text[j] != ':'
}

/// The pair that `text` spells as `username:password`: there is exactly one
/// `:`, and neither side of it is empty.
pub open spec fn pair_in(text: Seq<char>) -> Option<CredentialsView> {
    if exists|at: int| splits_at(text, at) {
        let at = choose|at: int| splits_at(text, at);
        Some(CredentialsView { username: text.take(at), password: text.skip(at + 1) })
    } else {
        None
    }
}

/// The credentials that decoded header bytes hold: the bytes are UTF-8 and
/// their text is a pair.
pub open spec fn credentials_in(decoded: Seq<u8>) -> Result<CredentialsView, AuthError> {
    if valid_utf8(decoded) && pair_in(decode_utf8(decoded)) is Some {
        Ok(pair_in(decode_utf8(decoded))->0)
    } else {
        Err(AuthError::AuthMalformed)
    }
}

/// The value of a header as the sequence of its bytes.
pub open spec fn value_of(header: Option<&[u8]>) -> Option<Seq<u8>> {
    match header {
        Some(value) => Some(value@),
        None => None,
    }
}

/// What the value of the `Authorization` header admits, `None` standing for
/// a request without that header.
pub open spec fn admission(authorization: Option<Seq<u8>>) -> Result<CredentialsView, AuthError> {
    match authorization {
        None => Err(AuthError::AuthMissing),
        Some(value) => if !has_prefix(value, scheme()) {
            Err(AuthError::AuthMissing)
        } else {
            match standard_decoding(value.skip(scheme().len() as int)) {
                None => Err(AuthError::AuthMalformed),
                Some(decoded) => credentials_in(decoded),
            }
        },
    }
}

/// The view of the result of an admission.
pub open spec fn outcome_view(outcome: Result<Credentials, AuthError>) -> Result<
    CredentialsView,
    AuthError,
> {
    match outcome {
        Ok(credentials) => Ok(credentials@),
        Err(error) => Err(error),
    }
}

/// `base64::DecodeError`, which says why a decoding failed. It is passed
/// on and never looked into.
#[verifier::external_type_specification]
#[verifier::external_body]
pub struct ExDecodeError(base64::DecodeError);

/// `base64::Engine::decode` on `base64::engine::general_purpose::STANDARD`.
/// The engine is a constant and the decoding reads nothing but its input,
/// so the outcome is a function of `encoded`: `standard_decoding` names it,
/// with `None` for every error. Nothing more is claimed of it.
#[verifier::external_body]
fn decode_standard(encoded: &[u8]) -> (decoded: Result<Vec<u8>, base64::DecodeError>)
    ensures
        standard_decoding(encoded@) == match decoded {
            Ok(bytes) => Some(bytes@),
            Err(_) => None::<Seq<u8>>,
        },
{
    base64::Engine::decode(&base64::engine::general_purpose::STANDARD, encoded)
}

/// `std::string::FromUtf8Error`, which says where bytes stop being UTF-8.
/// It is passed on and never looked into.
#[verifier::external_type_specification]
#[verifier::external_body]
pub struct ExFromUtf8Error(std::string::FromUtf8Error);

/// `String::from_utf8`. It succeeds exactly on valid UTF-8, and the string
/// it gives is made of the very bytes it was given.
#[verifier::external_body]
fn text_of(bytes: Vec<u8>) -> (text: Result<String, std::string::FromUtf8Error>)
    ensures
        text is Ok <==> valid_utf8(bytes@),
        text matches Ok(t) ==> encode_utf8(t@) == bytes@,
{
    String::from_utf8(bytes)
}

impl Credentials {
    #[verifier::type_invariant]
    spec fn is_pair(&self) -> bool {
        &&& self.username@.len() > 0
        &&& self.password@.len() > 0
        &&& !self.username@.contains(':')
        &&& !self.password@.contains(':')
    }

    /// Reads `username:password`. There must be exactly one `:`, with text
    /// on both sides of it.
    pub fn parse(text: &str) -> (parsed: Option<Credentials>)
        ensures
            match parsed {
                Some(credentials) => pair_in(text@) == Some(credentials@),
                None => pair_in(text@) is None,
            },
    {
        let total = text.unicode_len();
        let mut first: Option<usize> = None;
        let mut repeated = false;
        let mut index: usize = 0;
        for c in it: text.chars()
            invariant
                it.seq() == text@,
                index == it.index(),
                total == text@.len(),
                match first {
                    None => !repeated && forall|j: int| 0 <= j < index ==> text@[j] != ':',
                    Some(at) => {
                        &&& at < index
                        &&& text@[at as int] == ':'
                        &&& forall|j: int| 0 <= j < at ==> text@[j] != ':'
                        &&& repeated <==> exists|j: int| at < j < index && text@[j] == ':'
                    },
                },
        {
            if c == ':' {
                match first {
                    None => {
                        first = Some(index);
                    },
                    Some(_) => {
                        repeated = true;
                    },
                }
            }
            index = index + 1;
        }
        match first {
            Some(at) if !repeated && 0 < at && at < total - 1 => {
                let username = text.substring_char(0, at).to_owned();
                let password = text.substring_char(at + 1, total).to_owned();
                proof {
                    assert(splits_at(text@, at as int));
                    lemma_pair_at(text@, at as int);
                    assert(username@ =~= text@.take(at as int));
                    assert(password@ =~= text@.skip(at + 1));
                }
                Some(Credentials { username, password })
            },
            _ => {
                proof {
                    if exists|at: int| splits_at(text@, at) {
                        let at = choose|at: int| splits_at(text@, at);
                        assert(false);
                    }
                }
                None
            },
        }
    }

    /// The username.
    pub fn username(&self) -> (username: &str)
        ensures
            username@ == self@.username,
            username@.len() > 0,
            !username@.contains(':'),
    {
        proof {
            use_type_invariant(self);
        }
        self.username.as_str()
    }

    /// The password.
    pub fn password(&self) -> (password: &str)
        ensures
            password@ == self@.password,
            password@.len() > 0,
            !password@.contains(':'),
    {
        proof {
            use_type_invariant(self);
        }
        self.password.as_str()
    }
}

/// Reads the credentials out of the bytes that the header's payload
/// decoded to.
pub fn credentials_from_decoded(decoded: Vec<u8>) -> (outcome: Result<Credentials, AuthError>)
    ensures
        outcome_view(outcome) == credentials_in(decoded@),
{
    match text_of(decoded) {
        Err(_) => Err(AuthError::AuthMalformed),
        Ok(text) => {
            proof {
                encode_utf8_decode_utf8(text@);
            }
            match Credentials::parse(text.as_str()) {
                None => Err(AuthError::AuthMalformed),
                Some(credentials) => Ok(credentials),
            }
        },
    }
}

/// Admits a request or says why not. `authorization` is the value of the
/// request's `Authorization` header, if it has one.
pub fn authenticate(authorization: Option<&[u8]>) -> (outcome: Result<Credentials, AuthError>)
    ensures
        outcome_view(outcome) == admission(value_of(authorization)),
{
    proof {
        reveal_strlit("Basic ");
    }
    match authorization {
        None => Err(AuthError::AuthMissing),
        Some(value) => {
            let scheme_token = ascii_bytes_of("Basic ");
            if !starts_with(value, scheme_token) {
                return Err(AuthError::AuthMissing);
            }
            let payload = slice_subrange(value, scheme_token.len(), value.len());
            assert(payload@ =~= value@.skip(scheme().len() as int));
            match decode_standard(payload) {
                Err(_) => Err(AuthError::AuthMalformed),
                Ok(decoded) => credentials_from_decoded(decoded),
            }
        },
    }
}

/// A text has at most one place that splits it.
pub proof fn lemma_split_is_unique(text: Seq<char>, a: int, b: int)
    requires
        splits_at(text, a),
        splits_at(text, b),
    ensures
        a == b,
{
}

/// The pair of a text that splits at `at` is what stands on either side.
pub proof fn lemma_pair_at(text: Seq<char>, at: int)
    requires
        splits_at(text, at),
    ensures
        pair_in(text) == Some(
            CredentialsView { username: text.take(at), password: text.skip(at + 1) },
        ),
{
    let chosen = choose|at: int| splits_at(text, at);
    lemma_split_is_unique(text, at, chosen);
}

/// What a pair is made of: two non-empty texts without a `:`, which the text
/// they were read from joins with one `:`.
pub proof fn lemma_pair_is_well_formed(text: Seq<char>)
    requires
        pair_in(text) is Some,
    ensures
        ({
            let pair = pair_in(text)->0;
            &&& pair.username.len() > 0
            &&& pair.password.len() > 0
            &&& !pair.username.contains(':')
            &&& !pair.password.contains(':')
            &&& text == pair.username + seq![':'] + pair.password
        }),
{
    let at = choose|at: int| splits_at(text, at);
    let pair = pair_in(text)->0;
    assert(text =~= pair.username + seq![':'] + pair.password);
    assert forall|j: int| 0 <= j < pair.password.len() implies pair.password[j] != ':' by {
        assert(pair.password[j] == text[at + 1 + j]);
    }
}

/// Two non-empty texts without a `:`, joined with one, are read back as
/// themselves.
pub proof fn lemma_pair_of_joined(username: Seq<char>, password: Seq<char>)
    requires
        username.len() > 0,
        password.len() > 0,
        !username.contains(':'),
        !password.contains(':'),
    ensures
        pair_in(username + seq![':'] + password) == Some(CredentialsView { username, password }),
{
    let text = username + seq![':'] + password;
    let at = username.len() as int;
    assert forall|j: int| 0 <= j < text.len() && j != at implies text[j] != ':' by {
        if j < at {
            assert(username.contains(text[j]));
        } else {
            assert(password[j - at - 1] == text[j]);
            assert(password.contains(text[j]));
        }
    }
    assert(splits_at(text, at));
    lemma_pair_at(text, at);
    assert(text.take(at) =~= username);
    assert(text.skip(at + 1) =~= password);
}

/// The UTF-8 encoding of a text holds the credentials that the text spells.
pub proof fn lemma_credentials_of_text(text: Seq<char>)
    ensures
        credentials_in(encode_utf8(text)) == match pair_in(text) {
            Some(pair) => Ok::<CredentialsView, AuthError>(pair),
            None => Err(AuthError::AuthMalformed),
        },
{
    encode_utf8_valid_utf8(text);
    encode_utf8_decode_utf8(text);
}

/// A Basic header whose payload decodes to the UTF-8 encoding of
/// `username:password` admits the request with that username and password.
pub proof fn lemma_admission_of_pair(value: Seq<u8>, username: Seq<char>, password: Seq<char>)
    requires
        has_prefix(value, scheme()),
        standard_decoding(value.skip(scheme().len() as int)) == Some(
            encode_utf8(username + seq![':'] + password),
        ),
        username.len() > 0,
        password.len() > 0,
        !username.contains(':'),
        !password.contains(':'),
    ensures
        admission(Some(value)) == Ok::<CredentialsView, AuthError>(
            CredentialsView { username, password },
        ),
{
    lemma_pair_of_joined(username, password);
    lemma_credentials_of_text(username + seq![':'] + password);
}

/// A request is challenged exactly when it has no header of the Basic
/// scheme, and rejected exactly when it has one that holds no credentials.
pub proof fn lemma_why_admission_fails(authorization: Option<Seq<u8>>)
    ensures
        admission(authorization) == Err::<CredentialsView, AuthError>(AuthError::AuthMissing) <==> (
        authorization matches Some(value) ==> !has_prefix(value, scheme())),
        admission(authorization) == Err::<CredentialsView, AuthError>(AuthError::AuthMalformed)
            <==> (authorization matches Some(value) && has_prefix(value, scheme()) && (
        standard_decoding(value.skip(scheme().len() as int)) matches Some(decoded)
            ==> credentials_in(decoded) is Err)),
{
}

} // verus!
