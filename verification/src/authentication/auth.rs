//! Session issuance and request validation.
//!
//! Both are written as decisions around the store: a first step that says what
//! to ask of the store, and a second that turns the store's answer into the
//! outcome. `issue` and `validate` run both steps against the in-memory store.

use crate::authentication::codec::{
    decode, decode_spec, encode, is_credential_for, joined, pair_fits, scheme_label, CodecError,
    DELIMITER,
};
use crate::authentication::store::{
    found_view, lookup, stored, SessionStore, Sessions, StoreError,
};
use crate::authentication::text::same_text;
use vstd::prelude::*;
use vstd::string::*;
use vstd::utf8::*;

verus! {

/// How long a session lasts, in seconds: one hour.
pub const SESSION_TTL_SECONDS: u64 = 3600;

/// The body of an issuance request. It holds the presented key, and cannot be
/// printed for debugging.
#[derive(Clone, PartialEq, Eq)]
pub struct ApiKeyRequest {
    pub api_key: String,
}

/// A bearer credential, without its scheme label.
#[derive(Clone, Debug, PartialEq, Eq)]
pub struct Bearer {
    pub token: String,
}

/// Why no credential was issued.
#[derive(Clone, Copy, Debug, PartialEq, Eq, Structural)]
pub enum IssueError {
    /// The presented key is not the expected one.
    Unauthorized,
    /// The store did not take the new session.
    StoreFailure,
}

/// Why a request was turned away.
#[derive(Clone, Copy, Debug, PartialEq, Eq, Structural)]
pub enum ValidationError {
    /// The request carries no authorization header.
    MissingHeader,
    /// The header does not decode to a session id and payload.
    InvalidHeader,
    /// The store holds no live session under the decoded id.
    SessionNotFound,
    /// The store gave no answer.
    StoreUnavailable,
}

/// The outcome of validating one request.
#[derive(Clone, Copy, Debug, PartialEq, Eq, Structural)]
pub enum Verdict {
    /// The request goes on to the protected handler.
    Accept,
    /// The request is answered with an error.
    Reject(ValidationError),
}

/// What the validator does after reading the header.
#[derive(Debug, PartialEq, Eq)]
pub enum ValidationStep {
    /// Ask the store for this key, then call `verdict` with its answer.
    Lookup { session_id: String },
    /// Turn the request away without asking the store.
    Reject(ValidationError),
}

/// A lower-case hexadecimal digit.
pub open spec fn is_hex_digit(c: char) -> bool {
    '0' <= c <= '9' || 'a' <= c <= 'f'
}

/// The canonical text of a random (version 4) UUID: 36 characters, hyphens
/// after 8, 12, 16 and 20 digits, lower-case hexadecimal digits elsewhere, of
/// which the thirteenth is the version and the seventeenth carries the variant.
pub open spec fn is_session_id(id: Seq<char>) -> bool {
    &&& id.len() == 36
    &&& forall|i: int|
        0 <= i < 36 ==> if i == 8 || i == 13 || i == 18 || i == 23 {
            #[trigger] id[i] == '-'
        } else {
            is_hex_digit(id[i])
        }
    &&& id[14] == '4'
    &&& id[19] == '8' || id[19] == '9' || id[19] == 'a' || id[19] == 'b'
}

/// `uuid::Uuid::new_v4`, rendered by the crate's `Display`: a random UUID of
/// version 4 in its canonical hyphenated lower-case form. Nothing is claimed of
/// which id comes back, nor that two calls differ. The crate panics where the
/// system hands out no random bytes.
#[verifier::external_body]
fn new_session_id() -> (id: String)
    ensures
        is_session_id(id@),
{
    uuid::Uuid::new_v4().to_string()
}

/// A session id holds no delimiter, is plain ASCII, and can always be encoded.
pub proof fn lemma_session_id_encodes(id: Seq<char>)
    requires
        is_session_id(id),
    ensures
        !id.contains(DELIMITER),
        pair_fits(id, Seq::<char>::empty()),
{
    assert forall|i: int| 0 <= i < id.len() implies id[i] != DELIMITER by {
        if i == 8 || i == 13 || i == 18 || i == 23 {
            assert(id[i] == '-');
        } else {
            assert(is_hex_digit(id[i]));
        }
    }
    let text = joined(id, Seq::<char>::empty());
    assert(is_ascii_chars(text)) by {
        assert forall|i: int| 0 <= i < text.len() implies '\0' <= #[trigger] text[i]
            <= '\u{7f}' by {
            if i < 36 {
                assert(text[i] == id[i]);
                if i == 8 || i == 13 || i == 18 || i == 23 {
                    assert(id[i] == '-');
                } else {
                    assert(is_hex_digit(id[i]));
                }
            }
        }
    }
    is_ascii_chars_encode_utf8(text);
    assert(text.len() == 37);
}

impl Bearer {
    /// The credential as it stands in a transport header: the scheme label, then
    /// the token.
    pub fn header_value(&self) -> (value: String)
        ensures
            value@ == scheme_label() + self.token@,
    {
        let value = String::from_str("Bearer ").concat(self.token.as_str());
        proof {
            reveal_strlit("Bearer ");
            assert(value@ =~= scheme_label() + self.token@);
        }
        value
    }
}

impl IssueError {
    /// The status that answers a failed issuance.
    pub fn status_code(&self) -> (status: u16)
        ensures
            status == match *self {
                IssueError::Unauthorized => 401u16,
                IssueError::StoreFailure => 500u16,
            },
    {
        match self {
            IssueError::Unauthorized => 401,
            IssueError::StoreFailure => 500,
        }
    }

    /// A short, stable reason for the failure. It says nothing of the key or
    /// of what went wrong in the store.
    pub fn reason(&self) -> (reason: &'static str)
        ensures
            reason@ == match *self {
                IssueError::Unauthorized => "invalid api key"@,
                IssueError::StoreFailure => "internal error"@,
            },
    {
        match self {
            IssueError::Unauthorized => "invalid api key",
            IssueError::StoreFailure => "internal error",
        }
    }
}

impl ValidationError {
    /// The status that answers a rejected request.
    pub fn status_code(&self) -> (status: u16)
        ensures
            status == rejection_status(*self),
    {
        match self {
            ValidationError::MissingHeader => 400,
            ValidationError::InvalidHeader => 400,
            ValidationError::SessionNotFound => 401,
            ValidationError::StoreUnavailable => 500,
        }
    }

    /// A short, stable reason for the rejection.
    pub fn reason(&self) -> (reason: &'static str)
        ensures
            reason@ == match *self {
                ValidationError::MissingHeader => "missing header"@,
                ValidationError::InvalidHeader => "invalid header"@,
                ValidationError::SessionNotFound => "invalid or expired"@,
                ValidationError::StoreUnavailable => "internal error"@,
            },
    {
        match self {
            ValidationError::MissingHeader => "missing header",
            ValidationError::InvalidHeader => "invalid header",
            ValidationError::SessionNotFound => "invalid or expired",
            ValidationError::StoreUnavailable => "internal error",
        }
    }
}

/// The status of each rejection.
pub open spec fn rejection_status(e: ValidationError) -> u16 {
    match e {
        ValidationError::MissingHeader => 400,
        ValidationError::InvalidHeader => 400,
        ValidationError::SessionNotFound => 401,
        ValidationError::StoreUnavailable => 500,
    }
}

/// A session that the store has not confirmed yet.
pub struct PendingSession {
    session_id: String,
}

impl PendingSession {
    #[verifier::type_invariant]
    spec fn well_formed(&self) -> bool {
        is_session_id(self.session_id@)
    }

    /// The id of the session.
    pub closed spec fn id(&self) -> Seq<char> {
        self.session_id@
    }

    /// Starts a session under a fresh random id.
    fn fresh() -> (pending: PendingSession)
        ensures
            is_session_id(pending.id()),
    {
        PendingSession { session_id: new_session_id() }
    }

    /// The key to write to the store. The value to write is empty, the time to
    /// live is `SESSION_TTL_SECONDS`.
    pub fn session_id(&self) -> (id: &str)
        ensures
            id@ == self.id(),
            is_session_id(id@),
    {
        proof {
            use_type_invariant(self);
        }
        self.session_id.as_str()
    }

    /// Turns the store's answer to the write into the outcome of the issuance:
    /// the credential for the session if it was stored, a failure if not.
    pub fn grant(self, written: Result<(), StoreError>) -> (r: Result<Bearer, IssueError>)
        ensures
            written is Err ==> r is Err && r->Err_0 == IssueError::StoreFailure,
            written is Ok ==> r is Ok && is_credential_for(
                r->Ok_0.token@,
                self.id(),
                Seq::<char>::empty(),
            ) && decode_spec(r->Ok_0.token@) == Ok::<_, CodecError>(
                (self.id(), Seq::<char>::empty()),
            ),
    {
        proof {
            use_type_invariant(&self);
            lemma_session_id_encodes(self.session_id@);
            reveal_strlit("");
            assert(""@ =~= Seq::<char>::empty());
        }
        match written {
            Ok(()) => {
                let token = encode(self.session_id.as_str(), "");
                Ok(Bearer { token })
            },
            Err(_) => Err(IssueError::StoreFailure),
        }
    }
}

/// The first step of issuance: checks the presented key against the expected
/// one, all of it. A wrong key is refused and nothing is to be written; the
/// right key starts a session that the caller writes to the store and then
/// grants.
pub fn authenticate(presented_key: &str, expected_key: &str) -> (r: Result<
    PendingSession,
    IssueError,
>)
    ensures
        presented_key@ == expected_key@ ==> r is Ok && is_session_id(r->Ok_0.id()),
        presented_key@ != expected_key@ ==> r is Err && r->Err_0 == IssueError::Unauthorized,
{
    if same_text(presented_key, expected_key) {
        Ok(PendingSession::fresh())
    } else {
        Err(IssueError::Unauthorized)
    }
}

/// What the validator does with a header, before the store is asked.
pub open spec fn first_step(authorization: Option<Seq<char>>) -> Result<
    Seq<char>,
    ValidationError,
> {
    match authorization {
        None => Err(ValidationError::MissingHeader),
        Some(header) => match decode_spec(header) {
            Ok((session_id, _)) => Ok(session_id),
            Err(_) => Err(ValidationError::InvalidHeader),
        },
    }
}

/// The view of a step: the key to look up, or the rejection.
pub open spec fn step_view(step: ValidationStep) -> Result<Seq<char>, ValidationError> {
    match step {
        ValidationStep::Lookup { session_id } => Ok(session_id@),
        ValidationStep::Reject(e) => Err(e),
    }
}

/// The view of a header that may be absent.
pub open spec fn header_view(authorization: Option<&str>) -> Option<Seq<char>> {
    match authorization {
        Some(header) => Some(header@),
        None => None,
    }
}

/// The first step of validation: reads the authorization header of a request.
/// A missing header and one that does not decode are rejected at once;
/// otherwise the decoded session id is to be looked up in the store.
pub fn validator(authorization: Option<&str>) -> (step: ValidationStep)
    ensures
        step_view(step) == first_step(header_view(authorization)),
{
    match authorization {
        None => ValidationStep::Reject(ValidationError::MissingHeader),
        Some(header) => match decode(header) {
            Ok((session_id, _payload)) => ValidationStep::Lookup { session_id },
            Err(_) => ValidationStep::Reject(ValidationError::InvalidHeader),
        },
    }
}

/// What the store's answer to the lookup means for the request.
pub open spec fn verdict_spec(found: Result<Option<Seq<char>>, StoreError>) -> Verdict {
    match found {
        Ok(Some(_)) => Verdict::Accept,
        Ok(None) => Verdict::Reject(ValidationError::SessionNotFound),
        Err(_) => Verdict::Reject(ValidationError::StoreUnavailable),
    }
}

/// The view of a store's answer to a read.
pub open spec fn answer_view(found: Result<Option<String>, StoreError>) -> Result<
    Option<Seq<char>>,
    StoreError,
> {
    match found {
        Ok(value) => Ok(found_view(value)),
        Err(e) => Err(e),
    }
}

/// The second step of validation: the store's answer decides. A session that
/// is there is accepted, one that is not is rejected, and a store that gave no
/// answer rejects too, under its own error.
pub fn verdict(found: &Result<Option<String>, StoreError>) -> (v: Verdict)
    ensures
        v == verdict_spec(answer_view(*found)),
{
    match found {
        Ok(Some(_)) => Verdict::Accept,
        Ok(None) => Verdict::Reject(ValidationError::SessionNotFound),
        Err(_) => Verdict::Reject(ValidationError::StoreUnavailable),
    }
}

/// What a store answers to a read at time `now`.
pub open spec fn store_answer(reachable: bool, sessions: Sessions, key: Seq<char>, now: nat)
    -> Result<Option<Seq<char>>, StoreError> {
    if reachable {
        Ok(lookup(sessions, key, now))
    } else {
        Err(StoreError::Unavailable)
    }
}

/// The outcome of a request against a store in a given state at time `now`.
pub open spec fn gate_outcome(
    authorization: Option<Seq<char>>,
    reachable: bool,
    sessions: Sessions,
    now: nat,
) -> Verdict {
    match first_step(authorization) {
        Err(e) => Verdict::Reject(e),
        Ok(session_id) => verdict_spec(store_answer(reachable, sessions, session_id, now)),
    }
}

/// Validates one request against the store: one read, no write.
pub fn validate(authorization: Option<&str>, store: &SessionStore, now: u64) -> (v: Verdict)
    ensures
        v == gate_outcome(header_view(authorization), store.is_reachable(), store@, now as nat),
{
    match validator(authorization) {
        ValidationStep::Reject(e) => Verdict::Reject(e),
        ValidationStep::Lookup { session_id } => {
            let found = store.get(session_id.as_str(), now);
            verdict(&found)
        },
    }
}

/// Exchanges the API key for a credential, against the store.
///
/// A wrong key is refused and the store is left as it was. With the right key a
/// fresh session is written for one hour; the credential that comes back decodes
/// to the id of that session, which the store holds from that moment. Where the
/// store fails, no credential is handed out.
pub fn issue(presented_key: &str, expected_key: &str, store: &mut SessionStore, now: u64) -> (r:
    Result<Bearer, IssueError>)
    ensures
        final(store).is_reachable() == old(store).is_reachable(),
        presented_key@ != expected_key@ ==> r is Err && r->Err_0 == IssueError::Unauthorized
            && final(store)@ == old(store)@,
        presented_key@ == expected_key@ && !old(store).is_reachable() ==> r is Err && r->Err_0
            == IssueError::StoreFailure && final(store)@ == old(store)@,
        presented_key@ == expected_key@ && old(store).is_reachable() ==> r is Ok && issued(
            r->Ok_0.token@,
            session_of(r->Ok_0.token@),
            old(store)@,
            final(store)@,
            now as nat,
        ),
{
    match authenticate(presented_key, expected_key) {
        Err(e) => Err(e),
        Ok(pending) => {
            let written = store.put(pending.session_id(), "", SESSION_TTL_SECONDS, now);
            let ghost id = pending.id();
            let r = pending.grant(written);
            proof {
                reveal_strlit("");
                assert(""@ =~= Seq::<char>::empty());
                if written is Ok {
                    assert(issued(r->Ok_0.token@, id, old(store)@, final(store)@, now as nat));
                }
            }
            r
        },
    }
}

/// The session id that a credential decodes to.
pub open spec fn session_of(token: Seq<char>) -> Seq<char> {
    decode_spec(token)->Ok_0.0
}

/// What a successful issuance leaves behind: a credential for a fresh session
/// id, and a store that holds that id, live, with an empty value.
pub open spec fn issued(
    token: Seq<char>,
    id: Seq<char>,
    before: Sessions,
    after: Sessions,
    now: nat,
) -> bool {
    &&& is_session_id(id)
    &&& is_credential_for(token, id, Seq::<char>::empty())
    &&& decode_spec(token) == Ok::<_, CodecError>((id, Seq::<char>::empty()))
    &&& after == stored(before, id, Seq::<char>::empty(), SESSION_TTL_SECONDS as nat, now)
    &&& lookup(after, id, now) == Some(Seq::<char>::empty())
}

} // verus!
