//! What holds of issuance and validation together, proved from the contracts of its parts.

use crate::authentication::auth::{
    first_step, gate_outcome, issued, rejection_status, ValidationError, Verdict,
    SESSION_TTL_SECONDS,
};
use crate::authentication::codec::{
    decode_spec, is_base64_char, is_credential_for, scheme_label, without_scheme,
};
use crate::authentication::store::{is_live, lookup, Sessions};
use vstd::prelude::*;

verus! {

/// A request is accepted if and only if the store answers and the session id
/// that its header decodes to is live in the store at that moment.
pub proof fn law_accept_iff_session_live(
    header: Seq<char>,
    reachable: bool,
    sessions: Sessions,
    now: nat,
)
    ensures
        gate_outcome(Some(header), reachable, sessions, now) == Verdict::Accept <==> {
            &&& reachable
            &&& decode_spec(header) is Ok
            &&& lookup(sessions, decode_spec(header)->Ok_0.0, now) is Some
        },
{
}

/// A request without a header is rejected with 400, whatever the store holds.
pub proof fn law_missing_header_is_bad_request(reachable: bool, sessions: Sessions, now: nat)
    ensures
        gate_outcome(None, reachable, sessions, now) == Verdict::Reject(
            ValidationError::MissingHeader,
        ),
        rejection_status(ValidationError::MissingHeader) == 400,
{
}

/// A header that does not decode is rejected with 400, whatever the store holds.
pub proof fn law_undecodable_header_is_bad_request(
    header: Seq<char>,
    reachable: bool,
    sessions: Sessions,
    now: nat,
)
    requires
        decode_spec(header) is Err,
    ensures
        gate_outcome(Some(header), reachable, sessions, now) == Verdict::Reject(
            ValidationError::InvalidHeader,
        ),
        rejection_status(ValidationError::InvalidHeader) == 400,
{
}

/// Validating is repeatable: a header whose session is live at two moments is
/// accepted at both. Validation only reads, so the store that the second
/// request meets is the one that the first one met.
pub proof fn law_validation_repeats(header: Seq<char>, sessions: Sessions, first: nat, second: nat)
    requires
        decode_spec(header) is Ok,
        sessions.contains_key(decode_spec(header)->Ok_0.0),
        is_live(sessions[decode_spec(header)->Ok_0.0], first),
        is_live(sessions[decode_spec(header)->Ok_0.0], second),
    ensures
        gate_outcome(Some(header), true, sessions, first) == Verdict::Accept,
        gate_outcome(Some(header), true, sessions, second) == Verdict::Accept,
{
}

/// Once the time to live of a session has run out, a request under it is
/// rejected with 401. The outcome depends on the store and the time alone, not
/// on what was validated before.
pub proof fn law_expired_session_is_rejected(header: Seq<char>, sessions: Sessions, now: nat)
    requires
        decode_spec(header) is Ok,
        sessions.contains_key(decode_spec(header)->Ok_0.0),
        !is_live(sessions[decode_spec(header)->Ok_0.0], now),
    ensures
        gate_outcome(Some(header), true, sessions, now) == Verdict::Reject(
            ValidationError::SessionNotFound,
        ),
        rejection_status(ValidationError::SessionNotFound) == 401,
{
}

/// A session id that was never stored is rejected with 401.
pub proof fn law_unknown_session_is_rejected(header: Seq<char>, sessions: Sessions, now: nat)
    requires
        decode_spec(header) is Ok,
        !sessions.contains_key(decode_spec(header)->Ok_0.0),
    ensures
        gate_outcome(Some(header), true, sessions, now) == Verdict::Reject(
            ValidationError::SessionNotFound,
        ),
{
}

/// With the store out of reach no request is accepted and none is answered
/// with 401: a header that decodes gets 500, any other 400.
pub proof fn law_unreachable_store_fails_closed(
    authorization: Option<Seq<char>>,
    sessions: Sessions,
    now: nat,
)
    ensures
        gate_outcome(authorization, false, sessions, now) is Reject,
        rejection_status(gate_outcome(authorization, false, sessions, now)->Reject_0) != 401,
        first_step(authorization) is Ok ==> gate_outcome(authorization, false, sessions, now)
            == Verdict::Reject(ValidationError::StoreUnavailable),
        rejection_status(ValidationError::StoreUnavailable) == 500,
{
}

/// A credential decodes the same with and without the scheme label.
pub proof fn law_scheme_label_is_optional(
    token: Seq<char>,
    session_id: Seq<char>,
    payload: Seq<char>,
)
    requires
        is_credential_for(token, session_id, payload),
    ensures
        decode_spec(scheme_label() + token) == decode_spec(token),
{
    let header = scheme_label() + token;
    assert(header.subrange(0, 7) =~= scheme_label());
    assert(header.skip(7) =~= token);
    if scheme_label().is_prefix_of(token) {
        assert(token.subrange(0, 7)[6] == token[6]);
        assert(is_base64_char(token[6]));
    }
    assert(without_scheme(token) == token);
}

/// From issuance to expiry: the credential of an issued session, sent as a
/// header with its scheme label, is accepted for as long as the session's hour
/// lasts, and rejected with 401 from then on, provided the store is left as
/// the issuance left it.
pub proof fn law_issued_session_lasts_one_hour(
    token: Seq<char>,
    id: Seq<char>,
    before: Sessions,
    after: Sessions,
    issued_at: nat,
    now: nat,
)
    requires
        issued(token, id, before, after, issued_at),
    ensures
        now < issued_at + SESSION_TTL_SECONDS ==> gate_outcome(
            Some(scheme_label() + token),
            true,
            after,
            now,
        ) == Verdict::Accept,
        now >= issued_at + SESSION_TTL_SECONDS ==> gate_outcome(
            Some(scheme_label() + token),
            true,
            after,
            now,
        ) == Verdict::Reject(ValidationError::SessionNotFound),
{
    law_scheme_label_is_optional(token, id, Seq::<char>::empty());
}

} // verus!
