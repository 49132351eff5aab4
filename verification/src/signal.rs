//! The signaling step: one offer in, one answer out, one new session.
//!
//! Given the bytes of an offer and the advertised endpoint, [`answer_offer`]
//! parses the offer, creates an ICE-lite engine instance, registers exactly
//! one host candidate built from the advertised endpoint, negotiates the
//! answer, and returns the new session together with the answer's JSON bytes.
//! The caller replies with the bytes and runs the session loop elsewhere;
//! signaling never waits on the loop.

use vstd::prelude::*;

use crate::addr::{acceptable_candidate_ip, Endpoint};
use crate::engine::{
    accept_offer_raw, add_candidate, answer_json, engine_new_ice_lite, host_candidate, now_instant,
    offer_parses, parse_offer,
};
use crate::session::Session;

verus! {

/// Why no answer was produced.
#[derive(Debug)]
pub enum SignalError {
    /// The request body is not a well-formed JSON-encoded offer.
    OfferSyntax(serde_json::Error),
    /// The advertised address cannot be a host candidate.
    CandidateAddress,
    /// The engine did not keep the host candidate.
    CandidateRejected,
    /// The engine did not accept the offer.
    Negotiation(str0m::RtcError),
    /// The produced answer did not serialize.
    AnswerEncoding(serde_json::Error),
}

/// Answers one session offer.
///
/// Fails with [`SignalError::OfferSyntax`] exactly when the body is not a
/// well-formed offer, and with [`SignalError::CandidateAddress`] exactly when
/// the body is well-formed but the advertised address is unusable as a host
/// candidate; everything later is the engine's to decide. On success the
/// returned session advertises `advertised`, and the answer bytes are
/// non-empty.
pub fn answer_offer(body: &[u8], advertised: Endpoint) -> (r: Result<
    (Session, Vec<u8>),
    SignalError,
>)
    ensures
        r matches Err(SignalError::OfferSyntax(_)) <==> !offer_parses(body@),
        r matches Err(SignalError::CandidateAddress) <==> offer_parses(body@)
            && !acceptable_candidate_ip(advertised.ip),
        r matches Ok((session, answer)) ==> {
            &&& offer_parses(body@)
            &&& acceptable_candidate_ip(advertised.ip)
            &&& session.advertised() == advertised
            &&& answer@.len() > 0
        },
{
    let offer = match parse_offer(body) {
        Err(e) => {
            return Err(SignalError::OfferSyntax(e));
        },
        Ok(o) => o,
    };
    let start = now_instant();
    let mut rtc = engine_new_ice_lite(start);
    let candidate = match host_candidate(&advertised) {
        None => {
            return Err(SignalError::CandidateAddress);
        },
        Some(c) => c,
    };
    if !add_candidate(&mut rtc, candidate) {
        return Err(SignalError::CandidateRejected);
    }
    let answer = match accept_offer_raw(&mut rtc, offer) {
        Err(e) => {
            return Err(SignalError::Negotiation(e));
        },
        Ok(a) => a,
    };
    let bytes = match answer_json(&answer) {
        Err(e) => {
            return Err(SignalError::AnswerEncoding(e));
        },
        Ok(v) => v,
    };
    Ok((Session::new(rtc, advertised), bytes))
}

} // verus!
