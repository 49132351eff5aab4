//! The boundary to the session engine and to the JSON codec.
//!
//! Everything the library needs from the outside world crosses here: the
//! engine type itself, the offer/answer values, and a handful of trusted
//! wrappers whose contracts state what the outside functions return. The
//! engine's outputs are handed to verified code as an [`EngineSignal`], a
//! plain tagged value, so that every decision taken on them is checked.

use vstd::prelude::*;

use crate::addr::{acceptable_candidate_ip, Endpoint, HostIp};
use str0m::{Event, IceConnectionState, Output};

verus! {

#[verifier::external_type_specification]
#[verifier::external_body]
pub struct ExRtc(str0m::Rtc);

#[verifier::external_type_specification]
#[verifier::external_body]
pub struct ExCandidate(str0m::Candidate);

#[verifier::external_type_specification]
#[verifier::external_body]
pub struct ExSdpOffer(str0m::change::SdpOffer);

#[verifier::external_type_specification]
#[verifier::external_body]
pub struct ExSdpAnswer(str0m::change::SdpAnswer);

#[verifier::external_type_specification]
#[verifier::external_body]
pub struct ExRtcError(str0m::RtcError);

#[verifier::external_type_specification]
#[verifier::external_body]
pub struct ExTransmit(str0m::net::Transmit);

#[verifier::external_type_specification]
#[verifier::external_body]
pub struct ExJsonError(serde_json::Error);

#[verifier::external_type_specification]
#[verifier::external_body]
pub struct ExInstant(std::time::Instant);

/// The connectivity state the engine reports, as a plain value.
#[derive(Clone, Copy, Debug, PartialEq, Eq, Structural)]
pub enum IceState {
    New,
    Checking,
    Connected,
    Completed,
    Disconnected,
    Other,
}

/// One output of the engine's poll call, as a plain tagged value.
///
/// The engine produces exactly one of these per poll: a datagram to send, a
/// deadline to wait for, a connectivity-state change, or some other event the
/// session loop does not act on.
pub enum EngineSignal {
    Transmit(str0m::net::Transmit),
    Deadline(std::time::Instant),
    IceChange(IceState),
    OtherEvent,
}

/// Whether `body` is a well-formed JSON-encoded session offer: exactly the
/// inputs the offer parser accepts.
pub uninterp spec fn offer_parses(body: Seq<u8>) -> bool;

/// Relies on `std::time::Instant::now`: a reading of the monotonic clock.
#[verifier::external_body]
pub(crate) fn now_instant() -> std::time::Instant {
    std::time::Instant::now()
}

/// Relies on `Instant::saturating_duration_since` and `Duration::as_nanos`:
/// the nanoseconds from `now` until `deadline`, zero when `deadline` is not
/// after `now`, saturated at `u64::MAX`.
#[verifier::external_body]
pub(crate) fn nanos_until(deadline: &std::time::Instant, now: &std::time::Instant) -> u64 {
    let d = deadline.saturating_duration_since(*now);
    u64::try_from(d.as_nanos()).unwrap_or(u64::MAX)
}

/// Relies on `serde_json::from_slice` for `SdpOffer`: deserialization is a
/// function of the bytes alone, and succeeds exactly on well-formed offers.
#[verifier::external_body]
pub(crate) fn parse_offer(body: &[u8]) -> (r: Result<str0m::change::SdpOffer, serde_json::Error>)
    ensures
        r is Ok <==> offer_parses(body@),
{
    serde_json::from_slice(body)
}

/// Relies on `serde_json::to_vec` for `SdpAnswer`: the JSON encoding of the
/// produced answer.
#[verifier::external_body]
pub(crate) fn answer_json(answer: &str0m::change::SdpAnswer) -> (r: Result<
    Vec<u8>,
    serde_json::Error,
>)
    ensures
        r matches Ok(v) ==> v@.len() > 0,
{
    serde_json::to_vec(answer)
}

/// Relies on `RtcConfig::set_ice_lite` and `RtcConfig::build`: a fresh engine
/// instance in ICE-lite mode, started at `start`. Building picks the crypto
/// backend compiled into the engine crate; this crate always enables one.
#[verifier::external_body]
pub(crate) fn engine_new_ice_lite(start: std::time::Instant) -> str0m::Rtc {
    str0m::RtcConfig::new().set_ice_lite(true).build(start)
}

/// Relies on `Candidate::host` with protocol `"udp"`: it succeeds exactly
/// when the address is neither link-local, broadcast, multicast nor
/// unspecified. The endpoint crosses as its canonical text, which always
/// parses back into a socket address.
#[verifier::external_body]
pub(crate) fn host_candidate(endpoint: &Endpoint) -> (r: Option<str0m::Candidate>)
    ensures
        r is Some <==> acceptable_candidate_ip(endpoint.ip),
{
    let text = match endpoint.ip {
        HostIp::V4(a, b, c, d) => format!("{}.{}.{}.{}:{}", a, b, c, d, endpoint.port),
        HostIp::V6(a, b, c, d, e, f, g, h) => format!(
            "[{:x}:{:x}:{:x}:{:x}:{:x}:{:x}:{:x}:{:x}]:{}", a, b, c, d, e, f, g, h, endpoint.port
        ),
    };
    str0m::Candidate::host(text.parse().unwrap(), "udp").ok()
}

/// Relies on `Rtc::add_local_candidate`: the engine keeps the candidate and
/// returns a reference to it, or rejects it.
#[verifier::external_body]
pub(crate) fn add_candidate(rtc: &mut str0m::Rtc, candidate: str0m::Candidate) -> bool {
    rtc.add_local_candidate(candidate).is_some()
}

/// Relies on `SdpApi::accept_offer`: the engine's one-shot negotiation of an
/// answer to the given offer.
#[verifier::external_body]
pub(crate) fn accept_offer_raw(rtc: &mut str0m::Rtc, offer: str0m::change::SdpOffer) -> Result<
    str0m::change::SdpAnswer,
    str0m::RtcError,
> {
    rtc.sdp_api().accept_offer(offer)
}

/// Relies on `Rtc::poll_output`: exactly one action per call — a deadline, a
/// datagram to transmit, or an event; connectivity-state changes are told
/// apart from all other events.
#[verifier::external_body]
pub(crate) fn poll_engine_raw(rtc: &mut str0m::Rtc) -> Result<EngineSignal, str0m::RtcError> {
    match rtc.poll_output()? {
        Output::Timeout(t) => Ok(EngineSignal::Deadline(t)),
        Output::Transmit(t) => Ok(EngineSignal::Transmit(t)),
        Output::Event(Event::IceConnectionStateChange(s)) => Ok(EngineSignal::IceChange(match s {
            IceConnectionState::New => IceState::New,
            IceConnectionState::Checking => IceState::Checking,
            IceConnectionState::Connected => IceState::Connected,
            IceConnectionState::Completed => IceState::Completed,
            IceConnectionState::Disconnected => IceState::Disconnected,
            _ => IceState::Other,
        })),
        Output::Event(_) => Ok(EngineSignal::OtherEvent),
    }
}

/// Relies on `Rtc::handle_input` with a timeout input: tells the engine the
/// awaited deadline has elapsed, with `now` as the current time.
#[verifier::external_body]
pub(crate) fn feed_elapsed_raw(rtc: &mut str0m::Rtc, now: std::time::Instant) -> Result<
    (),
    str0m::RtcError,
> {
    rtc.handle_input(str0m::Input::Timeout(now))
}

/// Relies on `str0m::net::Receive::new` and `Rtc::handle_input`: hands the
/// engine one received UDP datagram with its source and the advertised
/// destination; a datagram the engine cannot classify is an engine error, as
/// is any protocol failure while consuming it. The endpoints cross as their
/// canonical text, which always parses back into socket addresses.
#[verifier::external_body]
pub(crate) fn feed_receive_raw(
    rtc: &mut str0m::Rtc,
    now: std::time::Instant,
    source: &Endpoint,
    destination: &Endpoint,
    payload: &[u8],
) -> Result<(), str0m::RtcError> {
    let text = |e: &Endpoint| match e.ip {
        HostIp::V4(a, b, c, d) => format!("{}.{}.{}.{}:{}", a, b, c, d, e.port),
        HostIp::V6(a, b, c, d, f, g, h, i) => format!(
            "[{:x}:{:x}:{:x}:{:x}:{:x}:{:x}:{:x}:{:x}]:{}", a, b, c, d, f, g, h, i, e.port
        ),
    };
    let recv = str0m::net::Receive::new(
        str0m::net::Protocol::Udp,
        text(source).parse().unwrap(),
        text(destination).parse().unwrap(),
        payload,
    ).map_err(str0m::RtcError::from)?;
    rtc.handle_input(str0m::Input::Receive(now, recv))
}

} // verus!
