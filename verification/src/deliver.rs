//! Delivery outcomes and their translation to the submitter-facing HTTP
//! response.

use vstd::prelude::*;
use vstd::string::*;
use crate::NetworkError;

verus! {

/// The result of the single delivery attempt against the email provider.
pub enum DeliveryOutcome {
    /// The provider accepted the message (it answered with status 202).
    Accepted,
    /// The provider answered with any other status, carried here verbatim.
    Rejected(u16),
    /// The request never completed; no provider status exists.
    TransportFailed,
}

/// Classifies the raw result of the outbound call: status 202 is the one
/// accepting answer, every other status is a rejection, and a transport
/// error means no answer was received at all.
pub fn classify_delivery(result: Result<u16, NetworkError>) -> (o: DeliveryOutcome)
    ensures
        match result {
            Ok(status) => if status == 202 {
                o is Accepted
            } else {
                (o matches DeliveryOutcome::Rejected(s) && s == status)
            },
            Err(_) => o is TransportFailed,
        },
{
    match result {
        Ok(202) => DeliveryOutcome::Accepted,
        Ok(status) => DeliveryOutcome::Rejected(status),
        Err(_) => DeliveryOutcome::TransportFailed,
    }
}

/// The HTTP answer shown to the submitter for one delivery outcome:
/// acceptance becomes an empty 200; every provider rejection collapses to
/// 502 "Bad Gateway"; every transport failure to 500 "Internal Server
/// Error". No provider diagnostic leaks through.
pub fn to_http_outcome(o: &DeliveryOutcome) -> (r: (u16, String))
    ensures
        match *o {
            DeliveryOutcome::Accepted => r.0 == 200 && r.1@ == Seq::<char>::empty(),
            DeliveryOutcome::Rejected(_) => r.0 == 502 && r.1@ == "Bad Gateway"@,
            DeliveryOutcome::TransportFailed => r.0 == 500 && r.1@ == "Internal Server Error"@,
        },
{
    match o {
        DeliveryOutcome::Accepted => (200, String::new()),
        DeliveryOutcome::Rejected(_) => (502, String::from_str("Bad Gateway")),
        DeliveryOutcome::TransportFailed => (500, String::from_str("Internal Server Error")),
    }
}

/// The whole response mapping, from the raw result of the single outbound
/// call to the HTTP status and body for the submitter: status 202 gives an
/// empty 200, any other status 502 "Bad Gateway", and a transport failure
/// 500 "Internal Server Error".
pub fn respond_for(result: Result<u16, NetworkError>) -> (r: (u16, String))
    ensures
        match result {
            Ok(status) => if status == 202 {
                r.0 == 200 && r.1@ == Seq::<char>::empty()
            } else {
                r.0 == 502 && r.1@ == "Bad Gateway"@
            },
            Err(_) => r.0 == 500 && r.1@ == "Internal Server Error"@,
        },
{
    let o = classify_delivery(result);
    to_http_outcome(&o)
}

} // verus!
