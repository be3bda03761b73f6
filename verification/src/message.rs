//! The parts of the DNS wire model that the transport policy touches.
//!
//! The full encoder and decoder live with an external collaborator; the
//! policy only carries requests and responses through and reads a single
//! bit of one of them, the truncation flag of a response.

use vstd::prelude::*;

verus! {

/// Header flags of a DNS message.
///
/// The transport policy reads exactly one of them: the truncation bit, which
/// a datagram-style transport sets on a response whose full answer did not
/// fit in a single packet.
#[derive(Clone, Copy, Debug, PartialEq, Eq)]
pub struct Flags {
    pub truncated: bool,
}

/// One question of a DNS request: a domain name together with the numeric
/// record-type and class codes of the wire format.
#[derive(Clone, Debug, PartialEq, Eq)]
pub struct Query {
    pub qname: String,
    pub qtype: u16,
    pub qclass: u16,
}

/// A fully formed DNS request, constructed by the caller.
///
/// The policy never validates or alters a request; whichever transport
/// attempts a `send` call makes are handed this same value.
#[derive(Clone, Debug, PartialEq, Eq)]
pub struct Request {
    pub transaction_id: u16,
    pub query: Query,
}

/// A decoded DNS response, as a transport returns it.
///
/// The policy inspects only `flags.truncated`; everything else, the answer
/// records included, passes through untouched.
#[derive(Clone, Debug, PartialEq, Eq)]
pub struct Response {
    pub transaction_id: u16,
    pub flags: Flags,
    pub answers: Vec<String>,
}

/// A failure of one transport attempt.
///
/// The policy adds no classification of its own: whichever error a transport
/// reports is propagated as it is.
#[derive(Clone, Debug, PartialEq, Eq)]
pub enum Error {
    /// A connection, send, or receive failure at the network layer.
    Network(String),
    /// The received bytes could not be decoded into a valid response.
    Malformed(String),
}

} // verus!
