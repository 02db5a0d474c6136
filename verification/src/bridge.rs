//! The bridge that carries one reserved-path request at a time to the
//! sidecar process.
//!
//! The only wire between the two processes is a pair of byte-stream FIFOs
//! with no multiplexing, so at most one request may be outstanding. Two
//! one-slot hand-offs connect the callers to a single pump worker that
//! owns the pipe handles. `invoke` takes the bridge exclusively (`&mut`),
//! so per bridge a second call cannot begin — let alone observe a reply —
//! before the first call's full request/response cycle has returned;
//! callers on different threads share the one bridge behind a lock held
//! across the whole call.

use vstd::prelude::*;
use std::sync::mpsc::Receiver;
use std::sync::mpsc::SyncSender;

verus! {

#[verifier::external_type_specification]
#[verifier::external_body]
#[verifier::reject_recursive_types(T)]
pub struct ExSyncSender<T>(SyncSender<T>);

#[verifier::external_type_specification]
#[verifier::external_body]
#[verifier::reject_recursive_types(T)]
pub struct ExReceiver<T>(Receiver<T>);

/// Appends the newline that frames one request on the wire. The framing
/// is a fixed contract with the sidecar process: one newline-terminated
/// request, answered by one line.
pub fn frame_request(payload: Vec<u8>) -> (r: Vec<u8>)
    ensures
        r@ == payload@.push(10u8),
{
    let mut framed = payload;
    framed.push(10u8);
    framed
}

/// The pump worker's ends of the two hand-offs: it takes each request
/// from `requests`, writes it (framed) to the sidecar's inbound pipe,
/// reads one reply line, and hands it back through `replies`.
pub struct PumpEndpoints {
    pub requests: Receiver<Vec<u8>>,
    pub replies: SyncSender<Vec<u8>>,
}

/// The calling side of the synchronous request/response bridge.
pub struct ServiceBridge {
    to_pump: SyncSender<Vec<u8>>,
    from_pump: Receiver<Vec<u8>>,
}

/// Relies on `std::sync::mpsc::sync_channel`: returns a connected
/// sender/receiver pair whose buffer holds at most one value in transit.
#[verifier::external_body]
fn rendezvous_pair() -> (SyncSender<Vec<u8>>, Receiver<Vec<u8>>) {
    std::sync::mpsc::sync_channel(1)
}

/// Relies on `std::sync::mpsc::SyncSender::send`: blocks until the one
/// buffer slot is free; reports `false` exactly when the receiving end is
/// gone and the value was never delivered.
#[verifier::external_body]
fn hand_off_send(tx: &SyncSender<Vec<u8>>, payload: Vec<u8>) -> (delivered: bool) {
    tx.send(payload).is_ok()
}

/// Relies on `std::sync::mpsc::Receiver::recv`: blocks until a value
/// arrives; `None` exactly when the sending end is gone with nothing left
/// in transit.
#[verifier::external_body]
fn hand_off_recv(rx: &Receiver<Vec<u8>>) -> (r: Option<Vec<u8>>) {
    rx.recv().ok()
}

impl ServiceBridge {
    /// Builds the bridge and the pump's endpoints. The caller hands the
    /// endpoints to the pump worker, which alone ever touches the pipe
    /// files.
    pub fn new() -> (ServiceBridge, PumpEndpoints) {
        let (to_pump, pump_requests) = rendezvous_pair();
        let (pump_replies, from_pump) = rendezvous_pair();
        (
            ServiceBridge { to_pump, from_pump },
            PumpEndpoints { requests: pump_requests, replies: pump_replies },
        )
    }

    /// One synchronous call through the pipe pair: hands the payload to
    /// the pump and blocks for its reply. Taking the bridge exclusively
    /// keeps the pipe's invariant — zero or one outstanding request — by
    /// construction: no second call can start on this bridge until the
    /// reply has come back. The reply bytes come from the external
    /// process, so nothing is promised of them; `None` reports a dead
    /// pump.
    pub fn invoke(&mut self, payload: Vec<u8>) -> Option<Vec<u8>> {
        if hand_off_send(&self.to_pump, payload) {
            hand_off_recv(&self.from_pump)
        } else {
            None
        }
    }
}

} // verus!
