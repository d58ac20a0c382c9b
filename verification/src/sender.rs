//! The cadence-gated sender: consumes the frame batches produced by the
//! simulation clock, applies the cadence gate, and constructs one
//! reliable-ordered, immediate-urgency message per triggering frame for
//! the transport collaborator to dispatch. The cadence gate advances
//! before any dispatch happens, so a failed or cancelled dispatch never
//! rolls the cadence back.

use vstd::prelude::*;
use crate::gate::{CadenceGate, gate_run};
use crate::message::{DeliveryGuarantee, OutboundMessage, Urgency, build_payload, payload_spec};

verus! {

/// Mathematical model of a sender: the cadence threshold and interval,
/// plus the fixed peer address every message is sent to.
pub ghost struct SenderModel {
    pub last_triggered: int,
    pub min_interval: int,
    pub destination: Seq<char>,
}

/// Rate-limits outbound messages to at most one per `min_interval`
/// simulation frames and builds the message for each frame that triggers.
pub struct CadenceGatedSender {
    gate: CadenceGate,
    destination: String,
}

impl View for CadenceGatedSender {
    type V = SenderModel;

    closed spec fn view(&self) -> SenderModel {
        SenderModel {
            last_triggered: self.gate@.last_triggered,
            min_interval: self.gate@.min_interval,
            destination: self.destination@,
        }
    }
}

impl CadenceGatedSender {
    /// Create a sender that addresses every message to `destination` and
    /// triggers at most once per `min_interval_frames` simulation frames.
    pub fn new(min_interval_frames: u32, destination: &str) -> (s: CadenceGatedSender)
        ensures
            s@ == (SenderModel {
                last_triggered: 0,
                min_interval: min_interval_frames as int,
                destination: destination@,
            }),
    {
        CadenceGatedSender {
            gate: CadenceGate::new(min_interval_frames),
            destination: destination.to_owned(),
        }
    }

    /// The last frame number whose message was constructed for dispatch,
    /// 0 when none has been yet.
    pub fn last_triggered_frame(&self) -> (r: u32)
        ensures
            r == self@.last_triggered,
    {
        self.gate.last_triggered_frame()
    }

    /// The configured minimum spacing, in simulation frames.
    pub fn min_interval_frames(&self) -> (r: u32)
        ensures
            r == self@.min_interval,
    {
        self.gate.min_interval_frames()
    }

    /// The fixed peer address every message is sent to.
    pub fn destination(&self) -> (r: String)
        ensures
            r@ == self@.destination,
    {
        self.destination.clone()
    }

    /// Consume one batch of due frames: gate them, and build one message
    /// per triggering frame, in frame order. `timestamp` is the host's
    /// wall-clock sample for this batch, already rendered as text. The
    /// gate advances here, before dispatch, so the outcome of dispatching
    /// the returned messages cannot affect the cadence.
    pub fn on_frames(&mut self, frames: &Vec<u32>, timestamp: &Vec<u8>) -> (msgs: Vec<OutboundMessage>)
        ensures
            final(self)@.min_interval == old(self)@.min_interval,
            final(self)@.destination == old(self)@.destination,
            final(self)@.last_triggered == gate_run(
                old(self)@.last_triggered,
                old(self)@.min_interval,
                frames@.map_values(|f: u32| f as int),
            ).0,
            msgs@.len() == gate_run(
                old(self)@.last_triggered,
                old(self)@.min_interval,
                frames@.map_values(|f: u32| f as int),
            ).1.len(),
            forall|k: int| #![trigger msgs@[k]] 0 <= k < msgs@.len() ==> {
                &&& msgs@[k].frame as int == gate_run(
                    old(self)@.last_triggered,
                    old(self)@.min_interval,
                    frames@.map_values(|f: u32| f as int),
                ).1[k]
                &&& msgs@[k].destination@ == old(self)@.destination
                &&& msgs@[k].payload@ == payload_spec(
                    gate_run(
                        old(self)@.last_triggered,
                        old(self)@.min_interval,
                        frames@.map_values(|f: u32| f as int),
                    ).1[k],
                    timestamp@,
                )
                &&& msgs@[k].delivery == DeliveryGuarantee::Reliable
                &&& msgs@[k].urgency == Urgency::Immediate
            },
    {
        let ghost r = gate_run(
            self@.last_triggered,
            self@.min_interval,
            frames@.map_values(|f: u32| f as int),
        );
        let triggered = self.gate.filter(frames);
        let ghost dest = self@.destination;
        let mut msgs: Vec<OutboundMessage> = Vec::new();
        let mut i: usize = 0;
        while i < triggered.len()
            invariant
                i <= triggered.len(),
                triggered@.map_values(|f: u32| f as int) == r.1,
                self@.destination == dest,
                msgs@.len() == i,
                forall|k: int| #![trigger msgs@[k]] 0 <= k < i ==> {
                    &&& msgs@[k].frame as int == r.1[k]
                    &&& msgs@[k].destination@ == dest
                    &&& msgs@[k].payload@ == payload_spec(r.1[k], timestamp@)
                    &&& msgs@[k].delivery == DeliveryGuarantee::Reliable
                    &&& msgs@[k].urgency == Urgency::Immediate
                },
            decreases triggered.len() - i,
        {
            proof {
                assert(r.1[i as int] == triggered@.map_values(|f: u32| f as int)[i as int]);
            }
            let destination = self.destination.clone();
            let payload = build_payload(triggered[i], timestamp);
            msgs.push(OutboundMessage {
                frame: triggered[i],
                destination,
                payload,
                delivery: DeliveryGuarantee::Reliable,
                urgency: Urgency::Immediate,
            });
            i = i + 1;
        }
        msgs
    }
}

} // verus!
