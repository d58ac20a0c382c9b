//! Outbound messages: the payload deterministically encodes the triggering
//! simulation-frame number and a wall-clock timestamp sample, and carries
//! the fixed reliable-ordered, immediate-urgency delivery policy for the
//! transport collaborator.

use vstd::prelude::*;
use vstd::arithmetic::div_mod::{lemma_div_pos_is_pos, lemma_div_decreases};

verus! {

/// Delivery-guarantee policy tag for the transport collaborator.
#[derive(Clone, Copy, Debug, PartialEq, Eq, Structural)]
pub enum DeliveryGuarantee {
    Reliable,
    Unreliable,
}

/// Send-priority policy tag for the transport collaborator.
#[derive(Clone, Copy, Debug, PartialEq, Eq, Structural)]
pub enum Urgency {
    Immediate,
    Tick,
}

/// The ASCII decimal digits of a non-negative number, most significant
/// first.
pub open spec fn dec_digits(n: int) -> Seq<u8>
    recommends
        n >= 0,
    decreases n,
{
    if n < 10 {
        seq![(48 + n) as u8]
    } else {
        dec_digits(n / 10).push((48 + n % 10) as u8)
    }
}

/// The fixed payload prefix, the bytes of `"CL: sim_frame:"`.
pub open spec fn payload_prefix() -> Seq<u8> {
    seq![67u8, 76u8, 58u8, 32u8, 115u8, 105u8, 109u8, 95u8, 102u8, 114u8, 97u8, 109u8, 101u8, 58u8]
}

/// The separator between frame number and timestamp, the bytes of
/// `",abs_time:"`.
pub open spec fn payload_infix() -> Seq<u8> {
    seq![44u8, 97u8, 98u8, 115u8, 95u8, 116u8, 105u8, 109u8, 101u8, 58u8]
}

/// The payload for a triggering frame: prefix, decimal frame number,
/// separator, then the host-supplied timestamp text.
pub open spec fn payload_spec(frame: int, timestamp: Seq<u8>) -> Seq<u8> {
    payload_prefix() + dec_digits(frame) + payload_infix() + timestamp
}

/// Append the ASCII decimal digits of `n` to `out`.
fn push_decimal(n: u32, out: &mut Vec<u8>)
    ensures
        final(out)@ == old(out)@ + dec_digits(n as int),
    decreases n,
{
    if n >= 10 {
        proof {
            lemma_div_pos_is_pos(n as int, 10);
            lemma_div_decreases(n as int, 10);
        }
        push_decimal(n / 10, out);
        out.push(48 + (n % 10) as u8);
        proof {
            assert(old(out)@ + dec_digits(n as int)
                =~= (old(out)@ + dec_digits(n as int / 10)).push((48 + n as int % 10) as u8));
        }
    } else {
        out.push(48 + n as u8);
        proof {
            assert(old(out)@ + dec_digits(n as int) =~= old(out)@.push((48 + n) as u8));
        }
    }
}

/// Build the payload bytes for a triggering frame from the frame number
/// and a timestamp sample already rendered as text by the host.
pub fn build_payload(frame: u32, timestamp: &Vec<u8>) -> (p: Vec<u8>)
    ensures
        p@ == payload_spec(frame as int, timestamp@),
{
    let mut p: Vec<u8> = Vec::new();
    p.push(67);
    p.push(76);
    p.push(58);
    p.push(32);
    p.push(115);
    p.push(105);
    p.push(109);
    p.push(95);
    p.push(102);
    p.push(114);
    p.push(97);
    p.push(109);
    p.push(101);
    p.push(58);
    proof {
        assert(p@ =~= payload_prefix());
    }
    push_decimal(frame, &mut p);
    p.push(44);
    p.push(97);
    p.push(98);
    p.push(115);
    p.push(95);
    p.push(116);
    p.push(105);
    p.push(109);
    p.push(101);
    p.push(58);
    proof {
        assert(p@ =~= payload_prefix() + dec_digits(frame as int) + payload_infix());
    }
    let ghost mid = p@;
    let mut i: usize = 0;
    while i < timestamp.len()
        invariant
            i <= timestamp.len(),
            p@ == mid + timestamp@.take(i as int),
        decreases timestamp.len() - i,
    {
        p.push(timestamp[i]);
        proof {
            assert(mid + timestamp@.take(i + 1) =~= (mid + timestamp@.take(i as int)).push(timestamp@[i as int]));
        }
        i = i + 1;
    }
    proof {
        assert(mid + timestamp@.take(timestamp@.len() as int) =~= payload_spec(frame as int, timestamp@));
    }
    p
}

/// One ephemeral outbound message: created per triggering frame, handed to
/// the transport collaborator, and not retained.
pub struct OutboundMessage {
    /// The simulation frame that triggered this message; a dispatch
    /// failure is reported against it.
    pub frame: u32,
    /// The fixed peer the message is addressed to.
    pub destination: String,
    /// The payload bytes, as `payload_spec` describes.
    pub payload: Vec<u8>,
    /// Always reliable-ordered at this layer.
    pub delivery: DeliveryGuarantee,
    /// Always immediate at this layer.
    pub urgency: Urgency,
}

} // verus!
