//! Command bytes: two four-bit selectors, one per motor.

use vstd::prelude::*;
use vstd::string::{is_ascii_spec_bytes, StringSliceAdditionalSpecFns};
use crate::direction::Direction;
use crate::motor::{Channel, Drive};

verus! {

/// The text that answers every command that was carried out.
pub const ACK: &'static str = "OK\n";

/// The characters of the acknowledgment: `O`, `K` and a line feed.
pub open spec fn acknowledgment() -> Seq<char> {
    seq!['O', 'K', '\n']
}

/// The selector in the upper four bits of a command byte.
pub open spec fn high_selector(byte: u8) -> u8 {
    (byte / 16) as u8
}

/// The selector in the lower four bits of a command byte.
pub open spec fn low_selector(byte: u8) -> u8 {
    (byte % 16) as u8
}

/// The directions that a command byte asks for: the upper four bits select
/// the first motor's, the lower four bits the second motor's.
pub open spec fn decoded(byte: u8) -> (Direction, Direction) {
    (Direction::from_raw(high_selector(byte)), Direction::from_raw(low_selector(byte)))
}

/// Splits a command byte into the directions for the first and the second
/// motor.
pub fn decode(byte: u8) -> (pair: (Direction, Direction))
    ensures
        pair == decoded(byte),
{
    let high: u8 = (byte & 0xF0) >> 4;
    let low: u8 = byte & 0x0F;
    assert((byte & 0xF0) >> 4 == byte / 16) by (bit_vector);
    assert(byte & 0x0F == byte % 16) by (bit_vector);
    (Direction::from(high), Direction::from(low))
}

/// Carries out one command byte: gives the first motor its direction, then the
/// second motor its own, and returns the acknowledgment to send.
pub fn execute<M1: Drive, M2: Drive>(motor1: &mut M1, motor2: &mut M2, byte: u8) -> (ack:
    &'static str)
    ensures
        final(motor1).channel() == old(motor1).channel().driven(decoded(byte).0),
        final(motor2).channel() == old(motor2).channel().driven(decoded(byte).1),
        ack@ == acknowledgment(),
{
    let (first, second) = decode(byte);
    motor1.set_direction(first);
    motor2.set_direction(second);
    proof {
        reveal_strlit("OK\n");
    }
    ACK
}

/// Handles the outcome of one read from the command source. A byte that
/// arrived is carried out and acknowledged; a failed read leaves both motors
/// as they are and is not answered.
pub fn receive<M1: Drive, M2: Drive, E>(
    motor1: &mut M1,
    motor2: &mut M2,
    received: Result<u8, E>,
) -> (reply: Option<&'static str>)
    ensures
        match received {
            Ok(byte) => {
                &&& final(motor1).channel() == old(motor1).channel().driven(decoded(byte).0)
                &&& final(motor2).channel() == old(motor2).channel().driven(decoded(byte).1)
                &&& reply matches Some(ack) && ack@ == acknowledgment()
            },
            Err(_) => {
                &&& *final(motor1) == *old(motor1)
                &&& *final(motor2) == *old(motor2)
                &&& reply is None
            },
        },
{
    match received {
        Ok(byte) => Some(execute(motor1, motor2, byte)),
        Err(_) => None,
    }
}

/// On the wire the acknowledgment is the three bytes 0x4F, 0x4B, 0x0A.
pub proof fn acknowledgment_is_three_bytes(text: &str)
    requires
        text@ == acknowledgment(),
    ensures
        text.spec_bytes() == seq![0x4Fu8, 0x4Bu8, 0x0Au8],
{
    is_ascii_spec_bytes(text);
}

/// The two selectors of a byte are decoded apart: whatever the one holds, the
/// other names the direction it would name alone.
pub proof fn selectors_decode_independently(high: u8, low: u8)
    requires
        high < 16,
        low < 16,
    ensures
        decoded((high * 16 + low) as u8) == (Direction::from_raw(high), Direction::from_raw(low)),
{
}

/// Of the 256 command bytes, those with 1 in a selector ask that motor to go
/// forward, those with 2 to go backward, and all others stop it.
pub proof fn decoded_selects(byte: u8)
    ensures
        decoded(byte).0 == Direction::Forward <==> 0x10 <= byte <= 0x1F,
        decoded(byte).0 == Direction::Backward <==> 0x20 <= byte <= 0x2F,
        decoded(byte).1 == Direction::Forward <==> byte % 16 == 1,
        decoded(byte).1 == Direction::Backward <==> byte % 16 == 2,
        decoded(byte).0 == Direction::Stopped <==> !(0x10 <= byte <= 0x2F),
        decoded(byte).1 == Direction::Stopped <==> (byte % 16 != 1 && byte % 16 != 2),
{
}

/// A command byte alone settles the phase lines of a channel of given wiring:
/// the lines end up the same whatever they were before, and whatever bytes
/// were carried out before.
pub proof fn command_settles_the_phases(before: Channel, other: Channel, byte: u8)
    requires
        before.invert == other.invert,
    ensures
        before.driven(decoded(byte).0).phase_a == other.driven(decoded(byte).0).phase_a,
        before.driven(decoded(byte).0).phase_b == other.driven(decoded(byte).0).phase_b,
        before.driven(decoded(byte).1).phase_a == other.driven(decoded(byte).1).phase_a,
        before.driven(decoded(byte).1).phase_b == other.driven(decoded(byte).1).phase_b,
{
}

/// Commands do not accumulate: after two bytes in a row a channel is where
/// the second byte alone would have put it.
pub proof fn later_command_replaces_earlier(channel: Channel, earlier: u8, later: u8)
    ensures
        channel.driven(decoded(earlier).0).driven(decoded(later).0) == channel.driven(
            decoded(later).0,
        ),
        channel.driven(decoded(earlier).1).driven(decoded(later).1) == channel.driven(
            decoded(later).1,
        ),
{
}

} // verus!
