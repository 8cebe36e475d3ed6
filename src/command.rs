use vstd::prelude::*;

verus! {

/// One unit of client intent, decoded from an inbound payload.
#[derive(Clone, Copy, Debug, PartialEq, Eq, Structural)]
pub enum Command {
    /// Move by the given offsets.
    Move { dx: i32, dy: i32 },
    /// Leave the current encounter.
    Flee,
}

/// Why a payload could not be turned into a `Command`.
#[derive(Clone, Copy, Debug, PartialEq, Eq, Structural)]
pub enum DecodeError {
    /// The payload holds no bytes at all.
    Empty,
    /// The first byte names no known command.
    UnknownTag(u8),
    /// The payload's length does not fit the command its first byte names.
    WrongLength(usize),
}

/// First byte of an encoded move command (ASCII `M`).
pub const MOVE_TAG: u8 = 0x4d;

/// Length of an encoded move command: the tag, then `dx` and `dy` as
/// little-endian two's-complement 32-bit integers.
pub const MOVE_LEN: usize = 9;

/// The encoded flee command: its tag alone (ASCII `F`).
pub const FLEE_TAG: u8 = 0x46;

pub const FLEE_LEN: usize = 1;

/// The unsigned little-endian value of the four bytes of `b` from `at` on.
pub open spec fn le_u32_at(b: Seq<u8>, at: int) -> int {
    b[at] + 256 * b[at + 1] + 65536 * b[at + 2] + 16777216 * b[at + 3]
}

/// The two's-complement reading of a 32-bit unsigned value.
pub open spec fn signed32(u: int) -> int {
    if u < 0x8000_0000 {
        u
    } else {
        u - 0x1_0000_0000
    }
}

/// What a payload decodes to.
pub open spec fn decode_spec(b: Seq<u8>) -> Result<Command, DecodeError> {
    if b.len() == 0 {
        Err(DecodeError::Empty)
    } else if b[0] == MOVE_TAG {
        if b.len() != MOVE_LEN {
            Err(DecodeError::WrongLength(b.len() as usize))
        } else {
            Ok(
                Command::Move {
                    dx: signed32(le_u32_at(b, 1)) as i32,
                    dy: signed32(le_u32_at(b, 5)) as i32,
                },
            )
        }
    } else if b[0] == FLEE_TAG {
        if b.len() != FLEE_LEN {
            Err(DecodeError::WrongLength(b.len() as usize))
        } else {
            Ok(Command::Flee)
        }
    } else {
        Err(DecodeError::UnknownTag(b[0]))
    }
}

fn read_i32_le(b: &[u8], at: usize) -> (r: i32)
    requires
        at + 4 <= b@.len(),
    ensures
        r as int == signed32(le_u32_at(b@, at as int)),
{
    let u: u32 = b[at] as u32 + (b[at + 1] as u32) * 256 + (b[at + 2] as u32) * 65536 + (b[at
        + 3] as u32) * 16777216;
    if u < 0x8000_0000 {
        u as i32
    } else {
        (u as i64 - 0x1_0000_0000i64) as i32
    }
}

/// Turns an inbound payload into a command.
pub fn decode_command(payload: &[u8]) -> (r: Result<Command, DecodeError>)
    ensures
        r == decode_spec(payload@),
{
    if payload.len() == 0 {
        Err(DecodeError::Empty)
    } else if payload[0] == MOVE_TAG {
        if payload.len() != MOVE_LEN {
            Err(DecodeError::WrongLength(payload.len()))
        } else {
            let dx = read_i32_le(payload, 1);
            let dy = read_i32_le(payload, 5);
            Ok(Command::Move { dx, dy })
        }
    } else if payload[0] == FLEE_TAG {
        if payload.len() != FLEE_LEN {
            Err(DecodeError::WrongLength(payload.len()))
        } else {
            Ok(Command::Flee)
        }
    } else {
        Err(DecodeError::UnknownTag(payload[0]))
    }
}

} // verus!
