//! Reading the fixed 64-byte header at the start of a VGM file.

use crate::header::{Header, SN76489, SN76489Feedback, SN76489Flags, SN76489ShiftRegisterWidth};
use vstd::prelude::*;

verus! {

/// Bytes that the fixed part of the header takes.
pub const HEADER_LEN: usize = 0x40;

/// Offset of the data-offset field, to which that field is relative.
pub const DATA_OFFSET_FIELD: u32 = 0x34;

/// Why a header could not be read.
#[derive(Clone, Copy, Debug, PartialEq, Eq, Structural)]
pub enum HeaderError {
    /// The file does not start with "Vgm ".
    BadIdent,
    /// The file ends inside the header.
    Truncated,
    /// The command stream would start beyond 4 GiB.
    DataOffsetOverflow,
}

/// The little-endian `u32` at `at`.
pub open spec fn le_u32(b: Seq<u8>, at: int) -> u32 {
    (b[at] as int + b[at + 1] as int * 0x100 + b[at + 2] as int * 0x1_0000 + b[at + 3] as int
        * 0x100_0000) as u32
}

/// The little-endian `u16` at `at`.
pub open spec fn le_u16(b: Seq<u8>, at: int) -> u16 {
    (b[at] as int + b[at + 1] as int * 0x100) as u16
}

/// `v`, or `None` for 0.
pub open spec fn nonzero(v: u32) -> Option<u32> {
    if v == 0 {
        None
    } else {
        Some(v)
    }
}

/// `v` if a file of `version` has the field, which came with version `first`.
pub open spec fn since<T>(version: u32, first: u32, v: T) -> Option<T> {
    if version < first {
        None
    } else {
        Some(v)
    }
}

/// The file starts with the identifier "Vgm ".
pub open spec fn has_ident(b: Seq<u8>) -> bool {
    &&& b.len() >= 4
    &&& b[0] == 0x56
    &&& b[1] == 0x67
    &&& b[2] == 0x6d
    &&& b[3] == 0x20
}

/// Offset of the command stream relative to the data-offset field: versions
/// before 1.50 have no such field and start the stream at 0x40.
pub open spec fn relative_data_offset(b: Seq<u8>) -> u32 {
    if le_u32(b, 0x08) < 0x150 {
        0x0c
    } else {
        le_u32(b, 0x34)
    }
}

/// The SN76489 that the header describes, if its clock is not 0.
pub open spec fn sn76489_of(b: Seq<u8>) -> Option<SN76489> {
    let version = le_u32(b, 0x08);
    let clock = le_u32(b, 0x0c);
    if clock == 0 {
        None
    } else {
        Some(
            SN76489 {
                clock,
                feedback: since(version, 0x110, SN76489Feedback { bits: le_u16(b, 0x28) }),
                shift_register_width: since(
                    version,
                    0x110,
                    SN76489ShiftRegisterWidth { bits: b[0x2a] },
                ),
                flags: since(version, 0x151, SN76489Flags { bits: b[0x2b] & 0x0f }),
                t6w28: clock & 0x8000_0000 != 0,
                dual_chip_bit: clock & 0x4000_0000 != 0,
            },
        )
    }
}

/// The header that bytes `b` start with.
pub open spec fn header_of(b: Seq<u8>) -> Header {
    let version = le_u32(b, 0x08);
    Header {
        eof_offset: le_u32(b, 0x04),
        version,
        sn76489: sn76489_of(b),
        ym2413_clock: nonzero(le_u32(b, 0x10)),
        gd3_offset: nonzero(le_u32(b, 0x14)),
        total_samples: le_u32(b, 0x18),
        loop_offset: le_u32(b, 0x1c),
        loop_samples: le_u32(b, 0x20),
        rate: since(version, 0x101, le_u32(b, 0x24)),
        ym2612_clock: since(version, 0x110, le_u32(b, 0x2c)),
        ym2151_clock: since(version, 0x110, le_u32(b, 0x30)),
        data_offset: (relative_data_offset(b) + 0x34) as u32,
        sega_pcm_clock: since(version, 0x151, le_u32(b, 0x38)),
        spcm_interface: since(version, 0x151, le_u32(b, 0x3c)),
    }
}

/// What reading the header of `b` gives.
pub open spec fn header_result(b: Seq<u8>) -> Result<Header, HeaderError> {
    if !has_ident(b) {
        Err(HeaderError::BadIdent)
    } else if b.len() < 0x40 {
        Err(HeaderError::Truncated)
    } else if relative_data_offset(b) + 0x34 > u32::MAX {
        Err(HeaderError::DataOffsetOverflow)
    } else {
        Ok(header_of(b))
    }
}

fn take_u32(b: &[u8], at: usize) -> (r: u32)
    requires
        at + 4 <= b@.len(),
    ensures
        r == le_u32(b@, at as int),
{
    b[at] as u32 + b[at + 1] as u32 * 0x100 + b[at + 2] as u32 * 0x1_0000 + b[at + 3] as u32
        * 0x100_0000
}

fn take_u16(b: &[u8], at: usize) -> (r: u16)
    requires
        at + 2 <= b@.len(),
    ensures
        r == le_u16(b@, at as int),
{
    b[at] as u16 + b[at + 1] as u16 * 0x100
}

fn take_option_u32(b: &[u8], at: usize) -> (r: Option<u32>)
    requires
        at + 4 <= b@.len(),
    ensures
        r == nonzero(le_u32(b@, at as int)),
{
    let v = take_u32(b, at);
    if v == 0 {
        None
    } else {
        Some(v)
    }
}

fn take_since(b: &[u8], at: usize, version: u32, first: u32) -> (r: Option<u32>)
    requires
        at + 4 <= b@.len(),
    ensures
        r == since(version, first, le_u32(b@, at as int)),
{
    if version < first {
        None
    } else {
        Some(take_u32(b, at))
    }
}

/// Reads the header at the start of `input`. On success the command stream
/// starts at `data_offset` in `input`.
pub fn header(input: &[u8]) -> (r: Result<Header, HeaderError>)
    ensures
        r == header_result(input@),
{
    if input.len() < 4 || input[0] != 0x56 || input[1] != 0x67 || input[2] != 0x6d || input[3]
        != 0x20 {
        return Err(HeaderError::BadIdent);
    }
    if input.len() < HEADER_LEN {
        return Err(HeaderError::Truncated);
    }
    let eof_offset = take_u32(input, 0x04);
    let version = take_u32(input, 0x08);
    let sn76489_clock = take_u32(input, 0x0c);
    let ym2413_clock = take_option_u32(input, 0x10);
    let gd3_offset = take_option_u32(input, 0x14);
    let total_samples = take_u32(input, 0x18);
    let loop_offset = take_u32(input, 0x1c);
    let loop_samples = take_u32(input, 0x20);

    // 1.01 additions
    let rate = take_since(input, 0x24, version, 0x101);

    // 1.10 additions
    let feedback = if version < 0x110 {
        None
    } else {
        Some(SN76489Feedback::from_bits_truncate(take_u16(input, 0x28)))
    };
    let shift_register_width = if version < 0x110 {
        None
    } else {
        Some(SN76489ShiftRegisterWidth::from_bits_truncate(input[0x2a]))
    };

    // 1.51 additions
    let flags = if version < 0x151 {
        None
    } else {
        Some(SN76489Flags::from_bits_truncate(input[0x2b]))
    };

    let sn76489 = if sn76489_clock == 0 {
        None
    } else {
        Some(SN76489::new(sn76489_clock, feedback, shift_register_width, flags))
    };

    // 1.10 additions
    let ym2612_clock = take_since(input, 0x2c, version, 0x110);
    let ym2151_clock = take_since(input, 0x30, version, 0x110);

    // 1.50 additions: the offset is relative to its own field.
    let relative = if version < 0x150 {
        0x0c
    } else {
        take_u32(input, 0x34)
    };
    if relative > u32::MAX - DATA_OFFSET_FIELD {
        return Err(HeaderError::DataOffsetOverflow);
    }
    let data_offset = relative + DATA_OFFSET_FIELD;

    // 1.51 additions
    let sega_pcm_clock = take_since(input, 0x38, version, 0x151);
    let spcm_interface = take_since(input, 0x3c, version, 0x151);

    Ok(
        Header {
            eof_offset,
            version,
            sn76489,
            ym2413_clock,
            gd3_offset,
            total_samples,
            loop_offset,
            loop_samples,
            rate,
            ym2612_clock,
            ym2151_clock,
            data_offset,
            sega_pcm_clock,
            spcm_interface,
        },
    )
}

} // verus!
