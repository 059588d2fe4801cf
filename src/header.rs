//! Chip configuration and file header values of a VGM file.

use vstd::prelude::*;
use vstd::string::StringExecFns;

verus! {

/// White-noise feedback taps of the SN76489: bit n set means that bit n of the
/// shift register feeds back.
///
/// Files of version 1.01 and earlier omit it; 0x0009 is then assumed.
#[derive(Clone, Copy, Debug, PartialEq, Eq)]
pub struct SN76489Feedback {
    pub bits: u16,
}

impl SN76489Feedback {
    /// The pattern of taps `bits`. All sixteen bits are taps, so none is dropped.
    pub fn from_bits_truncate(bits: u16) -> (r: Self)
        ensures
            r.bits == bits,
    {
        SN76489Feedback { bits }
    }

    pub fn bits(&self) -> (r: u16)
        ensures
            r == self.bits,
    {
        self.bits
    }
}

/// Width of the noise shift register, in bits.
///
/// Files of version 1.01 and earlier omit it; 16 is then assumed.
#[derive(Clone, Copy, Debug, PartialEq, Eq)]
pub struct SN76489ShiftRegisterWidth {
    pub bits: u8,
}

impl SN76489ShiftRegisterWidth {
    /// The width `bits`. Every value of the byte is a width, so none is dropped.
    pub fn from_bits_truncate(bits: u8) -> (r: Self)
        ensures
            r.bits == bits,
    {
        SN76489ShiftRegisterWidth { bits }
    }

    pub fn bits(&self) -> (r: u8)
        ensures
            r == self.bits,
    {
        self.bits
    }
}

/// Behaviour flags of the SN76489:
/// bit 0: a period of 0 counts as 0x400;
/// bit 1: the output is negated;
/// bit 2: stereo is off (on when clear);
/// bit 3: the clock divider by 8 is off (on when clear).
///
/// Files of version 1.51 and earlier omit them; all clear is then assumed.
#[derive(Clone, Copy, Debug, PartialEq, Eq)]
pub struct SN76489Flags {
    pub bits: u8,
}

/// The bits of a flags byte that carry a flag.
pub const SN76489_FLAG_BITS: u8 = 0x0f;

impl SN76489Flags {
    /// The flags of `bits`; bits that name no flag are dropped.
    pub fn from_bits_truncate(bits: u8) -> (r: Self)
        ensures
            r.bits == bits & SN76489_FLAG_BITS,
    {
        SN76489Flags { bits: bits & SN76489_FLAG_BITS }
    }

    pub fn bits(&self) -> (r: u8)
        ensures
            r == self.bits,
    {
        self.bits
    }
}

/// Configuration of an SN76489 chip as a file header gives it.
#[derive(Clone, Copy, Debug, PartialEq, Eq)]
pub struct SN76489 {
    /// Input clock in Hz (typically 3579545). Bit 31 marks a T6W28, bit 30
    /// a second chip; both are masked off before the value is used as a
    /// frequency.
    pub clock: u32,
    pub feedback: Option<SN76489Feedback>,
    pub shift_register_width: Option<SN76489ShiftRegisterWidth>,
    pub flags: Option<SN76489Flags>,
    /// Bit 31 of the clock: the chip is a T6W28 (Neo Geo Pocket).
    pub t6w28: bool,
    /// Bit 30 of the clock: a second chip is present.
    pub dual_chip_bit: bool,
}

impl SN76489 {
    pub fn new(
        clock: u32,
        feedback: Option<SN76489Feedback>,
        shift_register_width: Option<SN76489ShiftRegisterWidth>,
        flags: Option<SN76489Flags>,
    ) -> (r: Self)
        ensures
            r == (SN76489 {
                clock,
                feedback,
                shift_register_width,
                flags,
                t6w28: clock & 0x8000_0000 != 0,
                dual_chip_bit: clock & 0x4000_0000 != 0,
            }),
    {
        SN76489 {
            clock,
            feedback,
            shift_register_width,
            flags,
            t6w28: clock & 0x8000_0000 != 0,
            dual_chip_bit: clock & 0x4000_0000 != 0,
        }
    }
}

/// The header of a VGM file. Fields that the file's version predates are `None`.
#[derive(Clone, Copy, Debug, PartialEq, Eq)]
pub struct Header {
    /// Offset of the end of the file, relative to this field.
    pub eof_offset: u32,
    /// Version in BCD: 1.70 is 0x00000170.
    pub version: u32,
    /// The SN76489, if the file uses one.
    pub sn76489: Option<SN76489>,
    /// Clock of the YM2413 in Hz, `None` if it is not used.
    pub ym2413_clock: Option<u32>,
    /// Offset of the GD3 tag relative to this field, `None` if there is no tag.
    pub gd3_offset: Option<u32>,
    /// Sum of all waits in the file, in samples.
    pub total_samples: u32,
    /// Offset of the loop point relative to this field, 0 if there is no loop.
    pub loop_offset: u32,
    /// Samples in one loop, 0 if there is no loop.
    pub loop_samples: u32,
    /// Rate of the recording in Hz (50 PAL, 60 NTSC, 0 for no rate scaling).
    pub rate: Option<u32>,
    /// Clock of the YM2612 in Hz.
    pub ym2612_clock: Option<u32>,
    /// Clock of the YM2151 in Hz.
    pub ym2151_clock: Option<u32>,
    /// Absolute offset of the command stream in the file.
    pub data_offset: u32,
    /// Clock of the Sega PCM in Hz.
    pub sega_pcm_clock: Option<u32>,
    /// Interface register of the Sega PCM.
    pub spcm_interface: Option<u32>,
}

/// Lower-case hexadecimal digit of `d` (0 to 15).
pub open spec fn hex_char(d: u32) -> char {
    seq!['0', '1', '2', '3', '4', '5', '6', '7', '8', '9', 'a', 'b', 'c', 'd', 'e', 'f'][d as int]
}

/// Digit `i` (0 the most significant) of `n` written with eight hex digits.
pub open spec fn hex_digit_at(n: u32, i: int) -> char {
    hex_char((n >> ((28 - 4 * i) as u32)) & 0xf)
}

/// `n` as "0x" and eight lower-case hex digits, as the `{:#010x}` format writes it.
pub open spec fn hex_text(n: u32) -> Seq<char> {
    seq!['0', 'x'] + Seq::new(8, |i: int| hex_digit_at(n, i))
}

fn hex_digit(d: u32) -> (r: &'static str)
    requires
        d < 16,
    ensures
        r@ == seq![hex_char(d)],
{
    let digit = if d == 0 {
        proof { reveal_strlit("0"); }
        "0"
    } else if d == 1 {
        proof { reveal_strlit("1"); }
        "1"
    } else if d == 2 {
        proof { reveal_strlit("2"); }
        "2"
    } else if d == 3 {
        proof { reveal_strlit("3"); }
        "3"
    } else if d == 4 {
        proof { reveal_strlit("4"); }
        "4"
    } else if d == 5 {
        proof { reveal_strlit("5"); }
        "5"
    } else if d == 6 {
        proof { reveal_strlit("6"); }
        "6"
    } else if d == 7 {
        proof { reveal_strlit("7"); }
        "7"
    } else if d == 8 {
        proof { reveal_strlit("8"); }
        "8"
    } else if d == 9 {
        proof { reveal_strlit("9"); }
        "9"
    } else if d == 10 {
        proof { reveal_strlit("a"); }
        "a"
    } else if d == 11 {
        proof { reveal_strlit("b"); }
        "b"
    } else if d == 12 {
        proof { reveal_strlit("c"); }
        "c"
    } else if d == 13 {
        proof { reveal_strlit("d"); }
        "d"
    } else if d == 14 {
        proof { reveal_strlit("e"); }
        "e"
    } else {
        proof { reveal_strlit("f"); }
        "f"
    };
    digit
}

/// `n` as "0x" and eight lower-case hex digits.
pub fn u32_hex_fmt(n: u32) -> (r: String)
    ensures
        r@ == hex_text(n),
{
    proof {
        reveal_strlit("0x");
    }
    let mut text = String::from_str("0x");
    let mut i: u32 = 0;
    while i < 8
        invariant
            i <= 8,
            text@ == seq!['0', 'x'] + Seq::new(i as nat, |j: int| hex_digit_at(n, j)),
        decreases 8 - i,
    {
        let shift: u32 = 28 - 4 * i;
        let d = (n >> shift) & 0xf;
        assert(d < 16) by (bit_vector)
            requires
                d == (n >> shift) & 0xf,
        ;
        text.append(hex_digit(d));
        proof {
            assert(Seq::new((i + 1) as nat, |j: int| hex_digit_at(n, j)) =~= Seq::new(
                i as nat,
                |j: int| hex_digit_at(n, j),
            ).push(hex_digit_at(n, i as int)));
        }
        i = i + 1;
    }
    text
}

/// `n` as `u32_hex_fmt` writes it, or "None".
pub fn option_u32_hex_fmt(n: &Option<u32>) -> (r: String)
    ensures
        r@ == match *n {
            Some(v) => hex_text(v),
            None => seq!['N', 'o', 'n', 'e'],
        },
{
    match n {
        Some(v) => u32_hex_fmt(*v),
        None => {
            proof {
                reveal_strlit("None");
            }
            String::from_str("None")
        },
    }
}

} // verus!
