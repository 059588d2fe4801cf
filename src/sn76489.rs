//! Emulation of the SN76489 programmable sound generator: three square-wave
//! tone channels, one noise channel driven by a 16-bit shift register, and a
//! rate converter from the chip's internal tick rate to an output sample rate.
//!
//! Every operation is stated as a spec function over `SNG` itself, so a run of
//! the chip is a composition of those functions.
#![allow(non_snake_case)]

use crate::header::SN76489;
use vstd::array::spec_array_update;
use vstd::prelude::*;
use vstd::wrapping::i16_specs;
use vstd::wrapping::u32_specs;

verus! {

/// Output level of each attenuation step, loudest (0) to silent (15).
pub open spec fn volume_table() -> Seq<u32> {
    seq![255u32, 203, 161, 128, 101, 80, 64, 51, 40, 32, 25, 20, 16, 12, 10, 0]
}

/// Level of attenuation step `att`.
pub fn volume_level(att: u32) -> (r: u32)
    requires
        att < 16,
    ensures
        r == volume_table()[att as int],
        r <= 255,
{
    let table: [u32; 16] = [255, 203, 161, 128, 101, 80, 64, 51, 40, 32, 25, 20, 16, 12, 10, 0];
    proof {
        assert(table@ =~= volume_table());
    }
    table[att as usize]
}

/// Exclusive-or of the sixteen low bits of `v`.
pub open spec fn parity_spec(v: u32) -> u32 {
    (v ^ (v >> 1) ^ (v >> 2) ^ (v >> 3) ^ (v >> 4) ^ (v >> 5) ^ (v >> 6) ^ (v >> 7) ^ (v >> 8) ^ (v
        >> 9) ^ (v >> 10) ^ (v >> 11) ^ (v >> 12) ^ (v >> 13) ^ (v >> 14) ^ (v >> 15)) & 1
}

fn parity(v: u32) -> (r: u32)
    ensures
        r == parity_spec(v),
{
    let a = v ^ (v >> 8);
    let b = a ^ (a >> 4);
    let c = b ^ (b >> 2);
    let d = c ^ (c >> 1);
    assert(d & 1 == parity_spec(v)) by (bit_vector)
        requires
            a == v ^ (v >> 8),
            b == a ^ (a >> 4),
            c == b ^ (b >> 2),
            d == c ^ (c >> 1),
    ;
    d & 1
}

/// The eight registers of the chip, as a 3-bit address selects them.
#[derive(Clone, Copy, Debug, PartialEq, Eq, Structural)]
pub enum Register {
    /// The 10-bit period of tone channel 0, 1 or 2.
    Tone(usize),
    /// The attenuation of channel 0, 1, 2 or 3 (3 is the noise channel).
    Volume(usize),
    /// Shift rate and mode of the noise channel.
    NoiseControl,
}

/// Register selected by address `adr` (0 to 7).
pub open spec fn register_at(adr: u32) -> Register {
    if adr == 6 {
        Register::NoiseControl
    } else if adr % 2 == 0 {
        Register::Tone((adr / 2) as usize)
    } else {
        Register::Volume((adr / 2) as usize)
    }
}

impl Register {
    pub open spec fn in_range(self) -> bool {
        match self {
            Register::Tone(ch) => ch < 3,
            Register::Volume(ch) => ch < 4,
            Register::NoiseControl => true,
        }
    }

    pub fn from_address(adr: u32) -> (r: Register)
        requires
            adr < 8,
        ensures
            r == register_at(adr),
            r.in_range(),
    {
        if adr == 6 {
            Register::NoiseControl
        } else if adr % 2 == 0 {
            Register::Tone((adr / 2) as usize)
        } else {
            Register::Volume((adr / 2) as usize)
        }
    }
}

/// State of one SN76489 chip.
#[derive(Clone, Copy, Debug)]
pub struct SNG {
    /// Last mono mix.
    pub out: i32,
    /// Input clock in Hz.
    pub clk: u32,
    /// Output sample rate in Hz.
    pub rate: u32,
    /// Step of `base_count` per internal tick, in 1/2^24 of a chip cycle.
    pub base_incr: u32,
    /// 0 selects one tick per sample; anything else the oversampling converter.
    pub quality: u32,
    /// Phase counter of each tone channel.
    pub count: [u32; 3],
    /// Attenuation of each tone channel (0 loudest, 15 silent).
    pub volume: [u32; 3],
    /// 10-bit period of each tone channel.
    pub freq: [u32; 3],
    /// Square-wave polarity of each tone channel.
    pub edge: [u32; 3],
    /// Nonzero keeps a tone channel out of the mix.
    pub mute: [u32; 3],
    /// The noise shift register.
    pub noise_seed: u32,
    /// Phase counter of the noise channel.
    pub noise_count: u32,
    /// Period of the noise channel when it runs at its own shift rate.
    pub noise_freq: u32,
    /// Attenuation of the noise channel.
    pub noise_volume: u32,
    /// 0 for periodic noise, 1 for white noise.
    pub noise_mode: u32,
    /// Nonzero when the noise period follows tone channel 2.
    pub noise_fref: u32,
    /// Taps of the shift register that feed back in white-noise mode.
    pub noise_feedback: u16,
    /// Fractional phase of the internal clock (24 bits).
    pub base_count: u32,
    /// Length of one output sample, in 1/2^31 s.
    pub realstep: u32,
    /// Time the chip has run ahead of the output, in 1/2^31 s.
    pub sngtime: u32,
    /// Length of one internal tick, in 1/2^31 s.
    pub sngstep: u32,
    /// Address of the last latched register.
    pub adr: u32,
    /// Panning mask: bits 0 to 3 route channels to the right ear, 4 to 7 to the left.
    pub stereo: u32,
    /// Smoothed output of each channel (3 is noise).
    pub ch_out: [i16; 4],
}

/// The sample rate that `r` asks for: 0 means 44100 Hz.
pub open spec fn rate_or_default(r: u32) -> u32 {
    if r != 0 {
        r
    } else {
        44100
    }
}

/// Phase step that gives one internal tick (clock / 16) per sample at `rate`,
/// in units of 2^-24 ticks: clk * 2^24 / (16 * rate), at most `u32::MAX`.
pub open spec fn fast_increment(clk: u32, rate: u32) -> u32 {
    let q = clk as int * 0x10_0000 / rate as int;
    if q > u32::MAX {
        u32::MAX
    } else {
        q as u32
    }
}

/// The rate converter's derived fields recomputed from clock, rate and quality.
pub open spec fn refreshed(s: SNG) -> SNG {
    if s.quality != 0 {
        SNG {
            base_incr: 0x100_0000,
            realstep: (0x8000_0000u32 / s.rate) as u32,
            sngstep: (0x8000_0000u32 / (s.clk / 16)) as u32,
            sngtime: 0,
            ..s
        }
    } else {
        SNG { base_incr: fast_increment(s.clk, s.rate), ..s }
    }
}

/// A chip as it is allocated: clock and rate set, every other field zero,
/// noise taps at bits 0 and 3.
pub open spec fn blank(clk: u32, rate: u32) -> SNG {
    SNG {
        out: 0,
        clk,
        rate: rate_or_default(rate),
        base_incr: 0,
        quality: 0,
        count: [0u32, 0, 0],
        volume: [0u32, 0, 0],
        freq: [0u32, 0, 0],
        edge: [0u32, 0, 0],
        mute: [0u32, 0, 0],
        noise_seed: 0,
        noise_count: 0,
        noise_freq: 0,
        noise_volume: 0,
        noise_mode: 0,
        noise_fref: 0,
        noise_feedback: 0x0009,
        base_count: 0,
        realstep: 0,
        sngtime: 0,
        sngstep: 0,
        adr: 0,
        stereo: 0,
        ch_out: [0i16, 0, 0, 0],
    }
}

/// Bits of a configured clock that hold the frequency; the two above are flags.
pub const CLOCK_MASK: u32 = 0x3fff_ffff;

/// Frequency of the configured clock in Hz.
pub open spec fn chip_clock(cfg: SN76489) -> u32 {
    cfg.clock & CLOCK_MASK
}

/// Noise taps of a configuration: bits 0 and 3 where it names none.
pub open spec fn feedback_of(cfg: SN76489) -> u16 {
    match cfg.feedback {
        Some(f) => f.bits,
        None => 0x0009,
    }
}

/// The reset chip that configuration `cfg` describes, at sample rate `rate`.
pub open spec fn configured(cfg: SN76489, rate: u32) -> SNG {
    SNG {
        noise_feedback: feedback_of(cfg),
        ..reset_state(refreshed(blank(chip_clock(cfg), rate)))
    }
}

/// Power-on state: counters and periods zero, every channel silent, noise
/// register at 0x8000, every channel on both ears.
pub open spec fn reset_state(s: SNG) -> SNG {
    SNG {
        base_count: 0,
        count: [0u32, 0, 0],
        freq: [0u32, 0, 0],
        edge: [0u32, 0, 0],
        volume: [15u32, 15, 15],
        mute: [0u32, 0, 0],
        adr: 0,
        noise_seed: 0x8000,
        noise_count: 0,
        noise_freq: 0,
        noise_volume: 15,
        noise_mode: 0,
        noise_fref: 0,
        out: 0,
        stereo: 0xff,
        ch_out: [0i16, 0, 0, 0],
        ..s
    }
}

/// Noise period for shift-rate selector `sel` (0 to 2): 32, 64 or 128 ticks.
/// Selector 3 means that channel 2's period is used.
pub open spec fn noise_rate_period(sel: u32) -> u32 {
    32u32 << sel
}

/// The noise control register set from its three data bits `v`; writing it
/// restarts the shift register.
pub open spec fn noise_control(s: SNG, v: u32) -> SNG {
    let sel = v & 3;
    let period = if sel == 3 {
        s.freq[2]
    } else {
        noise_rate_period(sel)
    };
    SNG {
        noise_mode: (v & 4) >> 2,
        noise_fref: if sel == 3 {
            1
        } else {
            0
        },
        noise_freq: if period == 0 {
            1
        } else {
            period
        },
        noise_seed: 0x8000,
        ..s
    }
}

/// Register `reg` written with byte `val`; `latch` tells a latch byte (which
/// carries the low four bits of a period) from a data byte (the high six).
pub open spec fn register_written(s: SNG, reg: Register, val: u32, latch: bool) -> SNG {
    match reg {
        Register::Tone(ch) => {
            let period = if latch {
                (s.freq[ch as int] & 0x3f0) | (val & 0xf)
            } else {
                ((val & 0x3f) << 4) | (s.freq[ch as int] & 0xf)
            };
            SNG { freq: spec_array_update(s.freq, ch as int, period), ..s }
        },
        Register::Volume(ch) => {
            if ch < 3 {
                SNG { volume: spec_array_update(s.volume, ch as int, val & 0xf), ..s }
            } else {
                SNG { noise_volume: val & 0xf, ..s }
            }
        },
        Register::NoiseControl => noise_control(s, val & 7),
    }
}

/// The chip after byte `val` is written to its port. A byte with bit 7 set
/// latches the register that bits 6 to 4 address and writes its low bits; any
/// other byte is data for the register latched last.
pub open spec fn written(s: SNG, val: u32) -> SNG {
    if val & 0x80 != 0 {
        let adr = (val & 0x70) >> 4;
        register_written(SNG { adr, ..s }, register_at(adr), val, true)
    } else {
        register_written(s, register_at(s.adr), val, false)
    }
}

/// One step of the noise shift register.
pub open spec fn lfsr_shift(seed: u32, white: bool, taps: u16) -> u32 {
    if white {
        (seed >> 1) | (parity_spec(seed & (taps as u32)) << 15)
    } else {
        (seed >> 1) | ((seed & 1) << 15)
    }
}

/// A channel's smoothed output after one tick: the level `amp` is added
/// when `on`, then the sum is halved.
pub open spec fn smoothed(level: i16, on: bool, amp: u32) -> i16 {
    let raised = if on {
        i16_specs::wrapping_add(level, (amp * 16) as i16)
    } else {
        level
    };
    raised >> 1
}

/// The noise channel advanced by `incr` chip ticks.
pub open spec fn noise_ticked(s: SNG, incr: u32) -> SNG {
    let count = u32_specs::wrapping_add(s.noise_count, incr);
    let fired = count & 0x100 != 0;
    let seed = if fired {
        lfsr_shift(s.noise_seed, s.noise_mode != 0, s.noise_feedback)
    } else {
        s.noise_seed
    };
    let period = if s.noise_fref != 0 {
        s.freq[2]
    } else {
        s.noise_freq
    };
    SNG {
        noise_count: if fired {
            u32_specs::wrapping_sub(count, period)
        } else {
            count
        },
        noise_seed: seed,
        ch_out: spec_array_update(s.ch_out, 
            3,
            smoothed(s.ch_out[3], seed & 1 != 0, volume_table()[s.noise_volume as int]),
        ),
        ..s
    }
}

/// Tone channel `i` advanced by `incr` chip ticks.
pub open spec fn tone_ticked(s: SNG, i: int, incr: u32) -> SNG {
    let count = u32_specs::wrapping_add(s.count[i], incr);
    let fired = count & 0x400 != 0;
    let period = s.freq[i];
    let edge = if !fired {
        s.edge[i]
    } else if period > 1 {
        if s.edge[i] == 0 {
            1
        } else {
            0
        }
    } else {
        1
    };
    SNG {
        count: spec_array_update(s.count, 
            i,
            if fired && period > 1 {
                u32_specs::wrapping_sub(count, period)
            } else {
                count
            },
        ),
        edge: spec_array_update(s.edge, i, edge),
        ch_out: spec_array_update(s.ch_out, 
            i,
            smoothed(s.ch_out[i], edge != 0 && s.mute[i] == 0, volume_table()[s.volume[i] as int]),
        ),
        ..s
    }
}

/// One internal tick: the phase accumulator advances by `base_incr` and its
/// whole part moves the noise channel and then each tone channel.
pub open spec fn ticked(s: SNG) -> SNG {
    let sum = u32_specs::wrapping_add(s.base_count, s.base_incr);
    let incr = sum >> 24;
    let s1 = SNG { base_count: sum & 0xff_ffff, ..s };
    tone_ticked(tone_ticked(tone_ticked(noise_ticked(s1, incr), 0, incr), 1, incr), 2, incr)
}

/// Sum of the four channel outputs.
pub open spec fn mono_sum(s: SNG) -> int {
    s.ch_out[0] + s.ch_out[1] + s.ch_out[2] + s.ch_out[3]
}

pub open spec fn mixed(s: SNG) -> SNG {
    SNG { out: mono_sum(s) as i32, ..s }
}

/// Channel `c` as the ear whose enable bits start at `shift` hears it.
pub open spec fn panned(s: SNG, c: int, shift: u32) -> int {
    if (s.stereo >> ((c as u32) + shift)) & 1 != 0 {
        s.ch_out[c] as int
    } else {
        0
    }
}

/// Sum of the channels that one ear hears: `shift` is 4 for the left ear
/// and 0 for the right.
pub open spec fn ear_sum(s: SNG, shift: u32) -> int {
    panned(s, 0, shift) + panned(s, 1, shift) + panned(s, 2, shift) + panned(s, 3, shift)
}

/// The converter's step lengths are small enough that its time never wraps.
pub open spec fn steps_bounded(s: SNG) -> bool {
    &&& 0 < s.sngstep <= 0x8000_0000
    &&& s.realstep <= 0x8000_0000
}

/// A tick touches neither the converter nor the configuration.
pub proof fn lemma_tick_keeps_converter(s: SNG)
    ensures
        ticked(s).realstep == s.realstep,
        ticked(s).sngtime == s.sngtime,
        ticked(s).sngstep == s.sngstep,
        ticked(s).quality == s.quality,
        ticked(s).wf() == s.wf(),
{
}

/// How far the chip's time is behind one output sample's length.
pub open spec fn time_to_catch_up(s: SNG) -> nat {
    if s.realstep > s.sngtime {
        (s.realstep - s.sngtime) as nat
    } else {
        0
    }
}

/// Ticks the chip until its time reaches one output sample's length.
pub open spec fn caught_up(s: SNG) -> SNG
    decreases time_to_catch_up(s),
    when steps_bounded(s)
{
    if s.realstep > s.sngtime {
        let next = SNG { sngtime: (s.sngtime + s.sngstep) as u32, ..s };
        proof {
            lemma_tick_keeps_converter(next);
        }
        caught_up(ticked(next))
    } else {
        s
    }
}

/// The chip after the ticks that make up one output sample.
pub open spec fn advanced(s: SNG) -> SNG {
    if s.quality == 0 {
        ticked(s)
    } else {
        let t = caught_up(s);
        SNG { sngtime: u32_specs::wrapping_sub(t.sngtime, t.realstep), ..t }
    }
}

/// State after one mono sample.
pub open spec fn calc_state(s: SNG) -> SNG {
    mixed(advanced(s))
}

/// One mono sample: the channel sum, truncated to 16 bits.
pub open spec fn calc_output(s: SNG) -> i16 {
    mono_sum(advanced(s)) as i16
}

/// `n` mono samples from state `s`, and the state after them.
pub open spec fn render(s: SNG, n: nat) -> (SNG, Seq<i16>)
    decreases n,
{
    if n == 0 {
        (s, seq![])
    } else {
        let rest = render(calc_state(s), (n - 1) as nat);
        (rest.0, seq![calc_output(s)] + rest.1)
    }
}

/// `n` samples take `n` values.
pub proof fn lemma_render_len(s: SNG, n: nat)
    ensures
        render(s, n).1.len() == n,
    decreases n,
{
    if n > 0 {
        lemma_render_len(calc_state(s), (n - 1) as nat);
    }
}

/// The converter's ticks keep the chip well formed.
proof fn lemma_caught_up_wf(s: SNG)
    requires
        s.wf(),
        s.quality != 0,
    ensures
        caught_up(s).wf(),
        caught_up(s).quality == s.quality,
    decreases time_to_catch_up(s),
{
    if s.realstep > s.sngtime {
        let next = SNG { sngtime: (s.sngtime + s.sngstep) as u32, ..s };
        lemma_tick_keeps_converter(next);
        lemma_caught_up_wf(ticked(next));
    }
}

/// A sample keeps the chip well formed.
pub proof fn lemma_calc_wf(s: SNG)
    requires
        s.wf(),
    ensures
        calc_state(s).wf(),
{
    lemma_tick_keeps_converter(s);
    if s.quality != 0 {
        lemma_caught_up_wf(s);
    }
}

/// Every channel at full attenuation and every smoothed output at 0.
pub open spec fn silent(s: SNG) -> bool {
    &&& s.volume[0] == 15
    &&& s.volume[1] == 15
    &&& s.volume[2] == 15
    &&& s.noise_volume == 15
    &&& s.ch_out[0] == 0
    &&& s.ch_out[1] == 0
    &&& s.ch_out[2] == 0
    &&& s.ch_out[3] == 0
}

proof fn lemma_tick_silent(s: SNG)
    requires
        silent(s),
    ensures
        silent(ticked(s)),
{
    assert((0i16 >> 1) == 0i16) by (bit_vector);
    assert(volume_table()[15] == 0);
}

proof fn lemma_caught_up_silent(s: SNG)
    requires
        silent(s),
        steps_bounded(s),
    ensures
        silent(caught_up(s)),
    decreases time_to_catch_up(s),
{
    if s.realstep > s.sngtime {
        let next = SNG { sngtime: (s.sngtime + s.sngstep) as u32, ..s };
        lemma_tick_keeps_converter(next);
        lemma_tick_silent(next);
        lemma_caught_up_silent(ticked(next));
    }
}

proof fn lemma_render_silent(s: SNG, n: nat)
    requires
        s.wf(),
        silent(s),
    ensures
        render(s, n).1 =~= Seq::new(n, |i: int| 0i16),
    decreases n,
{
    if n > 0 {
        if s.quality == 0 {
            lemma_tick_silent(s);
        } else {
            lemma_caught_up_silent(s);
        }
        assert((0int as i16) == 0i16);
        lemma_calc_wf(s);
        lemma_render_silent(calc_state(s), (n - 1) as nat);
    }
}

/// After a reset and with no register written, every sample is 0, however
/// many are taken.
pub proof fn lemma_reset_then_silent(s: SNG, n: nat)
    requires
        s.wf(),
    ensures
        render(reset_state(s), n).1 == Seq::new(n, |i: int| 0i16),
{
    lemma_render_silent(reset_state(s), n);
}

/// The shift register after `n` shifts from `seed`.
pub open spec fn lfsr_after(seed: u32, white: bool, taps: u16, n: nat) -> u32
    decreases n,
{
    if n == 0 {
        seed
    } else {
        lfsr_shift(lfsr_after(seed, white, taps, (n - 1) as nat), white, taps)
    }
}

/// In periodic mode the register that a reset or a noise-control write
/// leaves at 0x8000 holds bit `15 - n` alone after `n` shifts, and 0x8000
/// again after sixteen, whatever the taps.
pub proof fn lemma_periodic_noise_sequence(taps: u16, n: nat)
    requires
        n <= 16,
    ensures
        n < 16 ==> lfsr_after(0x8000, false, taps, n) == 0x8000u32 >> (n as u32),
        n == 16 ==> lfsr_after(0x8000, false, taps, n) == 0x8000,
    decreases n,
{
    if n == 0 {
        assert(0x8000u32 >> 0u32 == 0x8000u32) by (bit_vector);
    } else {
        lemma_periodic_noise_sequence(taps, (n - 1) as nat);
        let k = (n - 1) as u32;
        let m = n as u32;
        let x = 0x8000u32 >> k;
        assert(k < 15 ==> ((x >> 1) | ((x & 1) << 15)) == 0x8000u32 >> m) by (bit_vector)
            requires
                x == 0x8000u32 >> k,
                m == k + 1,
        ;
        assert(k == 15 ==> ((x >> 1) | ((x & 1) << 15)) == 0x8000u32) by (bit_vector)
            requires
                x == 0x8000u32 >> k,
        ;
    }
}

/// The latch byte that sets the attenuation of channel `c` to `d`.
pub open spec fn volume_latch(c: u32, d: u32) -> u32 {
    0x90 | (c << 5) | d
}

/// A latch byte for the volume of channel `c` sets that channel's attenuation
/// to its data bits (channel 3 is the noise channel) and changes no other
/// attenuation or period.
pub proof fn lemma_volume_write(s: SNG, c: u32, d: u32)
    requires
        s.wf(),
        c < 4,
        d < 16,
    ensures
        ({
            let t = written(s, volume_latch(c, d));
            &&& c < 3 ==> t.volume[c as int] == d
            &&& c == 3 ==> t.noise_volume == d
            &&& forall|i: int| 0 <= i < 3 && i != c ==> t.volume[i] == s.volume[i]
            &&& c < 3 ==> t.noise_volume == s.noise_volume
            &&& t.freq == s.freq
            &&& t.adr == 2 * c + 1
        }),
{
    let v = volume_latch(c, d);
    assert(v & 0x80 != 0 && (v & 0x70) >> 4 == 2 * c + 1 && v & 0xf == d) by (bit_vector)
        requires
            v == 0x90 | (c << 5) | d,
            c < 4,
            d < 16,
    ;
}

/// Once tone channel `i` is high after a tick and not muted, its smoothed
/// output moves halfway towards sixteen times its volume-table level.
pub proof fn lemma_tone_level(s: SNG, i: int)
    requires
        s.wf(),
        0 <= i < 3,
        0 <= s.ch_out[i] <= 4080,
        ticked(s).edge[i] != 0,
        s.mute[i] == 0,
    ensures
        ticked(s).ch_out[i] == (s.ch_out[i] + 16 * volume_table()[s.volume[i] as int]) / 2,
{
    let amp = volume_table()[s.volume[i] as int];
    assert(amp <= 255) by {
        assert(s.volume[i] < 16);
    }
    let raised = (s.ch_out[i] + amp * 16) as i16;
    assert(raised >> 1 == raised / 2) by (bit_vector)
        requires
            0 <= raised,
    ;
}

impl SNG {
    /// Bounds that every operation keeps and relies on.
    pub open spec fn wf(self) -> bool {
        &&& self.rate > 0
        &&& self.adr < 8
        &&& self.volume[0] < 16
        &&& self.volume[1] < 16
        &&& self.volume[2] < 16
        &&& self.noise_volume < 16
        &&& self.quality != 0 ==> self.clk >= 16 && steps_bounded(self)
    }

    /// A chip for clock `clock` and sample rate `rate` (0 for 44100), reset.
    pub fn new(clock: u32, rate: u32) -> (r: SNG)
        ensures
            r == reset_state(refreshed(blank(clock, rate))),
            r.wf(),
    {
        let mut sng = SNG_new(clock, rate);
        SNG_reset(&mut sng);
        sng
    }

    /// A reset chip for configuration `cfg` at sample rate `rate` (0 for
    /// 44100), or `None` where the configuration's clock is 0 (no chip).
    pub fn from_config(cfg: &SN76489, rate: u32) -> (r: Option<SNG>)
        ensures
            chip_clock(*cfg) == 0 ==> r is None,
            chip_clock(*cfg) != 0 ==> r == Some(configured(*cfg, rate)),
            r matches Some(s) ==> s.wf(),
    {
        let clock = cfg.clock & CLOCK_MASK;
        if clock == 0 {
            return None;
        }
        let mut sng = SNG::new(clock, rate);
        sng.noise_feedback = match cfg.feedback {
            Some(f) => f.bits(),
            None => 0x0009,
        };
        Some(sng)
    }

    pub fn set_rate(&mut self, rate: u32)
        requires
            old(self).wf(),
        ensures
            *final(self) == refreshed(SNG { rate: rate_or_default(rate), ..*old(self) }),
            final(self).wf(),
    {
        SNG_set_rate(self, rate)
    }

    pub fn write(&mut self, value: u32)
        requires
            old(self).wf(),
        ensures
            *final(self) == written(*old(self), value),
            final(self).wf(),
    {
        SNG_writeIO(self, value)
    }

    /// Runs the chip for one mono sample and drops the sample.
    pub fn update(&mut self)
        requires
            old(self).wf(),
        ensures
            *final(self) == calc_state(*old(self)),
            final(self).wf(),
    {
        SNG_calc(self);
    }
}

proof fn lemma_quotient_bounds(n: u32, d: u32)
    requires
        0 < d,
        n <= 0x8000_0000,
    ensures
        n / d <= n,
        d <= 0x1000_0000 && n == 0x8000_0000 ==> n / d > 0,
{
    assert(n / d <= n) by (nonlinear_arith)
        requires
            0 < d,
            0 <= n,
    ;
    if d <= 0x1000_0000 && n == 0x8000_0000 {
        assert(n / d >= 8) by (nonlinear_arith)
            requires
                0 < d <= 0x1000_0000,
                n == 0x8000_0000,
        ;
    }
}

fn internal_refresh(sng: &mut SNG)
    requires
        old(sng).rate > 0,
        old(sng).quality != 0 ==> old(sng).clk >= 16,
    ensures
        *final(sng) == refreshed(*old(sng)),
        final(sng).quality != 0 ==> steps_bounded(*final(sng)),
{
    if sng.quality != 0 {
        sng.base_incr = 0x100_0000;
        sng.realstep = 0x8000_0000u32 / sng.rate;
        sng.sngstep = 0x8000_0000u32 / (sng.clk / 16);
        sng.sngtime = 0;
        proof {
            lemma_quotient_bounds(0x8000_0000u32, old(sng).rate);
            lemma_quotient_bounds(0x8000_0000u32, (old(sng).clk / 16) as u32);
        }
    } else {
        let q: u64 = sng.clk as u64 * 0x10_0000 / sng.rate as u64;
        sng.base_incr = if q > u32::MAX as u64 {
            u32::MAX
        } else {
            q as u32
        };
    }
}

pub fn SNG_set_rate(sng: &mut SNG, r: u32)
    requires
        old(sng).wf(),
    ensures
        *final(sng) == refreshed(SNG { rate: rate_or_default(r), ..*old(sng) }),
        final(sng).wf(),
{
    sng.rate = if r != 0 {
        r
    } else {
        44100
    };
    internal_refresh(sng);
}

/// Selects one tick per sample (`q == 0`) or the oversampling converter.
/// The converter divides by `clk / 16`, so it needs a clock of 16 Hz or more.
pub fn SNG_set_quality(sng: &mut SNG, q: u32)
    requires
        old(sng).wf(),
        q != 0 ==> old(sng).clk >= 16,
    ensures
        *final(sng) == refreshed(SNG { quality: q, ..*old(sng) }),
        final(sng).wf(),
{
    sng.quality = q;
    internal_refresh(sng);
}

/// A chip for clock `c` and sample rate `r` (0 for 44100), not yet reset.
pub fn SNG_new(c: u32, r: u32) -> (sng: SNG)
    ensures
        sng == refreshed(blank(c, r)),
        sng.wf(),
{
    let mut sng = SNG {
        out: 0,
        clk: c,
        rate: if r != 0 {
            r
        } else {
            44100
        },
        base_incr: 0,
        quality: 0,
        count: [0, 0, 0],
        volume: [0, 0, 0],
        freq: [0, 0, 0],
        edge: [0, 0, 0],
        mute: [0, 0, 0],
        noise_seed: 0,
        noise_count: 0,
        noise_freq: 0,
        noise_volume: 0,
        noise_mode: 0,
        noise_fref: 0,
        noise_feedback: 0x0009,
        base_count: 0,
        realstep: 0,
        sngtime: 0,
        sngstep: 0,
        adr: 0,
        stereo: 0,
        ch_out: [0, 0, 0, 0],
    };
    SNG_set_quality(&mut sng, 0);
    sng
}

pub fn SNG_reset(sng: &mut SNG)
    requires
        old(sng).wf(),
    ensures
        *final(sng) == reset_state(*old(sng)),
        final(sng).wf(),
{
    sng.base_count = 0;
    sng.count = [0, 0, 0];
    sng.freq = [0, 0, 0];
    sng.edge = [0, 0, 0];
    sng.volume = [15, 15, 15];
    sng.mute = [0, 0, 0];
    sng.adr = 0;
    sng.noise_seed = 0x8000;
    sng.noise_count = 0;
    sng.noise_freq = 0;
    sng.noise_volume = 15;
    sng.noise_mode = 0;
    sng.noise_fref = 0;
    sng.out = 0;
    sng.stereo = 0xff;
    sng.ch_out = [0, 0, 0, 0];
}

fn write_noise_control(sng: &mut SNG, v: u32)
    ensures
        *final(sng) == noise_control(*old(sng), v),
{
    let sel = v & 3;
    assert(sel < 4) by (bit_vector)
        requires
            sel == v & 3,
    ;
    let period = if sel == 3 {
        sng.freq[2]
    } else {
        32u32 << sel
    };
    sng.noise_mode = (v & 4) >> 2;
    sng.noise_fref = if sel == 3 {
        1
    } else {
        0
    };
    sng.noise_freq = if period == 0 {
        1
    } else {
        period
    };
    sng.noise_seed = 0x8000;
}

fn write_register(sng: &mut SNG, reg: Register, val: u32, latch: bool)
    requires
        old(sng).wf(),
        reg.in_range(),
    ensures
        *final(sng) == register_written(*old(sng), reg, val, latch),
        final(sng).wf(),
{
    match reg {
        Register::Tone(ch) => {
            let period = if latch {
                (sng.freq[ch] & 0x3f0) | (val & 0xf)
            } else {
                ((val & 0x3f) << 4) | (sng.freq[ch] & 0xf)
            };
            sng.freq[ch] = period;
        },
        Register::Volume(ch) => {
            assert(val & 0xf < 16) by (bit_vector);
            if ch < 3 {
                sng.volume[ch] = val & 0xf;
            } else {
                sng.noise_volume = val & 0xf;
            }
        },
        Register::NoiseControl => write_noise_control(sng, val & 7),
    }
}

pub fn SNG_writeIO(sng: &mut SNG, val: u32)
    requires
        old(sng).wf(),
    ensures
        *final(sng) == written(*old(sng), val),
        final(sng).wf(),
{
    if val & 0x80 != 0 {
        let adr = (val & 0x70) >> 4;
        assert(adr < 8) by (bit_vector)
            requires
                adr == (val & 0x70) >> 4,
        ;
        sng.adr = adr;
        let reg = Register::from_address(adr);
        write_register(sng, reg, val, true);
    } else {
        let reg = Register::from_address(sng.adr);
        write_register(sng, reg, val, false);
    }
}

fn smooth(level: i16, on: bool, amp: u32) -> (r: i16)
    requires
        amp <= 255,
    ensures
        r == smoothed(level, on, amp),
{
    let raised = if on {
        level.wrapping_add((amp * 16) as i16)
    } else {
        level
    };
    raised >> 1
}

fn update_noise(sng: &mut SNG, incr: u32)
    requires
        old(sng).wf(),
    ensures
        *final(sng) == noise_ticked(*old(sng), incr),
{
    let count = sng.noise_count.wrapping_add(incr);
    let fired = count & 0x100 != 0;
    let seed = if fired {
        if sng.noise_mode != 0 {
            (sng.noise_seed >> 1) | (parity(sng.noise_seed & (sng.noise_feedback as u32)) << 15)
        } else {
            (sng.noise_seed >> 1) | ((sng.noise_seed & 1) << 15)
        }
    } else {
        sng.noise_seed
    };
    let period = if sng.noise_fref != 0 {
        sng.freq[2]
    } else {
        sng.noise_freq
    };
    sng.noise_count = if fired {
        count.wrapping_sub(period)
    } else {
        count
    };
    sng.noise_seed = seed;
    let amp = volume_level(sng.noise_volume);
    sng.ch_out[3] = smooth(sng.ch_out[3], seed & 1 != 0, amp);
}

fn update_tone(sng: &mut SNG, i: usize, incr: u32)
    requires
        old(sng).wf(),
        i < 3,
    ensures
        *final(sng) == tone_ticked(*old(sng), i as int, incr),
{
    let count = sng.count[i].wrapping_add(incr);
    let fired = count & 0x400 != 0;
    let period = sng.freq[i];
    let edge = if !fired {
        sng.edge[i]
    } else if period > 1 {
        if sng.edge[i] == 0 {
            1
        } else {
            0
        }
    } else {
        1
    };
    sng.count[i] = if fired && period > 1 {
        count.wrapping_sub(period)
    } else {
        count
    };
    sng.edge[i] = edge;
    let amp = volume_level(sng.volume[i]);
    sng.ch_out[i] = smooth(sng.ch_out[i], edge != 0 && sng.mute[i] == 0, amp);
}

/// One internal tick.
fn update_output(sng: &mut SNG)
    requires
        old(sng).wf(),
    ensures
        *final(sng) == ticked(*old(sng)),
        final(sng).wf(),
{
    let sum = sng.base_count.wrapping_add(sng.base_incr);
    let incr = sum >> 24;
    sng.base_count = sum & 0xff_ffff;
    update_noise(sng, incr);
    update_tone(sng, 0, incr);
    update_tone(sng, 1, incr);
    update_tone(sng, 2, incr);
}

fn mix_output(sng: &mut SNG) -> (r: i16)
    ensures
        *final(sng) == mixed(*old(sng)),
        r == mono_sum(*old(sng)) as i16,
{
    let sum: i32 = sng.ch_out[0] as i32 + sng.ch_out[1] as i32 + sng.ch_out[2] as i32
        + sng.ch_out[3] as i32;
    sng.out = sum;
    sum as i16
}

/// Runs the chip for the ticks of one output sample.
fn advance(sng: &mut SNG)
    requires
        old(sng).wf(),
    ensures
        *final(sng) == advanced(*old(sng)),
        final(sng).wf(),
{
    if sng.quality == 0 {
        update_output(sng);
        return ;
    }
    while sng.realstep > sng.sngtime
        invariant
            sng.wf(),
            sng.quality != 0,
            steps_bounded(*old(sng)),
            caught_up(*sng) == caught_up(*old(sng)),
        decreases time_to_catch_up(*sng),
    {
        sng.sngtime = sng.sngtime + sng.sngstep;
        proof {
            lemma_tick_keeps_converter(*sng);
        }
        update_output(sng);
    }
    sng.sngtime = sng.sngtime.wrapping_sub(sng.realstep);
}

/// One mono sample.
pub fn SNG_calc(sng: &mut SNG) -> (r: i16)
    requires
        old(sng).wf(),
    ensures
        *final(sng) == calc_state(*old(sng)),
        r == calc_output(*old(sng)),
        final(sng).wf(),
{
    advance(sng);
    mix_output(sng)
}

fn pan(sng: &SNG, c: usize, shift: u32) -> (r: i32)
    requires
        c < 4,
        shift <= 4,
    ensures
        r == panned(*sng, c as int, shift),
{
    if (sng.stereo >> (c as u32 + shift)) & 1 != 0 {
        sng.ch_out[c] as i32
    } else {
        0
    }
}

fn mix_output_stereo(sng: &SNG, out: &mut [i32; 2])
    ensures
        final(out)[0] == ear_sum(*sng, 4),
        final(out)[1] == ear_sum(*sng, 0),
{
    out[0] = pan(sng, 0, 4) + pan(sng, 1, 4) + pan(sng, 2, 4) + pan(sng, 3, 4);
    out[1] = pan(sng, 0, 0) + pan(sng, 1, 0) + pan(sng, 2, 0) + pan(sng, 3, 0);
}

/// One stereo sample: `out[0]` is the left ear, `out[1]` the right.
pub fn SNG_calc_stereo(sng: &mut SNG, out: &mut [i32; 2])
    requires
        old(sng).wf(),
    ensures
        *final(sng) == advanced(*old(sng)),
        final(out)[0] == ear_sum(advanced(*old(sng)), 4),
        final(out)[1] == ear_sum(advanced(*old(sng)), 0),
        final(sng).wf(),
{
    advance(sng);
    mix_output_stereo(sng, out);
}

/// Sets the panning mask.
pub fn SNG_writeGGIO(sng: &mut SNG, val: u32)
    requires
        old(sng).wf(),
    ensures
        *final(sng) == (SNG { stereo: val, ..*old(sng) }),
        final(sng).wf(),
{
    sng.stereo = val;
}

} // verus!
