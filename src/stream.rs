//! The command-stream interpreter: walks the bytes of a VGM command stream and
//! drives an SN76489 with them, one sample per waited sample.

use crate::sn76489::{
    blank, lemma_render_len, refreshed, render, reset_state, written, SNG, SNG_calc,
};
use vstd::prelude::*;

verus! {

/// Why a command stream could not be played to its end marker.
#[derive(Clone, Copy, Debug, PartialEq, Eq, Structural)]
pub enum StreamError {
    /// A byte that is no known opcode stands where an opcode is due.
    UnsupportedOpcode(u8),
    /// The stream ends before its end marker, or inside a command.
    TruncatedStream,
}

/// Clock of the SN76489 in NTSC machines, in Hz.
pub const NTSC_CLOCK: u32 = 3579545;

/// Samples of the 0x62 wait: one sixtieth of a second at 44100 Hz.
pub const NTSC_FRAME_SAMPLES: u32 = 735;

/// `op` is an opcode that the interpreter knows.
pub open spec fn is_command(op: u8) -> bool {
    op == 0x50 || op == 0x61 || op == 0x62 || op == 0x66 || (0x70 <= op && op <= 0x7f)
}

/// Bytes that the command with opcode `op` takes, operands included.
pub open spec fn command_len(op: u8) -> nat {
    if op == 0x50 {
        2
    } else if op == 0x61 {
        3
    } else {
        1
    }
}

/// Samples that the wait command at `pos` asks for.
pub open spec fn wait_length(cmds: Seq<u8>, pos: int) -> nat {
    let op = cmds[pos];
    if op == 0x61 {
        (cmds[pos + 1] + cmds[pos + 2] * 0x100) as nat
    } else if op == 0x62 {
        735
    } else {
        ((op & 0x0f) + 1) as nat
    }
}

/// The chip after the commands from `pos` on, the samples that they make, and
/// how the stream ended: `Ok` with the position just past the end marker, or
/// the error that stopped it. Samples made before an error are kept.
pub open spec fn interpret(s: SNG, cmds: Seq<u8>, pos: nat) -> (SNG, Seq<i16>, Result<
    usize,
    StreamError,
>)
    decreases cmds.len() - pos,
{
    if pos >= cmds.len() {
        (s, seq![], Err(StreamError::TruncatedStream))
    } else {
        let op = cmds[pos as int];
        if !is_command(op) {
            (s, seq![], Err(StreamError::UnsupportedOpcode(op)))
        } else if op == 0x66 {
            (s, seq![], Ok((pos + 1) as usize))
        } else if pos + command_len(op) > cmds.len() {
            (s, seq![], Err(StreamError::TruncatedStream))
        } else if op == 0x50 {
            interpret(written(s, cmds[pos + 1int] as u32), cmds, pos + 2)
        } else {
            let w = render(s, wait_length(cmds, pos as int));
            let rest = interpret(w.0, cmds, pos + command_len(op));
            (rest.0, w.1 + rest.1, rest.2)
        }
    }
}

/// Positions of an outcome moved on by `d` bytes.
pub open spec fn shifted(r: Result<usize, StreamError>, d: nat) -> Result<usize, StreamError> {
    match r {
        Ok(p) => Ok((p + d) as usize),
        Err(e) => Err(e),
    }
}

/// Commands after a prefix play as they do alone, but for the positions.
pub proof fn lemma_interpret_shift(s: SNG, pre: Seq<u8>, t: Seq<u8>, k: nat)
    requires
        pre.len() + t.len() <= usize::MAX,
    ensures
        ({
            let a = interpret(s, pre + t, pre.len() + k);
            let b = interpret(s, t, k);
            &&& a.0 == b.0
            &&& a.1 == b.1
            &&& a.2 == shifted(b.2, pre.len())
        }),
    decreases t.len() - k,
{
    let c = pre + t;
    let j = pre.len() + k;
    if k < t.len() {
        assert(c[j as int] == t[k as int]);
        let op = t[k as int];
        if is_command(op) && op != 0x66 && k + command_len(op) <= t.len() {
            if op == 0x50 {
                assert(c[j + 1int] == t[k + 1int]);
                lemma_interpret_shift(written(s, t[k + 1int] as u32), pre, t, k + 2);
            } else {
                if op == 0x61 {
                    assert(c[j + 1int] == t[k + 1int]);
                    assert(c[j + 2int] == t[k + 2int]);
                }
                assert(wait_length(c, j as int) == wait_length(t, k as int));
                let w = render(s, wait_length(t, k as int));
                lemma_interpret_shift(w.0, pre, t, k + command_len(op));
            }
        }
    }
}

/// The end marker stops the stream where it stands: no byte after it is read
/// or needed, and the chip is left as it was.
pub proof fn lemma_end_marker(s: SNG, cmds: Seq<u8>, pos: nat)
    requires
        pos < cmds.len(),
        cmds[pos as int] == 0x66,
    ensures
        interpret(s, cmds, pos) == (s, Seq::<i16>::empty(), Ok::<usize, StreamError>(
            (pos + 1) as usize,
        )),
{
}

/// A byte that is no opcode stops the stream with an error that names it.
pub proof fn lemma_unknown_opcode(s: SNG, cmds: Seq<u8>, pos: nat)
    requires
        pos < cmds.len(),
        !is_command(cmds[pos as int]),
    ensures
        interpret(s, cmds, pos) == (s, Seq::<i16>::empty(), Err::<usize, StreamError>(
            StreamError::UnsupportedOpcode(cmds[pos as int]),
        )),
{
}

/// `0x61 0xdf 0x02` and `0x62` both wait 735 samples: from one state, with
/// the same commands after them, they give the same samples and the same
/// chip, and differ only in where the end marker is.
pub proof fn lemma_frame_wait_forms(s: SNG, tail: Seq<u8>)
    requires
        tail.len() + 3 <= usize::MAX,
    ensures
        ({
            let w = render(s, 735);
            let rest = interpret(w.0, tail, 0);
            &&& w.1.len() == 735
            &&& interpret(s, seq![0x62u8] + tail, 0) == (rest.0, w.1 + rest.1, shifted(rest.2, 1))
            &&& interpret(s, seq![0x61u8, 0xdf, 0x02] + tail, 0) == (
                rest.0,
                w.1 + rest.1,
                shifted(rest.2, 3),
            )
        }),
{
    lemma_render_len(s, 735);
    let short = seq![0x62u8];
    let long = seq![0x61u8, 0xdf, 0x02];
    let w = render(s, 735);
    assert((short + tail)[0] == 0x62);
    assert(wait_length(short + tail, 0) == 735);
    lemma_interpret_shift(w.0, short, tail, 0);
    assert((long + tail)[0] == 0x61);
    assert((long + tail)[1] == 0xdf);
    assert((long + tail)[2] == 0x02);
    assert(wait_length(long + tail, 0) == 735);
    lemma_interpret_shift(w.0, long, tail, 0);
}

/// Playing the same commands on the same chip twice gives the same chip, the
/// same samples and the same outcome.
pub proof fn lemma_replay_deterministic(s1: SNG, s2: SNG, cmds: Seq<u8>)
    requires
        s1 == s2,
    ensures
        interpret(s1, cmds, 0) == interpret(s2, cmds, 0),
{
}

/// Appends `n` mono samples of the chip to `out`.
pub fn generate(sng: &mut SNG, n: u32, out: &mut Vec<i16>)
    requires
        old(sng).wf(),
    ensures
        *final(sng) == render(*old(sng), n as nat).0,
        final(out)@ == old(out)@ + render(*old(sng), n as nat).1,
        final(sng).wf(),
{
    let mut k: u32 = 0;
    while k < n
        invariant
            k <= n,
            sng.wf(),
            render(*sng, (n - k) as nat).0 == render(*old(sng), n as nat).0,
            out@ + render(*sng, (n - k) as nat).1 == old(out)@ + render(*old(sng), n as nat).1,
        decreases n - k,
    {
        let ghost before = *sng;
        let ghost out_before = out@;
        let x = SNG_calc(sng);
        out.push(x);
        k = k + 1;
        proof {
            let rest = render(*sng, (n - k) as nat);
            assert(render(before, (n - k + 1) as nat) == (rest.0, seq![x] + rest.1));
            assert(out_before + (seq![x] + rest.1) =~= out@ + rest.1);
        }
    }
}

/// Plays the commands of `cmds` from its start on the chip, appending the
/// samples that they make to `out`, up to the end marker or an error.
/// On success the result is the position just past the end marker.
pub fn run(sng: &mut SNG, cmds: &[u8], out: &mut Vec<i16>) -> (r: Result<usize, StreamError>)
    requires
        old(sng).wf(),
    ensures
        ({
            let (s, samples, res) = interpret(*old(sng), cmds@, 0);
            &&& *final(sng) == s
            &&& final(out)@ == old(out)@ + samples
            &&& r == res
        }),
        final(sng).wf(),
{
    let mut pos: usize = 0;
    while pos < cmds.len()
        invariant
            pos <= cmds@.len(),
            sng.wf(),
            interpret(*sng, cmds@, pos as nat).0 == interpret(*old(sng), cmds@, 0).0,
            interpret(*sng, cmds@, pos as nat).2 == interpret(*old(sng), cmds@, 0).2,
            out@ + interpret(*sng, cmds@, pos as nat).1 == old(out)@ + interpret(
                *old(sng),
                cmds@,
                0,
            ).1,
        decreases cmds@.len() - pos,
    {
        let op = cmds[pos];
        let ghost before = *sng;
        let ghost out_before = out@;
        if op == 0x66 {
            proof {
                assert(out@ =~= out@ + Seq::<i16>::empty());
            }
            return Ok(pos + 1);
        } else if op == 0x50 {
            if pos + 1 >= cmds.len() {
                proof {
                    assert(out@ =~= out@ + Seq::<i16>::empty());
                }
                return Err(StreamError::TruncatedStream);
            }
            sng.write(cmds[pos + 1] as u32);
            pos = pos + 2;
        } else if op == 0x61 || op == 0x62 || (0x70 <= op && op <= 0x7f) {
            let len: usize = if op == 0x61 {
                3
            } else {
                1
            };
            if len > cmds.len() - pos {
                proof {
                    assert(out@ =~= out@ + Seq::<i16>::empty());
                }
                return Err(StreamError::TruncatedStream);
            }
            let n: u32 = if op == 0x61 {
                cmds[pos + 1] as u32 + cmds[pos + 2] as u32 * 0x100
            } else if op == 0x62 {
                NTSC_FRAME_SAMPLES
            } else {
                (op & 0x0f) as u32 + 1
            };
            generate(sng, n, out);
            pos = pos + len;
            proof {
                let w = render(before, n as nat);
                let rest = interpret(*sng, cmds@, pos as nat);
                assert(out_before + (w.1 + rest.1) =~= out@ + rest.1);
            }
        } else {
            proof {
                assert(out@ =~= out@ + Seq::<i16>::empty());
            }
            return Err(StreamError::UnsupportedOpcode(op));
        }
    }
    proof {
        assert(out@ =~= out@ + Seq::<i16>::empty());
    }
    Err(StreamError::TruncatedStream)
}

/// Plays `buffer` on a freshly reset NTSC chip at 44100 Hz and returns its
/// mono samples, or the error that stopped the stream.
pub fn play(buffer: &[u8]) -> (r: Result<Vec<i16>, StreamError>)
    ensures
        ({
            let (_, samples, res) = interpret(ntsc_chip(), buffer@, 0);
            match res {
                Ok(_) => r is Ok && r->Ok_0@ == samples,
                Err(e) => r == Err::<Vec<i16>, StreamError>(e),
            }
        }),
{
    let mut chip = SNG::new(NTSC_CLOCK, 0);
    let mut out: Vec<i16> = Vec::new();
    match run(&mut chip, buffer, &mut out) {
        Ok(_) => Ok(out),
        Err(e) => Err(e),
    }
}

/// A reset NTSC chip at 44100 Hz.
pub open spec fn ntsc_chip() -> SNG {
    reset_state(refreshed(blank(NTSC_CLOCK, 0)))
}

} // verus!
