//! What the transmit loop does in the long run.
//!
//! `after`, `written` and `emitted` follow the loop through a number of
//! actions, none of which fails, by the two functions that `TransmitLoop` is
//! specified with. The lemmas say what comes of it: the wire carries the
//! block over and over, a pass ends where it began, and the report that a
//! pass is complete comes once per pass, behind its last byte.

use vstd::prelude::*;
use vstd::arithmetic::div_mod::*;
use vstd::string::*;
use crate::transmit::{block, following, pending, Action, LogLine, Progress, UART_DATA};

verus! {

/// Where the loop stands after `steps` actions.
pub open spec fn after(len: nat, at: Progress, steps: nat) -> Progress
    decreases steps,
{
    if steps == 0 {
        at
    } else {
        after(len, following(len, at), (steps - 1) as nat)
    }
}

/// The bytes that the next `steps` actions put on the wire, in order.
pub open spec fn written(data: Seq<u8>, at: Progress, steps: nat) -> Seq<u8>
    decreases steps,
{
    if steps == 0 {
        Seq::empty()
    } else {
        let rest = written(data, following(data.len(), at), (steps - 1) as nat);
        match pending(data, at) {
            Action::Write(byte) => seq![byte] + rest,
            Action::Log(_) => rest,
        }
    }
}

/// How often the next `steps` actions emit a line.
pub open spec fn emitted(data: Seq<u8>, at: Progress, steps: nat, line: LogLine) -> nat
    decreases steps,
{
    if steps == 0 {
        0
    } else {
        let rest = emitted(data, following(data.len(), at), (steps - 1) as nat, line);
        if pending(data, at) == Action::Log(line) {
            1 + rest
        } else {
            rest
        }
    }
}

/// The block, begun at its byte `by` and continued from its first byte.
pub open spec fn rotation(data: Seq<u8>, by: int) -> Seq<u8> {
    data.subrange(by, data.len() as int) + data.subrange(0, by)
}

/// The loop has no end: wherever it stands within the block, it stands within
/// the block after any number of actions, and after the first it transmits.
pub proof fn lemma_loop_goes_on(len: nat, at: Progress, steps: nat)
    requires
        at.within(len),
    ensures
        after(len, at, steps).within(len),
        steps > 0 ==> after(len, at, steps).transmitting,
    decreases steps,
{
    if steps > 0 {
        lemma_loop_goes_on(len, following(len, at), (steps - 1) as nat);
    }
}

/// The loop announces itself once, with its first action, and only then
/// begins its first pass.
pub proof fn lemma_announced_once(data: Seq<u8>, steps: nat)
    ensures
        after(data.len(), Progress::start(), steps + 1) == after(
            data.len(),
            Progress::pass_start(),
            steps,
        ),
        written(data, Progress::start(), steps + 1) == written(data, Progress::pass_start(), steps),
        emitted(data, Progress::start(), steps + 1, LogLine::Initialising) == 1,
        emitted(data, Progress::start(), steps + 1, LogLine::BlockComplete) == emitted(
            data,
            Progress::pass_start(),
            steps,
            LogLine::BlockComplete,
        ),
{
    lemma_never_announced_again(data, Progress::pass_start(), steps);
}

/// Once it transmits, the loop does not announce itself again.
pub proof fn lemma_never_announced_again(data: Seq<u8>, at: Progress, steps: nat)
    requires
        at.transmitting,
    ensures
        emitted(data, at, steps, LogLine::Initialising) == 0,
    decreases steps,
{
    if steps > 0 {
        lemma_never_announced_again(data, following(data.len(), at), (steps - 1) as nat);
    }
}

/// The position counts the actions, modulo the length of a pass: the bytes
/// of the block and the report behind them.
pub proof fn lemma_after(len: nat, at: Progress, steps: nat)
    requires
        at.transmitting,
        at.position <= len,
    ensures
        after(len, at, steps) == (Progress {
            transmitting: true,
            position: (at.position + steps) % (len + 1),
        }),
    decreases steps,
{
    let pass = (len + 1) as int;
    if steps == 0 {
        lemma_small_mod(at.position, (len + 1) as nat);
    } else {
        lemma_after(len, following(len, at), (steps - 1) as nat);
        if at.position == len {
            lemma_mod_add_multiples_vanish(steps - 1, pass);
        }
    }
}

/// The report that a pass is complete comes once for every time that the
/// position passes the end of the block.
pub proof fn lemma_emitted(data: Seq<u8>, at: Progress, steps: nat)
    requires
        at.transmitting,
        at.position <= data.len(),
    ensures
        emitted(data, at, steps, LogLine::BlockComplete) == (at.position + steps) / (data.len()
            + 1),
        written(data, at, steps).len() + emitted(data, at, steps, LogLine::BlockComplete)
            == steps,
    decreases steps,
{
    let pass = (data.len() + 1) as int;
    if steps == 0 {
        lemma_basic_div(at.position as int, pass);
    } else {
        lemma_emitted(data, following(data.len(), at), (steps - 1) as nat);
        if at.position == data.len() {
            lemma_div_plus_one(steps - 1, pass);
        }
    }
}

/// The report that a pass is complete is pending behind the last byte of the
/// block, and nowhere else.
pub proof fn lemma_report_behind_last_byte(data: Seq<u8>, at: Progress)
    requires
        at.within(data.len()),
    ensures
        pending(data, at) == Action::Log(LogLine::BlockComplete) <==> at.transmitting
            && at.position == data.len(),
        pending(data, at) is Write <==> at.transmitting && at.position < data.len(),
{
}

/// The wire carries the block over and over: byte `j` of what is written
/// from a position on is the byte of the block `j` places further on, counted
/// round the block.
pub proof fn lemma_written_repeats_block(data: Seq<u8>, at: Progress, steps: nat, j: int)
    requires
        data.len() > 0,
        at.within(data.len()),
        0 <= j < written(data, at, steps).len(),
    ensures
        written(data, at, steps)[j] == data[(at.position + j) % (data.len() as int)],
    decreases steps,
{
    let len = data.len() as int;
    let next = following(data.len(), at);
    let rest = written(data, next, (steps - 1) as nat);
    if !at.transmitting {
        lemma_written_repeats_block(data, next, (steps - 1) as nat, j);
    } else if at.position < data.len() {
        if j == 0 {
            lemma_small_mod(at.position, data.len());
        } else {
            lemma_written_repeats_block(data, next, (steps - 1) as nat, j - 1);
        }
    } else {
        lemma_written_repeats_block(data, next, (steps - 1) as nat, j);
        lemma_mod_add_multiples_vanish(j, len);
    }
}

/// Byte `k` of a rotation is the byte of the block `k` places further on
/// from where the rotation begins, counted round the block.
pub proof fn lemma_rotation_index(data: Seq<u8>, by: int, k: int)
    requires
        0 <= by < data.len(),
        0 <= k < data.len(),
    ensures
        rotation(data, by).len() == data.len(),
        rotation(data, by)[k] == data[(by + k) % (data.len() as int)],
{
    let len = data.len() as int;
    if by + k < len {
        lemma_small_mod((by + k) as nat, data.len());
    } else {
        lemma_small_mod((by + k - len) as nat, data.len());
        lemma_mod_add_multiples_vanish(by + k - len, len);
    }
}

/// Whatever stretch of the wire is looked at, of whatever width, it is a
/// rotation of the block repeated: byte `i` of the stretch that begins `offset`
/// bytes in is byte `i`, counted round the block, of the rotation that begins
/// where the stretch does.
pub proof fn lemma_window_repeats_rotation(
    data: Seq<u8>,
    at: Progress,
    steps: nat,
    offset: int,
    i: int,
)
    requires
        data.len() > 0,
        at.within(data.len()),
        0 <= offset,
        0 <= i,
        offset + i < written(data, at, steps).len(),
    ensures
        0 <= (at.position + offset) % (data.len() as int) < data.len(),
        written(data, at, steps)[offset + i] == rotation(
            data,
            (at.position + offset) % (data.len() as int),
        )[i % (data.len() as int)],
{
    let len = data.len() as int;
    let by = (at.position + offset) % len;
    lemma_mod_bound(at.position + offset, len);
    lemma_mod_bound(i, len);
    lemma_written_repeats_block(data, at, steps, offset + i);
    lemma_rotation_index(data, by, i % len);
    lemma_add_mod_noop(at.position + offset, i, len);
}

/// A stretch of the wire as long as the block is a rotation of the block.
pub proof fn lemma_window_is_rotation(data: Seq<u8>, at: Progress, steps: nat, offset: int)
    requires
        data.len() > 0,
        at.within(data.len()),
        0 <= offset,
        offset + data.len() <= written(data, at, steps).len(),
    ensures
        written(data, at, steps).subrange(offset, offset + data.len()) == rotation(
            data,
            (at.position + offset) % (data.len() as int),
        ),
{
    let len = data.len() as int;
    let by = (at.position + offset) % len;
    let window = written(data, at, steps).subrange(offset, offset + len);
    lemma_mod_bound(at.position + offset, len);
    assert forall|k: int| 0 <= k < len implies window[k] == rotation(data, by)[k] by {
        lemma_window_repeats_rotation(data, at, steps, offset, k);
        lemma_small_mod(k as nat, data.len());
    }
    lemma_rotation_index(data, by, 0);
    assert(window =~= rotation(data, by));
}

/// After any number of full passes the loop stands where it stood before the
/// first: at the first byte of the block, which it is about to write. It has
/// written the block once per pass and reported once per pass.
pub proof fn lemma_full_passes(data: Seq<u8>, passes: nat)
    ensures
        after(data.len(), Progress::pass_start(), passes * (data.len() + 1))
            == Progress::pass_start(),
        written(data, Progress::pass_start(), passes * (data.len() + 1)).len() == passes
            * data.len(),
        emitted(data, Progress::pass_start(), passes * (data.len() + 1), LogLine::BlockComplete)
            == passes,
        data.len() > 0 ==> pending(
            data,
            after(data.len(), Progress::pass_start(), passes * (data.len() + 1)),
        ) == Action::Write(data[0]),
        data.len() > 0 ==> forall|j: int|
            0 <= j < passes * data.len() ==> #[trigger] written(
                data,
                Progress::pass_start(),
                passes * (data.len() + 1),
            )[j] == data[j % (data.len() as int)],
{
    let len = data.len();
    let pass = (len + 1) as int;
    let steps = passes * (len + 1);
    let start = Progress::pass_start();
    lemma_after(len, start, steps);
    lemma_emitted(data, start, steps);
    lemma_mod_multiples_basic(passes as int, pass);
    lemma_div_by_multiple(passes as int, pass);
    assert(passes * (len + 1) == passes * len + passes) by (nonlinear_arith);
    if len > 0 {
        assert forall|j: int| 0 <= j < passes * len implies #[trigger] written(data, start, steps)[j]
            == data[j % (len as int)] by {
            lemma_written_repeats_block(data, start, steps, j);
        }
    }
}

/// The report that a pass is complete was emitted as often as a full pass
/// fits into the actions taken, and all other actions wrote a byte.
pub proof fn lemma_one_report_per_pass(data: Seq<u8>, steps: nat)
    ensures
        emitted(data, Progress::pass_start(), steps, LogLine::BlockComplete) == steps / (
        data.len() + 1),
        written(data, Progress::pass_start(), steps).len() == steps - steps / (data.len() + 1),
{
    lemma_emitted(data, Progress::pass_start(), steps);
}

/// The firmware's block has 64 bytes: the lower-case letters without `n`, a
/// hyphen, the digits, an underscore, the capital letters and an equals sign.
pub proof fn lemma_block()
    ensures
        block().len() == 64,
        block() == seq![
            0x61u8, 0x62, 0x63, 0x64, 0x65, 0x66, 0x67, 0x68,
            0x69, 0x6a, 0x6b, 0x6c, 0x6d, 0x6f, 0x70, 0x71,
            0x72, 0x73, 0x74, 0x75, 0x76, 0x77, 0x78, 0x79,
            0x7a, 0x2d, 0x30, 0x31, 0x32, 0x33, 0x34, 0x35,
            0x36, 0x37, 0x38, 0x39, 0x5f, 0x41, 0x42, 0x43,
            0x44, 0x45, 0x46, 0x47, 0x48, 0x49, 0x4a, 0x4b,
            0x4c, 0x4d, 0x4e, 0x4f, 0x50, 0x51, 0x52, 0x53,
            0x54, 0x55, 0x56, 0x57, 0x58, 0x59, 0x5a, 0x3d,
        ],
{
    reveal_strlit("abcdefghijklmopqrstuvwxyz-0123456789_ABCDEFGHIJKLMNOPQRSTUVWXYZ=");
    assert(is_ascii(UART_DATA));
    is_ascii_spec_bytes(UART_DATA);
}

/// On the firmware's wire, any 64 bytes in a row are a rotation of the block:
/// they begin somewhere in it, run to its end and go on from its beginning.
pub proof fn lemma_wire_is_rotated_block(steps: nat, offset: int)
    requires
        0 <= offset,
        offset + 64 <= written(block(), Progress::start(), steps).len(),
    ensures
        written(block(), Progress::start(), steps).subrange(offset, offset + 64) == rotation(
            block(),
            offset % 64,
        ),
{
    lemma_block();
    lemma_window_is_rotation(block(), Progress::start(), steps, offset);
}

} // verus!
