//! A file as a correct file system keeps it, and the proof that a run finds
//! nothing wrong with such a file.
//!
//! The model is worth what its alarms are worth. Here a file is modelled
//! that does to its bytes exactly what each operation is meant to do; the
//! laws below say that such a file agrees with the expected content after
//! every step, so that no comparison and no size check can fail on it.

use crate::checks::eof_page_error;
use crate::checks::first_diff;
use crate::checks::first_nonzero;
use crate::checks::miscompare;
use crate::checks::size_error;
use crate::laws::lemma_clamp_bounds;
use crate::laws::lemma_step_keeps_model;
use crate::model::after_fallocate;
use crate::model::after_punch_hole;
use crate::model::after_truncate;
use crate::model::after_write;
use crate::model::clamp_offset;
use crate::model::clamp_size;
use crate::model::Draws;
use crate::model::Model;
use crate::model::next;
use crate::model::round_down;
use crate::model::run;
use crate::op::Op;
use crate::plan::Action;
use crate::plan::Context;
use crate::plan::fallocate_step;
use crate::plan::outcome;
use crate::plan::punch_hole_step;
use crate::plan::truncate_step;
use crate::plan::write_step;
use vstd::arithmetic::div_mod::lemma_mod_bound;
use vstd::arithmetic::div_mod::lemma_mod_decreases;
use vstd::prelude::*;

verus! {

/// A file cut or grown to `len` bytes: what it gains reads as zero.
pub open spec fn resized(file: Seq<u8>, len: nat) -> Seq<u8> {
    Seq::new(
        len,
        |i: int|
            if i < file.len() {
                file[i]
            } else {
                0u8
            },
    )
}

/// A file after `size` bytes of `good` are written to it at `offset`, where
/// `good` holds them: the file grows where the write ends beyond its end,
/// and a gap between its end and the write reads as zero.
pub open spec fn written(file: Seq<u8>, offset: nat, size: nat, good: Seq<u8>) -> Seq<u8> {
    Seq::new(
        if file.len() < offset + size {
            offset + size
        } else {
            file.len()
        },
        |i: int|
            if offset <= i < offset + size {
                good[i]
            } else if i < file.len() {
                file[i]
            } else {
                0u8
            },
    )
}

/// A file after the `len` bytes from `offset` are deallocated: they read as
/// zero, and the size stays.
pub open spec fn punched(file: Seq<u8>, offset: nat, len: nat) -> Seq<u8> {
    Seq::new(
        file.len(),
        |i: int|
            if offset <= i < offset + len {
                0u8
            } else {
                file[i]
            },
    )
}

/// The file after what a step asks for is done to it; `good` is the
/// expected content after the step.
pub open spec fn perform(file: Seq<u8>, action: Action, good: Seq<u8>) -> Seq<u8> {
    match action {
        Action::Write { offset, size } => written(file, offset as nat, size as nat, good),
        Action::MapWrite { offset, size, extend_to, sync } => written(
            match extend_to {
                Some(len) => resized(file, len as nat),
                None => file,
            },
            offset as nat,
            size as nat,
            good,
        ),
        Action::Truncate { length } => resized(file, length as nat),
        Action::PosixFallocate { offset, len } => if file.len() < offset + len {
            resized(file, (offset + len) as nat)
        } else {
            file
        },
        Action::PunchHole { offset, len } => punched(file, offset as nat, len as nat),
        _ => file,
    }
}

/// The file after it has caught up with the model: the expected content up
/// to the expected size is written at its start, and its length is set to
/// that size where `set_len` holds.
pub open spec fn caught_up(file: Seq<u8>, m: Model, set_len: bool) -> Seq<u8> {
    let image = written(file, 0, m.file_size, m.good);
    if set_len {
        resized(image, m.file_size)
    } else {
        image
    }
}

/// Whether a file agrees with the model: it is as long as the expected size
/// and holds the expected content.
pub open spec fn follows(file: Seq<u8>, m: Model) -> bool {
    file == m.good.subrange(0, m.file_size as int)
}

/// The bytes that a mapping shows of the page which starts at `start`: those
/// of the file, and zero beyond its end.
pub open spec fn mapped_page(file: Seq<u8>, start: nat, page_size: nat) -> Seq<u8> {
    Seq::new(
        page_size,
        |j: int|
            if start + j < file.len() {
                file[start + j]
            } else {
                0u8
            },
    )
}

/// A file that agrees with the model agrees with it after a write that is
/// not simulated.
pub proof fn lemma_write_follows(
    cx: Context,
    m: Model,
    op: Op,
    offset: nat,
    size: nat,
    file: Seq<u8>,
)
    requires
        m.wf(cx.setup),
        cx.setup.flen <= usize::MAX,
        offset + size <= cx.setup.flen,
        op.is_write_like(),
        !cx.setup.simulated(m.steps),
        follows(file, m),
    ensures
        follows(
            perform(
                file,
                write_step(cx, m, op, offset, size).action,
                after_write(cx.setup, m, op, offset, size).good,
            ),
            after_write(cx.setup, m, op, offset, size),
        ),
{
    let after = after_write(cx.setup, m, op, offset, size);
    let done = perform(file, write_step(cx, m, op, offset, size).action, after.good);
    assert(done =~= after.good.subrange(0, after.file_size as int));
}

/// A file that agrees with the model agrees with it after a truncate that
/// is not simulated.
pub proof fn lemma_truncate_follows(cx: Context, m: Model, size: nat, file: Seq<u8>)
    requires
        m.wf(cx.setup),
        cx.setup.flen <= usize::MAX,
        size <= cx.setup.flen,
        !cx.setup.simulated(m.steps),
        follows(file, m),
    ensures
        follows(
            perform(file, truncate_step(cx, m, size).action, after_truncate(m, size).good),
            after_truncate(m, size),
        ),
{
    let after = after_truncate(m, size);
    let done = perform(file, truncate_step(cx, m, size).action, after.good);
    assert(done =~= after.good.subrange(0, after.file_size as int));
}

/// A file that agrees with the model agrees with it after an allocation
/// that is not simulated.
pub proof fn lemma_fallocate_follows(
    cx: Context,
    m: Model,
    offset: nat,
    len: nat,
    file: Seq<u8>,
)
    requires
        m.wf(cx.setup),
        cx.setup.flen <= usize::MAX,
        offset + len <= cx.setup.flen,
        !cx.setup.simulated(m.steps),
        follows(file, m),
    ensures
        follows(
            perform(
                file,
                fallocate_step(cx, m, offset, len).action,
                after_fallocate(m, offset, len).good,
            ),
            after_fallocate(m, offset, len),
        ),
{
    let after = after_fallocate(m, offset, len);
    let done = perform(file, fallocate_step(cx, m, offset, len).action, after.good);
    assert(done =~= after.good.subrange(0, after.file_size as int));
}

/// A file that agrees with the model agrees with it after a hole is punched
/// in a step that is not simulated.
pub proof fn lemma_punch_hole_follows(
    cx: Context,
    m: Model,
    offset: nat,
    len: nat,
    file: Seq<u8>,
)
    requires
        m.wf(cx.setup),
        cx.setup.flen <= usize::MAX,
        offset + len <= m.file_size,
        !cx.setup.simulated(m.steps),
        follows(file, m),
    ensures
        follows(
            perform(
                file,
                punch_hole_step(cx, m, offset, len).action,
                after_punch_hole(m, offset, len).good,
            ),
            after_punch_hole(m, offset, len),
        ),
{
    let after = after_punch_hole(m, offset, len);
    let done = perform(file, punch_hole_step(cx, m, offset, len).action, after.good);
    assert(done =~= after.good.subrange(0, after.file_size as int));
}

/// Shadow/real equivalence, one step: a file that agrees with the model
/// before a step that is not simulated agrees with it after the step, once
/// what the step asks for is done.
pub proof fn lemma_file_follows(cx: Context, m: Model, op: Op, d: Draws, file: Seq<u8>)
    requires
        cx.setup.wf(),
        cx.setup.flen <= usize::MAX,
        m.wf(cx.setup),
        cx.setup.blockmode ==> op != Op::Truncate,
        !cx.setup.simulated(m.steps + 1),
        follows(file, m),
    ensures
        follows(
            perform(file, outcome(cx, m, op, d).action, next(cx.setup, m, op, d).good),
            next(cx.setup, m, op, d),
        ),
{
    let s = cx.setup;
    let c = m.counted();
    match op {
        Op::Write | Op::MapWrite => {
            lemma_clamp_bounds(s.flen, s.align, d.offset as nat, d.size as nat);
            let offset = clamp_offset(s.flen, s.align, d.offset as nat);
            let size = clamp_size(s.flen, s.align, offset, d.size as nat);
            lemma_write_follows(cx, c, op, offset, size, file);
        },
        Op::Truncate => {
            lemma_mod_bound(d.length as int, s.flen as int);
            lemma_truncate_follows(cx, c, d.length as nat % s.flen, file);
        },
        Op::PosixFallocate => {
            lemma_clamp_bounds(s.flen, 1, d.offset as nat, d.size as nat);
            let offset = clamp_offset(s.flen, 1, d.offset as nat);
            let size = clamp_size(s.flen, s.align, offset, d.size as nat);
            lemma_mod_decreases((s.flen - offset) as nat, s.align);
            lemma_mod_decreases(d.size as nat, s.align);
            lemma_fallocate_follows(cx, c, offset, size, file);
        },
        Op::PunchHole => {
            lemma_clamp_bounds(m.file_size, s.align, d.offset as nat, d.size as nat);
            let offset = clamp_offset(m.file_size, s.align, d.offset as nat);
            let size = clamp_size(m.file_size, s.align, offset, d.size as nat);
            lemma_punch_hole_follows(cx, c, offset, size, file);
        },
        _ => {},
    }
}

/// A simulated step leaves the file as it is, whatever the model does.
pub proof fn lemma_simulated_keeps_file(cx: Context, m: Model, op: Op, d: Draws, file: Seq<u8>)
    requires
        cx.setup.simulated(m.steps + 1),
    ensures
        perform(file, outcome(cx, m, op, d).action, next(cx.setup, m, op, d).good) == file,
{
}

/// Once the file has caught up with the model it agrees with it. In block
/// mode the file is the device, as long as the maximum file length.
pub proof fn lemma_caught_up_follows(cx: Context, m: Model, file: Seq<u8>)
    requires
        m.wf(cx.setup),
        cx.setup.blockmode ==> file.len() == cx.setup.flen,
    ensures
        follows(caught_up(file, m, !cx.setup.blockmode), m),
{
    assert(caught_up(file, m, !cx.setup.blockmode) =~= m.good.subrange(0, m.file_size as int));
}

/// Shadow/real equivalence: what a step reads of a file that agrees with
/// the model compares equal to the expected content.
pub proof fn lemma_read_agrees(cx: Context, m: Model, op: Op, d: Draws, file: Seq<u8>)
    requires
        cx.setup.wf(),
        cx.setup.flen <= usize::MAX,
        m.wf(cx.setup),
        follows(file, m),
    ensures
        match outcome(cx, m, op, d).action {
            Action::Read { offset, size } => offset + size <= file.len() && miscompare(
                m.good.subrange(offset as int, offset + size),
                file.subrange(offset as int, offset + size),
                offset,
            ) is None,
            Action::MapRead { offset, size } => offset + size <= file.len() && miscompare(
                m.good.subrange(offset as int, offset + size),
                file.subrange(offset as int, offset + size),
                offset,
            ) is None,
            Action::Sendfile { offset, size } => offset + size <= file.len() && miscompare(
                m.good.subrange(offset as int, offset + size),
                file.subrange(offset as int, offset + size),
                offset,
            ) is None,
            _ => true,
        },
        next(cx.setup, m, op, d).good == m.good || !op.is_read_like(),
{
    lemma_clamp_bounds(m.file_size, cx.setup.align, d.offset as nat, d.size as nat);
    let offset = clamp_offset(m.file_size, cx.setup.align, d.offset as nat);
    let size = clamp_size(m.file_size, cx.setup.align, offset, d.size as nat);
    if op.is_read_like() && size > 0 {
        let expected = m.good.subrange(offset as int, (offset + size) as int);
        let found = file.subrange(offset as int, (offset + size) as int);
        assert(expected =~= found);
        lemma_equal_has_no_diff(expected, found, size);
    }
}

/// Whether the file is to catch up with the model before the next step:
/// when as many steps were simulated as the run was told to simulate, and
/// that was at least one.
pub open spec fn catch_up_due(cx: Context, m: Model) -> bool {
    cx.setup.start > 0 && m.steps == cx.setup.start
}

/// The file before the next step: caught up with the model where that is
/// due.
pub open spec fn made_ready(cx: Context, m: Model, file: Seq<u8>) -> Seq<u8> {
    if catch_up_due(cx, m) {
        caught_up(file, m, !cx.setup.blockmode)
    } else {
        file
    }
}

/// The file after the steps of `plan`, each of which it is made ready for
/// and then has done to it what the step asks for.
pub open spec fn file_after(cx: Context, m: Model, file: Seq<u8>, plan: Seq<(Op, Draws)>) -> Seq<
    u8,
>
    decreases plan.len(),
{
    if plan.len() == 0 {
        file
    } else {
        let before = run(cx.setup, m, plan.drop_last());
        perform(
            made_ready(cx, before, file_after(cx, m, file, plan.drop_last())),
            outcome(cx, before, plan.last().0, plan.last().1).action,
            next(cx.setup, before, plan.last().0, plan.last().1).good,
        )
    }
}

/// Whether no step of a plan is forbidden: in block mode none truncates.
pub open spec fn permitted(cx: Context, plan: Seq<(Op, Draws)>) -> bool {
    cx.setup.blockmode ==> forall|i: int| 0 <= i < plan.len() ==> (#[trigger] plan[i]).0
        != Op::Truncate
}

/// Shadow/real equivalence of a whole run without an injected fault, from
/// its first step: while the run simulates, the file stays as it was; from
/// the start of the run on, the file agrees with the model after every
/// step. So a run whose first steps are replayed leaves the file that the
/// run leaves which performs them all.
pub proof fn lemma_run_follows(cx: Context, m: Model, file: Seq<u8>, plan: Seq<(Op, Draws)>)
    requires
        cx.setup.wf(),
        cx.setup.flen <= usize::MAX,
        cx.setup.inject is None,
        m.wf(cx.setup),
        m.steps == 0,
        permitted(cx, plan),
        cx.setup.start == 0 ==> follows(file, m),
        cx.setup.blockmode ==> file.len() == cx.setup.flen,
    ensures
        run(cx.setup, m, plan).wf(cx.setup),
        run(cx.setup, m, plan).steps == plan.len(),
        plan.len() <= cx.setup.start && cx.setup.start > 0 ==> file_after(cx, m, file, plan)
            == file,
        plan.len() > cx.setup.start || cx.setup.start == 0 ==> follows(
            file_after(cx, m, file, plan),
            run(cx.setup, m, plan),
        ),
    decreases plan.len(),
{
    if plan.len() > 0 {
        let earlier = plan.drop_last();
        let (op, d) = plan.last();
        assert(permitted(cx, earlier)) by {
            if cx.setup.blockmode {
                assert forall|i: int| 0 <= i < earlier.len() implies (#[trigger] earlier[i]).0
                    != Op::Truncate by {
                    assert(earlier[i] == plan[i]);
                }
            }
        }
        assert(cx.setup.blockmode ==> op != Op::Truncate) by {
            if cx.setup.blockmode {
                assert(plan[plan.len() - 1].0 != Op::Truncate);
            }
        }
        lemma_run_follows(cx, m, file, earlier);
        let before = run(cx.setup, m, earlier);
        let before_file = file_after(cx, m, file, earlier);
        let ready = made_ready(cx, before, before_file);
        lemma_step_keeps_model(cx.setup, before, op, d);
        if plan.len() <= cx.setup.start {
            lemma_simulated_keeps_file(cx, before, op, d, ready);
        } else {
            if catch_up_due(cx, before) {
                lemma_caught_up_follows(cx, before, before_file);
            }
            lemma_file_follows(cx, before, op, d, ready);
        }
    }
}

/// Equal sequences differ nowhere.
pub proof fn lemma_equal_has_no_diff(a: Seq<u8>, b: Seq<u8>, n: nat)
    requires
        a == b,
    ensures
        first_diff(a, b, n) == n,
    decreases n,
{
    if n > 0 {
        lemma_equal_has_no_diff(a, b, (n - 1) as nat);
    }
}

/// Size invariant: the size of a file that agrees with the model is the
/// expected size, however it is asked for.
pub proof fn lemma_size_agrees(size_checks: bool, m: Model, file: Seq<u8>)
    requires
        follows(file, m),
        m.file_size <= m.good.len(),
        m.file_size <= u64::MAX,
    ensures
        file.len() == m.file_size,
        size_error(size_checks, m.file_size as u64, file.len() as u64, file.len() as u64)
            is None,
{
}

/// End-of-file page zero law: the page that holds the end of a file shows
/// zeros beyond it, so the check of that page finds nothing.
pub proof fn lemma_eof_page_zero(file: Seq<u8>, page_size: nat)
    requires
        page_size > 0,
        file.len() <= u64::MAX,
        page_size <= u64::MAX,
    ensures
        eof_page_error(
            mapped_page(file, round_down(file.len(), page_size), page_size),
            file.len() as u64,
        ) is None,
{
    let start = round_down(file.len(), page_size);
    let page = mapped_page(file, start, page_size);
    let from = file.len() % page_size;
    lemma_mod_bound(file.len() as int, page_size as int);
    lemma_mod_decreases(file.len(), page_size);
    lemma_all_zero_has_no_nonzero(page, from, page_size);
}

/// Where every byte from `from` on is zero, none that is not is found.
pub proof fn lemma_all_zero_has_no_nonzero(page: Seq<u8>, from: nat, n: nat)
    requires
        from <= n <= page.len(),
        forall|j: int| from <= j < n ==> page[j] == 0,
    ensures
        first_nonzero(page, from, n) == n,
    decreases n,
{
    if n > from {
        lemma_all_zero_has_no_nonzero(page, from, (n - 1) as nat);
    }
}

} // verus!
