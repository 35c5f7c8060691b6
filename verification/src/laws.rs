//! What holds of every run: laws of the model, proved from its definition.

use crate::lines::Level;
use crate::model::clamp_offset;
use crate::model::clamp_size;
use crate::model::Draws;
use crate::model::Model;
use crate::model::next;
use crate::model::run;
use crate::model::Setup;
use crate::op::Op;
use crate::plan::Action;
use crate::plan::Context;
use crate::plan::outcome;
use vstd::arithmetic::div_mod::lemma_mod_bound;
use vstd::arithmetic::div_mod::lemma_mod_decreases;
use vstd::prelude::*;

verus! {

/// A clamped offset lies within the limit, and a clamped size ends within
/// it.
pub proof fn lemma_clamp_bounds(limit: nat, align: nat, offset_drawn: nat, size_drawn: nat)
    requires
        align > 0,
    ensures
        clamp_offset(limit, align, offset_drawn) <= limit,
        limit > 0 ==> clamp_offset(limit, align, offset_drawn) < limit,
        clamp_offset(limit, align, offset_drawn) + clamp_size(
            limit,
            align,
            clamp_offset(limit, align, offset_drawn),
            size_drawn,
        ) <= limit,
        clamp_offset(limit, align, offset_drawn) % align == 0,
        clamp_size(limit, align, clamp_offset(limit, align, offset_drawn), size_drawn) % align
            == 0,
        clamp_size(limit, align, clamp_offset(limit, align, offset_drawn), size_drawn)
            <= size_drawn,
{
    let offset = clamp_offset(limit, align, offset_drawn);
    if limit > 0 {
        lemma_mod_bound(offset_drawn as int, limit as int);
        lemma_mod_decreases(offset_drawn % limit, align);
        lemma_aligned(offset_drawn % limit, align);
    }
    let room = (limit - offset) as nat;
    lemma_mod_decreases(room, align);
    lemma_mod_decreases(size_drawn, align);
    lemma_aligned(room, align);
    lemma_aligned(size_drawn, align);
}

/// What is left of `x` after its remainder is taken off is a multiple of
/// `align`.
pub proof fn lemma_aligned(x: nat, align: nat)
    requires
        align > 0,
    ensures
        (x - x % align) % (align as int) == 0,
{
    vstd::arithmetic::div_mod::lemma_fundamental_div_mod(x as int, align as int);
    vstd::arithmetic::div_mod::lemma_mod_multiples_basic(x as int / align as int, align as int);
    vstd::arithmetic::mul::lemma_mul_is_commutative(x as int / align as int, align as int);
}

/// Every step keeps the model well formed: the expected content keeps its
/// length and the expected size stays within the maximum file length. It
/// counts one step and records one entry. No step in block mode may be a
/// truncate.
pub proof fn lemma_step_keeps_model(setup: Setup, m: Model, op: Op, d: Draws)
    requires
        setup.wf(),
        m.wf(setup),
        setup.blockmode ==> op != Op::Truncate,
    ensures
        next(setup, m, op, d).wf(setup),
        next(setup, m, op, d).steps == m.steps + 1,
        next(setup, m, op, d).log.len() == m.log.len() + 1,
        next(setup, m, op, d).log.drop_last() == m.log,
{
    lemma_clamp_bounds(setup.flen, setup.align, d.offset as nat, d.size as nat);
    lemma_clamp_bounds(setup.flen, 1, d.offset as nat, d.size as nat);
    lemma_clamp_bounds(m.file_size, setup.align, d.offset as nat, d.size as nat);
    lemma_mod_bound(d.length as int, setup.flen as int);
    let offset = clamp_offset(setup.flen, 1, d.offset as nat);
    let room = (setup.flen - offset) as nat;
    lemma_mod_decreases(room, setup.align);
    lemma_mod_decreases(d.size as nat, setup.align);
    assert(next(setup, m, op, d).log.drop_last() =~= m.log);
}

/// In block mode the expected size of the file never changes.
pub proof fn lemma_blockmode_keeps_size(setup: Setup, m: Model, op: Op, d: Draws)
    requires
        setup.wf(),
        m.wf(setup),
        setup.blockmode,
        op != Op::Truncate,
    ensures
        next(setup, m, op, d).file_size == m.file_size,
{
    lemma_clamp_bounds(setup.flen, setup.align, d.offset as nat, d.size as nat);
    lemma_clamp_bounds(setup.flen, 1, d.offset as nat, d.size as nat);
    let offset = clamp_offset(setup.flen, 1, d.offset as nat);
    let room = (setup.flen - offset) as nat;
    lemma_mod_decreases(room, setup.align);
    lemma_mod_decreases(d.size as nat, setup.align);
}

/// The expected size changes only by a write, a truncate or an allocation,
/// and the expected content only by these and by a punched hole.
pub proof fn lemma_what_changes(setup: Setup, m: Model, op: Op, d: Draws)
    ensures
        !op.is_write_like() && op != Op::Truncate && op != Op::PosixFallocate ==> next(
            setup,
            m,
            op,
            d,
        ).file_size == m.file_size,
        !op.is_write_like() && op != Op::Truncate && op != Op::PosixFallocate && op
            != Op::PunchHole ==> next(setup, m, op, d).good == m.good,
{
}

/// A write or an allocation never shrinks the file.
pub proof fn lemma_write_never_shrinks(setup: Setup, m: Model, op: Op, d: Draws)
    requires
        op.is_write_like() || op == Op::PosixFallocate,
    ensures
        next(setup, m, op, d).file_size >= m.file_size,
{
}

/// Replay equivalence of one step: what a step does to the model does not
/// depend on which steps are simulated.
pub proof fn lemma_step_ignores_replay(
    setup: Setup,
    start: nat,
    inject: Option<nat>,
    m: Model,
    op: Op,
    d: Draws,
)
    ensures
        next(Setup { start, inject, ..setup }, m, op, d) == next(setup, m, op, d),
{
}

/// Replay equivalence: a run whose first steps are simulated, or one of
/// whose steps is, reaches the model that the run reaches which simulates
/// none, step for step.
pub proof fn lemma_replay_equivalence(
    setup: Setup,
    start: nat,
    inject: Option<nat>,
    m: Model,
    plan: Seq<(Op, Draws)>,
)
    ensures
        run(Setup { start, inject, ..setup }, m, plan) == run(setup, m, plan),
    decreases plan.len(),
{
    if plan.len() > 0 {
        lemma_replay_equivalence(setup, start, inject, m, plan.drop_last());
        lemma_step_ignores_replay(
            setup,
            start,
            inject,
            run(setup, m, plan.drop_last()),
            plan.last().0,
            plan.last().1,
        );
    }
}

/// Determinism: two runs that start alike and whose steps are of the same
/// kinds and draw the same numbers reach the same model, and so the same
/// expected content and the same history; and their last steps ask for the
/// same operation and show the same line.
pub proof fn lemma_determinism(
    cx1: Context,
    cx2: Context,
    m1: Model,
    m2: Model,
    plan: Seq<(Op, Draws)>,
    op: Op,
    d: Draws,
)
    requires
        cx1 == cx2,
        m1 == m2,
    ensures
        run(cx1.setup, m1, plan) == run(cx2.setup, m2, plan),
        outcome(cx1, run(cx1.setup, m1, plan), op, d) == outcome(
            cx2,
            run(cx2.setup, m2, plan),
            op,
            d,
        ),
{
}

/// A run counts its steps and records one entry for each.
pub proof fn lemma_run_counts(setup: Setup, m: Model, plan: Seq<(Op, Draws)>)
    ensures
        run(setup, m, plan).steps == m.steps + plan.len(),
        run(setup, m, plan).log.len() == m.log.len() + plan.len(),
        run(setup, m, plan).log.subrange(0, m.log.len() as int) == m.log,
    decreases plan.len(),
{
    if plan.len() > 0 {
        lemma_run_counts(setup, m, plan.drop_last());
        let before = run(setup, m, plan.drop_last());
        let after = next(setup, before, plan.last().0, plan.last().1);
        assert(after.log.len() == before.log.len() + 1);
        assert(after.log.drop_last() =~= before.log);
        assert(after.log.subrange(0, m.log.len() as int) =~= m.log);
    } else {
        assert(m.log.subrange(0, m.log.len() as int) =~= m.log);
    }
}

/// A simulated step asks for nothing to be done to the file, and shows no
/// line but the one that says why a step was skipped; what it records is
/// what it would record were it not simulated.
pub proof fn lemma_simulated_step(cx: Context, m: Model, op: Op, d: Draws)
    requires
        cx.setup.simulated(m.steps + 1),
    ensures
        outcome(cx, m, op, d).action == Action::Nothing,
        outcome(cx, m, op, d).line matches Some(l) ==> l.0 == Level::Debug && outcome(
            cx,
            m,
            op,
            d,
        ).entry is Skip,
        outcome(cx, m, op, d).entry == outcome(
            Context { setup: Setup { start: 0, inject: None, ..cx.setup }, ..cx },
            m,
            op,
            d,
        ).entry,
{
}

/// A step that was skipped asks for nothing and leaves the expected
/// content and the expected size as they were.
pub proof fn lemma_skipped_step(cx: Context, m: Model, op: Op, d: Draws)
    requires
        outcome(cx, m, op, d).entry is Skip,
    ensures
        outcome(cx, m, op, d).action == Action::Nothing,
        next(cx.setup, m, op, d).good == m.good,
        next(cx.setup, m, op, d).file_size == m.file_size,
{
}

/// The file's size is checked after exactly the steps beyond the start of
/// the run, where size checks are on.
pub proof fn lemma_size_check(cx: Context, m: Model, op: Op, d: Draws)
    ensures
        outcome(cx, m, op, d).check_size == (cx.size_checks && m.steps + 1 > cx.setup.start),
{
}

/// What a step records is what the model's history gains.
pub proof fn lemma_outcome_entry(cx: Context, m: Model, op: Op, d: Draws)
    ensures
        next(cx.setup, m, op, d).log == m.log.push(outcome(cx, m, op, d).entry),
{
}

} // verus!
