//! The mathematical model of a run: what the file is expected to hold
//! after each step, and what the history records of it.
//!
//! A run is modelled by a `Setup`, fixed when the run starts, and a `Model`
//! that each step maps to the next one. Which numbers a step draws is not
//! modelled: the transition takes them as arguments.

use crate::op::LogEntry;
use crate::op::Op;
use vstd::prelude::*;

verus! {

/// The numbers that one step draws from the generator.
#[derive(Clone, Copy, Debug, PartialEq, Eq, Structural)]
pub struct Draws {
    /// The size, drawn between the smallest and the largest operation size.
    pub size: usize,
    /// The offset, before it is brought into the file and aligned.
    pub offset: u32,
    /// The new length of a truncate, before it is brought below the maximum
    /// file length. Drawn for that kind only.
    pub length: u32,
}

/// What is fixed when a run starts.
pub struct Setup {
    /// Maximum file length.
    pub flen: nat,
    /// Alignment of offsets and sizes.
    pub align: nat,
    /// Block mode: the file's size never changes.
    pub blockmode: bool,
    /// What the file held before the run; as long as the maximum length.
    pub original: Seq<u8>,
    /// Steps numbered up to this one are simulated.
    pub start: nat,
    /// The step that is simulated wherever it falls.
    pub inject: Option<nat>,
}

/// What a run has reached after some steps.
pub struct Model {
    /// Expected content, as long as the maximum file length; the file is
    /// expected to agree with it below `file_size`.
    pub good: Seq<u8>,
    /// Expected size of the file.
    pub file_size: nat,
    /// Number of steps taken.
    pub steps: nat,
    /// What the history recorded of each step, oldest first.
    pub log: Seq<LogEntry>,
}

impl Setup {
    /// Whether the step with this number is simulated: the model and the
    /// history follow it, the file does not.
    pub open spec fn simulated(self, step: nat) -> bool {
        step <= self.start || self.inject == Some(step)
    }

    /// A file can hold at least one byte, the alignment is positive and the
    /// original content is as long as the maximum file length.
    pub open spec fn wf(self) -> bool {
        &&& self.flen > 0
        &&& self.align > 0
        &&& self.original.len() == self.flen
    }
}

impl Model {
    /// The expected content is as long as the maximum file length, and the
    /// expected size within it; in block mode it is the maximum file length.
    pub open spec fn wf(self, setup: Setup) -> bool {
        &&& self.good.len() == setup.flen
        &&& self.file_size <= setup.flen
        &&& setup.blockmode ==> self.file_size == setup.flen
    }

    /// The same model with one more step counted.
    pub open spec fn counted(self) -> Model {
        Model { steps: self.steps + 1, ..self }
    }

    /// The same model with one more entry in its history.
    pub open spec fn logged(self, entry: LogEntry) -> Model {
        Model { log: self.log.push(entry), ..self }
    }
}

/// The byte that the step numbered `step` writes at position `pos`: the
/// step's number modulo 256, and at odd positions the original byte added to
/// it, modulo 256.
pub open spec fn data_byte(step: nat, original: u8, pos: int) -> u8 {
    if pos % 2 == 1 {
        ((step % 256 + original) % 256) as u8
    } else {
        (step % 256) as u8
    }
}

/// `good` with the `size` bytes from `offset` replaced by the data of the
/// step numbered `step`.
pub open spec fn generate(
    good: Seq<u8>,
    original: Seq<u8>,
    step: nat,
    offset: nat,
    size: nat,
) -> Seq<u8> {
    Seq::new(
        good.len(),
        |i: int|
            if offset <= i < offset + size {
                data_byte(step, original[i], i)
            } else {
                good[i]
            },
    )
}

/// `good` with the bytes from `from` up to `to` replaced by `byte`.
pub open spec fn fill(good: Seq<u8>, from: nat, to: nat, byte: u8) -> Seq<u8> {
    Seq::new(
        good.len(),
        |i: int|
            if from <= i < to {
                byte
            } else {
                good[i]
            },
    )
}

/// `x` rounded down to a multiple of `align`.
pub open spec fn round_down(x: nat, align: nat) -> nat {
    (x - x % align) as nat
}

/// A drawn offset brought below `limit` and aligned; zero where the limit
/// is zero.
pub open spec fn clamp_offset(limit: nat, align: nat, drawn: nat) -> nat {
    if limit > 0 {
        round_down(drawn % limit, align)
    } else {
        0
    }
}

/// A drawn size cut so that it ends within `limit` when it starts at
/// `offset`, and aligned.
pub open spec fn clamp_size(limit: nat, align: nat, offset: nat, drawn: nat) -> nat {
    if drawn > limit - offset {
        round_down((limit - offset) as nat, align)
    } else {
        round_down(drawn, align)
    }
}

/// The model after a write of `size` bytes at `offset`, by either kind of
/// write. A write of no bytes is skipped. Any other fills its range with the
/// step's data; where it starts beyond the end of the file the gap reads as
/// zero, and where it ends beyond it the file grows.
pub open spec fn after_write(setup: Setup, m: Model, op: Op, offset: nat, size: nat) -> Model {
    if size == 0 {
        m.logged(LogEntry::Skip(op))
    } else {
        let data = generate(m.good, setup.original, m.steps, offset, size);
        let entry = if op == Op::Write {
            LogEntry::Write(m.file_size as u64, offset as u64, size as usize)
        } else {
            LogEntry::MapWrite(m.file_size as u64, offset as u64, size as usize)
        };
        Model {
            good: if m.file_size < offset {
                fill(data, m.file_size, offset, 0)
            } else {
                data
            },
            file_size: if m.file_size < offset + size {
                offset + size
            } else {
                m.file_size
            },
            ..m.logged(entry)
        }
    }
}

/// The history entry of a read of `size` bytes at `offset`, by any of the
/// three kinds of read. A read of no bytes, or one that ends beyond the end
/// of the file, is skipped.
pub open spec fn read_entry(m: Model, op: Op, offset: nat, size: nat) -> LogEntry {
    if size == 0 || offset + size > m.file_size {
        LogEntry::Skip(op)
    } else if op == Op::Read {
        LogEntry::Read(offset as u64, size as usize)
    } else if op == Op::MapRead {
        LogEntry::MapRead(offset as u64, size as usize)
    } else {
        LogEntry::Sendfile(offset as u64, size as usize)
    }
}

/// The model after a read: only the history grows.
pub open spec fn after_read(m: Model, op: Op, offset: nat, size: nat) -> Model {
    m.logged(read_entry(m, op, offset, size))
}

/// The model after a truncate to `size`: what the file gains reads as zero.
pub open spec fn after_truncate(m: Model, size: nat) -> Model {
    Model {
        good: if size > m.file_size {
            fill(m.good, m.file_size, size, 0)
        } else {
            m.good
        },
        file_size: size,
        ..m.logged(LogEntry::Truncate(m.file_size as u64, size as u64))
    }
}

/// The model after space is allocated for `len` bytes at `offset`. An
/// allocation of no bytes is skipped. Where the range ends beyond the end of
/// the file the file grows, and what it gains reads as zero.
pub open spec fn after_fallocate(m: Model, offset: nat, len: nat) -> Model {
    if len == 0 {
        m.logged(LogEntry::Skip(Op::PosixFallocate))
    } else if offset + len > m.file_size {
        Model {
            good: fill(m.good, m.file_size, offset + len, 0),
            file_size: offset + len,
            ..m.logged(LogEntry::PosixFallocate(offset as u64, len as u64))
        }
    } else {
        m.logged(LogEntry::PosixFallocate(offset as u64, len as u64))
    }
}

/// The model after a hole of `len` bytes is punched at `offset`: the range
/// reads as zero and the size stays. A hole of no bytes is skipped.
pub open spec fn after_punch_hole(m: Model, offset: nat, len: nat) -> Model {
    if len == 0 {
        m.logged(LogEntry::Skip(Op::PunchHole))
    } else {
        Model {
            good: fill(m.good, offset, offset + len, 0),
            ..m.logged(LogEntry::PunchHole(offset as u64, len as u64))
        }
    }
}

/// The model after one whole step of kind `op` that drew `d`.
pub open spec fn next(setup: Setup, m: Model, op: Op, d: Draws) -> Model {
    let c = m.counted();
    match op {
        Op::CloseOpen => c.logged(LogEntry::CloseOpen),
        Op::Invalidate => c.logged(LogEntry::Invalidate),
        Op::Fsync => c.logged(LogEntry::Fsync),
        Op::Fdatasync => c.logged(LogEntry::Fdatasync),
        Op::Write | Op::MapWrite => {
            let offset = clamp_offset(setup.flen, setup.align, d.offset as nat);
            let size = clamp_size(setup.flen, setup.align, offset, d.size as nat);
            after_write(setup, c, op, offset, size)
        },
        Op::Read | Op::MapRead | Op::Sendfile => {
            let offset = clamp_offset(m.file_size, setup.align, d.offset as nat);
            let size = clamp_size(m.file_size, setup.align, offset, d.size as nat);
            after_read(c, op, offset, size)
        },
        Op::Truncate => after_truncate(c, d.length as nat % setup.flen),
        Op::PosixFallocate => {
            let offset = clamp_offset(setup.flen, 1, d.offset as nat);
            let size = clamp_size(setup.flen, setup.align, offset, d.size as nat);
            after_fallocate(c, offset, size)
        },
        Op::PunchHole => {
            let offset = clamp_offset(m.file_size, setup.align, d.offset as nat);
            let size = clamp_size(m.file_size, setup.align, offset, d.size as nat);
            after_punch_hole(c, offset, size)
        },
    }
}

/// The model after the steps of `plan`, taken in order.
pub open spec fn run(setup: Setup, m: Model, plan: Seq<(Op, Draws)>) -> Model
    decreases plan.len(),
{
    if plan.len() == 0 {
        m
    } else {
        next(setup, run(setup, m, plan.drop_last()), plan.last().0, plan.last().1)
    }
}

} // verus!
