//! What a step asks of its caller: the operation to perform on the file and
//! the progress line to show.

use crate::lines::Level;
use crate::lines::Line;
use crate::lines::plain_text;
use crate::lines::range_text;
use crate::lines::truncate_text;
use crate::lines::Widths;
use crate::model::clamp_offset;
use crate::model::clamp_size;
use crate::model::Draws;
use crate::model::Model;
use crate::model::Setup;
use crate::op::LogEntry;
use crate::op::Op;
use vstd::prelude::*;

verus! {

/// The operation that a step's caller performs on the file.
#[derive(Clone, Copy, Debug, PartialEq, Eq, Structural)]
pub enum Action {
    /// Nothing: the step was skipped or is simulated.
    Nothing,
    /// Drop the file handle and open the file again.
    CloseOpen,
    /// Read `size` bytes at `offset` and have them compared.
    Read { offset: u64, size: usize },
    /// Map the pages that cover the range, copy the range out and have it
    /// compared.
    MapRead { offset: u64, size: usize },
    /// Transfer `size` bytes at `offset` through the zero-copy primitive and
    /// have them compared.
    Sendfile { offset: u64, size: usize },
    /// Write the expected content of the range.
    Write { offset: u64, size: usize },
    /// Set the file's length to `extend_to` where there is one, map the
    /// pages that cover the range, copy the expected content in, and sync
    /// the mapping where `sync` holds.
    MapWrite { offset: u64, size: usize, extend_to: Option<u64>, sync: bool },
    /// Set the file's length.
    Truncate { length: u64 },
    /// Map the first `size` bytes and ask for their cached pages to be
    /// invalidated.
    Invalidate { size: usize },
    /// Flush data and metadata.
    Fsync,
    /// Flush data.
    Fdatasync,
    /// Allocate space for the range.
    PosixFallocate { offset: u64, len: u64 },
    /// Deallocate the space of the range; the size stays.
    PunchHole { offset: u64, len: u64 },
}

/// What one step did to the model and asks of its caller.
#[derive(Debug)]
pub struct Step {
    /// What the history recorded.
    pub entry: LogEntry,
    /// What to do to the file.
    pub action: Action,
    /// The progress line to show, where there is one.
    pub line: Option<Line>,
    /// Whether the file's size is to be checked once the action is done.
    pub check_size: bool,
}

/// A step as specifications see it.
pub struct StepView {
    pub entry: LogEntry,
    pub action: Action,
    pub line: Option<(Level, Seq<char>)>,
    pub check_size: bool,
}

impl View for Step {
    type V = StepView;

    open spec fn view(&self) -> StepView {
        StepView {
            entry: self.entry,
            action: self.action,
            line: match self.line {
                Some(l) => Some(l@),
                None => None,
            },
            check_size: self.check_size,
        }
    }
}

/// Everything that is fixed when a run starts.
pub struct Context {
    pub setup: Setup,
    /// Column widths of progress lines.
    pub widths: Widths,
    /// The byte range whose operations are shown more prominently.
    pub monitor: Option<(u64, u64)>,
    /// Whether a mapped write syncs its mapping.
    pub sync: bool,
    /// Whether the file's size is checked after the steps that are not
    /// simulated.
    pub size_checks: bool,
}

/// How prominently an operation on `size` bytes at `offset` is shown: as a
/// warning where it touches the monitored range.
pub open spec fn range_level(monitor: Option<(u64, u64)>, offset: nat, size: nat) -> Level {
    match monitor {
        Some((from, to)) => if from < offset + size && offset <= to {
            Level::Warn
        } else {
            Level::Info
        },
        None => Level::Info,
    }
}

/// How prominently an operation that changes sizes is shown: as a warning
/// where its length is not beyond the end of the monitored range.
pub open spec fn length_level(monitor: Option<(u64, u64)>, length: nat) -> Level {
    match monitor {
        Some((_, to)) => if length <= to {
            Level::Warn
        } else {
            Level::Info
        },
        None => Level::Info,
    }
}

/// A step that did nothing but say why.
pub open spec fn skipped(cx: Context, m: Model, op: Op, why: Seq<char>) -> StepView {
    StepView {
        entry: LogEntry::Skip(op),
        action: Action::Nothing,
        line: Some((Level::Debug, plain_text(cx.widths, m.steps, why))),
        check_size: false,
    }
}

/// A step that is simulated shows nothing and asks for nothing; any other
/// shows `line` and asks for `action`.
pub open spec fn performed(
    cx: Context,
    m: Model,
    entry: LogEntry,
    action: Action,
    line: (Level, Seq<char>),
) -> StepView {
    if cx.setup.simulated(m.steps) {
        StepView { entry, action: Action::Nothing, line: None, check_size: false }
    } else {
        StepView { entry, action, line: Some(line), check_size: false }
    }
}

/// What a write of `size` bytes at `offset` asks for; `m` is the model
/// before the write, with the step counted.
pub open spec fn write_step(cx: Context, m: Model, op: Op, offset: nat, size: nat) -> StepView {
    if size == 0 {
        skipped(cx, m, op, "skipping zero size write"@)
    } else {
        performed(
            cx,
            m,
            if op == Op::Write {
                LogEntry::Write(m.file_size as u64, offset as u64, size as usize)
            } else {
                LogEntry::MapWrite(m.file_size as u64, offset as u64, size as usize)
            },
            if op == Op::Write {
                Action::Write { offset: offset as u64, size: size as usize }
            } else {
                Action::MapWrite {
                    offset: offset as u64,
                    size: size as usize,
                    extend_to: if m.file_size < offset + size {
                        Some((offset + size) as u64)
                    } else {
                        None
                    },
                    sync: cx.sync,
                }
            },
            (
                range_level(cx.monitor, offset, size),
                range_text(
                    cx.widths,
                    m.steps,
                    op.name_spec(),
                    8,
                    offset,
                    (offset + size - 1) as nat,
                    size,
                ),
            ),
        )
    }
}

/// What a read of `size` bytes at `offset` asks for.
pub open spec fn read_step(cx: Context, m: Model, op: Op, offset: nat, size: nat) -> StepView {
    if size == 0 {
        skipped(cx, m, op, "skipping zero size read"@)
    } else if offset + size > m.file_size {
        skipped(cx, m, op, "skipping seek/read past EoF"@)
    } else {
        performed(
            cx,
            m,
            if op == Op::Read {
                LogEntry::Read(offset as u64, size as usize)
            } else if op == Op::MapRead {
                LogEntry::MapRead(offset as u64, size as usize)
            } else {
                LogEntry::Sendfile(offset as u64, size as usize)
            },
            if op == Op::Read {
                Action::Read { offset: offset as u64, size: size as usize }
            } else if op == Op::MapRead {
                Action::MapRead { offset: offset as u64, size: size as usize }
            } else {
                Action::Sendfile { offset: offset as u64, size: size as usize }
            },
            (
                range_level(cx.monitor, offset, size),
                range_text(
                    cx.widths,
                    m.steps,
                    op.name_spec(),
                    8,
                    offset,
                    (offset + size - 1) as nat,
                    size,
                ),
            ),
        )
    }
}

/// What a truncate to `size` asks for.
pub open spec fn truncate_step(cx: Context, m: Model, size: nat) -> StepView {
    performed(
        cx,
        m,
        LogEntry::Truncate(m.file_size as u64, size as u64),
        Action::Truncate { length: size as u64 },
        (length_level(cx.monitor, size), truncate_text(cx.widths, m.steps, m.file_size, size)),
    )
}

/// What an allocation of `len` bytes at `offset` asks for.
pub open spec fn fallocate_step(cx: Context, m: Model, offset: nat, len: nat) -> StepView {
    if len == 0 {
        skipped(cx, m, Op::PosixFallocate, "skipping zero size posix_fallocate"@)
    } else {
        performed(
            cx,
            m,
            LogEntry::PosixFallocate(offset as u64, len as u64),
            Action::PosixFallocate { offset: offset as u64, len: len as u64 },
            (
                length_level(cx.monitor, len),
                range_text(
                    cx.widths,
                    m.steps,
                    "posix_fallocate"@,
                    0,
                    offset,
                    (offset + len - 1) as nat,
                    len,
                ),
            ),
        )
    }
}

/// What a hole of `len` bytes at `offset` asks for.
pub open spec fn punch_hole_step(cx: Context, m: Model, offset: nat, len: nat) -> StepView {
    if len == 0 {
        skipped(cx, m, Op::PunchHole, "skipping zero size hole punch"@)
    } else {
        performed(
            cx,
            m,
            LogEntry::PunchHole(offset as u64, len as u64),
            Action::PunchHole { offset: offset as u64, len: len as u64 },
            (
                length_level(cx.monitor, len),
                range_text(
                    cx.widths,
                    m.steps,
                    "punch_hole"@,
                    0,
                    offset,
                    (offset + len - 1) as nat,
                    len,
                ),
            ),
        )
    }
}

/// What an invalidation asks for: nothing of a file without bytes.
pub open spec fn invalidate_step(cx: Context, m: Model) -> StepView {
    if cx.setup.simulated(m.steps) {
        StepView {
            entry: LogEntry::Invalidate,
            action: Action::Nothing,
            line: None,
            check_size: false,
        }
    } else if m.file_size == 0 {
        StepView {
            entry: LogEntry::Invalidate,
            action: Action::Nothing,
            line: Some(
                (
                    Level::Debug,
                    plain_text(cx.widths, m.steps, "skipping invalidate of zero-length file"@),
                ),
            ),
            check_size: false,
        }
    } else {
        StepView {
            entry: LogEntry::Invalidate,
            action: Action::Invalidate { size: m.file_size as usize },
            line: Some((Level::Info, plain_text(cx.widths, m.steps, "msync(MS_INVALIDATE)"@))),
            check_size: false,
        }
    }
}

/// What an operation without a range asks for.
pub open spec fn plain_step(
    cx: Context,
    m: Model,
    entry: LogEntry,
    action: Action,
    text: Seq<char>,
) -> StepView {
    performed(cx, m, entry, action, (Level::Info, plain_text(cx.widths, m.steps, text)))
}

/// Whether the file's size is checked after the step numbered `step`: after
/// every step beyond the start of the run, where size checks are on.
pub open spec fn size_check_due(cx: Context, step: nat) -> bool {
    cx.size_checks && step > cx.setup.start
}

/// What one whole step of kind `op` that drew `d` asks for; `m` is the model
/// before the step.
pub open spec fn outcome(cx: Context, m: Model, op: Op, d: Draws) -> StepView {
    let c = m.counted();
    let s = cx.setup;
    let v = match op {
        Op::CloseOpen => plain_step(cx, c, LogEntry::CloseOpen, Action::CloseOpen, "close/open"@),
        Op::Invalidate => invalidate_step(cx, c),
        Op::Fsync => plain_step(cx, c, LogEntry::Fsync, Action::Fsync, "fsync"@),
        Op::Fdatasync => plain_step(cx, c, LogEntry::Fdatasync, Action::Fdatasync, "fdatasync"@),
        Op::Write | Op::MapWrite => {
            let offset = clamp_offset(s.flen, s.align, d.offset as nat);
            write_step(cx, c, op, offset, clamp_size(s.flen, s.align, offset, d.size as nat))
        },
        Op::Read | Op::MapRead | Op::Sendfile => {
            let offset = clamp_offset(m.file_size, s.align, d.offset as nat);
            read_step(cx, c, op, offset, clamp_size(m.file_size, s.align, offset, d.size as nat))
        },
        Op::Truncate => truncate_step(cx, c, d.length as nat % s.flen),
        Op::PosixFallocate => {
            let offset = clamp_offset(s.flen, 1, d.offset as nat);
            fallocate_step(cx, c, offset, clamp_size(s.flen, s.align, offset, d.size as nat))
        },
        Op::PunchHole => {
            let offset = clamp_offset(m.file_size, s.align, d.offset as nat);
            punch_hole_step(
                cx,
                c,
                offset,
                clamp_size(m.file_size, s.align, offset, d.size as nat),
            )
        },
    };
    StepView { check_size: size_check_due(cx, c.steps), ..v }
}

} // verus!
