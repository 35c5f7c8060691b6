//! The exerciser: the expected content of the file, the history of the run,
//! and the steps that change them.
//!
//! The exerciser touches no file. Each step changes the model and says what
//! is to be done to the file; its caller does that and hands back what it
//! read, for the exerciser to compare.

use crate::checks::check_page;
use crate::checks::compare;
use crate::checks::eof_page_error;
use crate::checks::EofPageError;
use crate::checks::miscompare;
use crate::checks::Miscompare;
use crate::checks::miscompare_text;
use crate::checks::size_error;
use crate::checks::SizeError;
use crate::config::Config;
use crate::config::ConfigError;
use crate::config::Enabled;
use crate::config::Opsize;
use crate::format::dec_len;
use crate::format::dec_len_of;
use crate::format::field_width;
use crate::format::field_width_spec;
use crate::history::History;
use crate::history::HISTORY_CAPACITY;
use crate::history::keep_last;
use crate::lines::dump_line;
use crate::lines::dump_text;
use crate::lines::Level;
use crate::lines::Line;
use crate::lines::plain_line;
use crate::lines::range_line;
use crate::lines::showable;
use crate::lines::truncate_line;
use crate::lines::Widths;
use crate::model::after_fallocate;
use crate::model::after_punch_hole;
use crate::model::after_read;
use crate::model::after_truncate;
use crate::model::after_write;
use crate::model::clamp_offset;
use crate::model::clamp_size;
use crate::model::Draws;
use crate::model::fill;
use crate::model::generate;
use crate::model::Model;
use crate::model::next;
use crate::model::round_down;
use crate::model::Setup;
use crate::op::LogEntry;
use crate::op::Op;
use crate::plan::Action;
use crate::plan::Context;
use crate::plan::fallocate_step;
use crate::plan::invalidate_step;
use crate::plan::length_level;
use crate::plan::outcome;
use crate::plan::plain_step;
use crate::plan::punch_hole_step;
use crate::plan::range_level;
use crate::plan::read_step;
use crate::plan::Step;
use crate::plan::truncate_step;
use crate::plan::write_step;
use crate::source::draw_range;
use crate::source::draw_u32;
use crate::source::fill_bytes;
use crate::source::seeded;
use rand_xorshift::XorShiftRng;
use vstd::arithmetic::div_mod::lemma_div_is_ordered;
use vstd::arithmetic::div_mod::lemma_fundamental_div_mod;
use vstd::arithmetic::div_mod::lemma_mod_decreases;
use vstd::arithmetic::div_mod::lemma_mod_multiples_basic;
use vstd::arithmetic::mul::lemma_mul_inequality;
use vstd::arithmetic::mul::lemma_mul_is_commutative;
use vstd::prelude::*;

verus! {

/// `safemem::write_bytes` on a part of a buffer: every byte from `from` up
/// to `to` becomes `byte`, and no other byte changes.
#[verifier::external_body]
fn write_bytes(buf: &mut Vec<u8>, from: usize, to: usize, byte: u8)
    requires
        from <= to <= old(buf)@.len(),
    ensures
        final(buf)@ == fill(old(buf)@, from as nat, to as nat, byte),
{
    safemem::write_bytes(&mut buf[from..to], byte)
}

/// What the command line says of a run.
#[derive(Clone, Copy, Debug)]
pub struct RunParams {
    /// Number of the first step that is performed on the file; the steps
    /// before it are simulated. At least one.
    pub opnum: u64,
    /// The byte range whose operations are shown more prominently.
    pub monitor: Option<(u64, u64)>,
    /// Total number of steps; none for a run without end.
    pub numops: Option<u64>,
    /// Seed of the generator.
    pub seed: u64,
    /// The step that is simulated wherever it falls.
    pub inject: Option<u64>,
}

/// The file's catching up with the model, when the run reaches its start:
/// the first `len` bytes of the expected content are written at offset zero,
/// and the file's length is set to `len` where `set_len` holds.
#[derive(Clone, Copy, Debug, PartialEq, Eq, Structural)]
pub struct CatchUp {
    pub len: usize,
    pub set_len: bool,
}

/// The exerciser of one file: the model of what the file should hold, the
/// history of the run, the generator that the run draws from and what the
/// run was started with.
pub struct Exerciser {
    align: usize,
    blockmode: bool,
    /// Current file size.
    file_size: u64,
    flen: u64,
    /// Width for printing fields containing file offsets.
    fwidth: usize,
    /// The step that is simulated wherever it falls.
    inject: Option<u64>,
    /// What the file ought to contain.
    good_buf: Vec<u8>,
    /// Operations on this byte range are shown more prominently.
    monitor: Option<(u64, u64)>,
    nomsyncafterwrite: bool,
    nosizechecks: bool,
    numops: Option<u64>,
    /// Records the most recent operations.
    oplog: History,
    opsize: Opsize,
    /// Number of the last step that is simulated only.
    simulatedopcount: u64,
    /// Width for printing fields containing operation sizes.
    swidth: usize,
    /// Width for printing the step number field.
    stepwidth: usize,
    /// The file's original data.
    original_buf: Vec<u8>,
    rng: XorShiftRng,
    /// Number of steps taken so far.
    steps: u64,
    page_size: usize,
    /// The kinds of operation that the selector can draw.
    enabled: Enabled,
}

/// The first reason for which no exerciser can be made of these values, in
/// the order in which the reasons are checked.
pub open spec fn refusal(
    params: RunParams,
    conf: Config,
    has_artifacts_dir: bool,
    device_len: u64,
    page_size: usize,
) -> Option<ConfigError> {
    if conf.violation(has_artifacts_dir) is Some {
        conf.violation(has_artifacts_dir)
    } else if params.opnum == 0 {
        Some(ConfigError::ZeroOpnum)
    } else if page_size == 0 {
        Some(ConfigError::ZeroPageSize)
    } else if conf.blockmode && device_len == 0 {
        Some(ConfigError::ZeroLength)
    } else {
        None
    }
}

/// The maximum file length of a run: in block mode the length of the device,
/// else the configured one.
pub open spec fn run_flen(conf: Config, device_len: u64) -> nat {
    if conf.blockmode {
        device_len as nat
    } else {
        conf.flen as nat
    }
}

/// The column widths of a run's lines.
pub open spec fn run_widths(params: RunParams, conf: Config, device_len: u64) -> Widths {
    Widths {
        step: dec_len(
            match params.numops {
                Some(n) => n as nat,
                None => 999999,
            },
        ) as usize,
        offset: field_width_spec(run_flen(conf, device_len), true) as usize,
        size: field_width_spec(conf.opsize.max as nat, true) as usize,
    }
}

impl Exerciser {
    /// What the run was started with.
    pub closed spec fn context(&self) -> Context {
        Context {
            setup: Setup {
                flen: self.flen as nat,
                align: self.align as nat,
                blockmode: self.blockmode,
                original: self.original_buf@,
                start: self.simulatedopcount as nat,
                inject: match self.inject {
                    Some(n) => Some(n as nat),
                    None => None,
                },
            },
            widths: Widths { step: self.stepwidth, offset: self.fwidth, size: self.swidth },
            monitor: self.monitor,
            sync: !self.nomsyncafterwrite,
            size_checks: !self.nosizechecks,
        }
    }

    /// What the run has reached.
    pub closed spec fn model(&self) -> Model {
        Model {
            good: self.good_buf@,
            file_size: self.file_size as nat,
            steps: self.steps as nat,
            log: self.oplog.all(),
        }
    }

    /// The smallest and the largest size that a step draws.
    pub closed spec fn size_range(&self) -> (usize, usize) {
        (self.opsize.min, self.opsize.max)
    }

    /// The total number of steps of the run, where it has one.
    pub closed spec fn budget(&self) -> Option<u64> {
        self.numops
    }

    /// The size of a page of memory.
    pub closed spec fn page_size_spec(&self) -> nat {
        self.page_size as nat
    }

    /// What holds of an exerciser whatever the step it is in.
    spec fn inv(&self) -> bool {
        &&& self.context().setup.wf()
        &&& self.model().wf(self.context().setup)
        &&& self.flen <= usize::MAX
        &&& self.opsize.min <= self.opsize.max
        &&& self.page_size > 0
        &&& self.blockmode ==> !self.enabled.truncate
        &&& self.oplog.wf()
        &&& forall|i: int|
            0 <= i < self.oplog.all().len() ==> showable(#[trigger] self.oplog.all()[i])
    }

    /// What holds of an exerciser within a step, once the step is counted
    /// and before it is recorded.
    spec fn pending(&self) -> bool {
        &&& self.inv()
        &&& self.oplog.all().len() + 1 == self.steps
        &&& self.steps <= usize::MAX
    }

    /// What holds of an exerciser between two steps.
    pub closed spec fn wf(&self) -> bool {
        &&& self.inv()
        &&& self.oplog.all().len() == self.steps
    }

    /// Whether one more step can be counted and recorded.
    pub open spec fn can_step_spec(&self) -> bool {
        self.model().steps < u64::MAX && self.model().steps < usize::MAX
    }

    /// The kinds of operation that the selector can draw.
    pub closed spec fn enabled_spec(&self) -> Enabled {
        self.enabled
    }

    /// The generator that the run draws from.
    pub closed spec fn generator(&self) -> XorShiftRng {
        self.rng
    }

    /// Whether this is `before` but for the model: the run is the same one.
    pub open spec fn same_run(&self, before: Exerciser) -> bool {
        &&& self.context() == before.context()
        &&& self.size_range() == before.size_range()
        &&& self.budget() == before.budget()
        &&& self.page_size_spec() == before.page_size_spec()
        &&& self.enabled_spec() == before.enabled_spec()
    }

    /// Whether this is `before` but for the expected content, the expected
    /// size and the history.
    spec fn kept(&self, before: Exerciser) -> bool {
        &&& self.same_run(before)
        &&& self.rng == before.rng
        &&& self.steps == before.steps
    }

    /// Whether nothing forbids a step of kind `op`: in block mode no step
    /// may truncate.
    pub open spec fn permits_spec(&self, op: Op) -> bool {
        self.context().setup.blockmode ==> op != Op::Truncate
    }

    /// Whether the numbers `d` can be what a step draws.
    pub open spec fn can_draw(&self, d: Draws) -> bool {
        self.size_range().0 <= d.size <= self.size_range().1
    }

    fn widths(&self) -> (w: Widths)
        ensures
            w == self.context().widths,
    {
        Widths { step: self.stepwidth, offset: self.fwidth, size: self.swidth }
    }

    /// Should this step be simulated, as not part of the test plan?
    pub fn skip(&self) -> (b: bool)
        ensures
            b == self.context().setup.simulated(self.model().steps),
    {
        let injected = match self.inject {
            Some(n) => n == self.steps,
            None => false,
        };
        self.steps <= self.simulatedopcount || injected
    }

    /// Level at which an operation on a range is shown.
    pub fn loglevel(&self, offset: u64, size: usize) -> (level: Level)
        ensures
            level == range_level(self.context().monitor, offset as nat, size as nat),
    {
        match self.monitor {
            Some((from, to)) => {
                if offset <= to && (from < offset || (from - offset) < size as u64) {
                    Level::Warn
                } else {
                    Level::Info
                }
            },
            None => Level::Info,
        }
    }

    /// Level at which an operation that changes sizes is shown.
    fn length_loglevel(&self, length: u64) -> (level: Level)
        ensures
            level == length_level(self.context().monitor, length as nat),
    {
        match self.monitor {
            Some((_, to)) => {
                if length <= to {
                    Level::Warn
                } else {
                    Level::Info
                }
            },
            None => Level::Info,
        }
    }

    /// Fills `size` bytes of `good` from `offset` with the data of the step
    /// numbered `step`.
    fn gendata(good: &mut Vec<u8>, original: &Vec<u8>, step: u64, offset: u64, size: usize)
        requires
            old(good)@.len() == original@.len(),
            offset + size <= old(good)@.len(),
        ensures
            final(good)@ == generate(
                old(good)@,
                original@,
                step as nat,
                offset as nat,
                size as nat,
            ),
    {
        let limit = good.len();
        let start = offset as usize;
        let step_byte = (step % 256) as u8;
        let mut done: usize = 0;
        while done < size
            invariant
                done <= size,
                start == offset,
                limit == good@.len(),
                start + size <= limit,
                good@.len() == original@.len(),
                step_byte == step % 256,
                good@ == generate(old(good)@, original@, step as nat, offset as nat, done as nat),
            decreases size - done,
        {
            let uoff = start + done;
            let byte = if uoff % 2 > 0 {
                step_byte.wrapping_add(original[uoff])
            } else {
                step_byte
            };
            good[uoff] = byte;
            done = done + 1;
            assert(good@ =~= generate(
                old(good)@,
                original@,
                step as nat,
                offset as nat,
                done as nat,
            ));
        }
    }

    /// Makes room for a write that ends at `end` in a file of `file_size`
    /// bytes: a gap between the end of the file and `offset` reads as zero.
    /// Returns the size of the file after the write.
    fn extend(good: &mut Vec<u8>, file_size: u64, offset: u64, end: u64) -> (size: u64)
        requires
            offset < end <= old(good)@.len() <= usize::MAX,
            file_size <= old(good)@.len(),
        ensures
            final(good)@ == if file_size < offset {
                fill(old(good)@, file_size as nat, offset as nat, 0)
            } else {
                old(good)@
            },
            size == if file_size < end {
                end
            } else {
                file_size
            },
    {
        if file_size < end {
            if file_size < offset {
                write_bytes(good, file_size as usize, offset as usize, 0);
            }
            end
        } else {
            file_size
        }
    }

    /// A step that did nothing but say why.
    fn skipped(&self, op: Op, why: &str) -> (s: Step)
        ensures
            s@ == crate::plan::skipped(self.context(), self.model(), op, why@),
    {
        let text = plain_line(self.widths(), self.steps, why);
        Step {
            entry: LogEntry::Skip(op),
            action: Action::Nothing,
            line: Some(Line { level: Level::Debug, text }),
            check_size: false,
        }
    }

    /// Wrapper around write-like operations.
    fn write_like(&mut self, op: Op, offset: u64, size: usize) -> (s: Step)
        requires
            old(self).pending(),
            op.is_write_like(),
            offset + size <= old(self).flen,
        ensures
            final(self).wf(),
            final(self).model() == after_write(
                old(self).context().setup,
                old(self).model(),
                op,
                offset as nat,
                size as nat,
            ),
            s@ == write_step(
                old(self).context(),
                old(self).model(),
                op,
                offset as nat,
                size as nat,
            ),
            final(self).kept(*old(self)),
    {
        if size == 0 {
            self.oplog.record(LogEntry::Skip(op));
            return self.skipped(op, "skipping zero size write");
        }
        Self::gendata(&mut self.good_buf, &self.original_buf, self.steps, offset, size);
        let cur_file_size = self.file_size;
        let end = offset + size as u64;
        self.file_size = Self::extend(&mut self.good_buf, cur_file_size, offset, end);
        let entry = if op == Op::Write {
            LogEntry::Write(cur_file_size, offset, size)
        } else {
            LogEntry::MapWrite(cur_file_size, offset, size)
        };
        self.oplog.record(entry);
        if self.skip() {
            return Step { entry, action: Action::Nothing, line: None, check_size: false };
        }
        let level = self.loglevel(offset, size);
        let name = op.name();
        let text = range_line(self.widths(), self.steps, name, 8, offset, end - 1, size as u64);
        let action = if op == Op::Write {
            Action::Write { offset, size }
        } else {
            Action::MapWrite {
                offset,
                size,
                extend_to: if cur_file_size < end {
                    Some(end)
                } else {
                    None
                },
                sync: !self.nomsyncafterwrite,
            }
        };
        Step { entry, action, line: Some(Line { level, text }), check_size: false }
    }

    /// Wrapper around read-like operations.
    fn read_like(&mut self, op: Op, offset: u64, size: usize) -> (s: Step)
        requires
            old(self).pending(),
            op.is_read_like(),
            offset + size <= u64::MAX,
        ensures
            final(self).wf(),
            final(self).model() == after_read(old(self).model(), op, offset as nat, size as nat),
            s@ == read_step(
                old(self).context(),
                old(self).model(),
                op,
                offset as nat,
                size as nat,
            ),
            final(self).kept(*old(self)),
    {
        if size == 0 {
            self.oplog.record(LogEntry::Skip(op));
            return self.skipped(op, "skipping zero size read");
        }
        let end = offset + size as u64;
        if end > self.file_size {
            self.oplog.record(LogEntry::Skip(op));
            return self.skipped(op, "skipping seek/read past EoF");
        }
        let entry = match op {
            Op::Read => LogEntry::Read(offset, size),
            Op::MapRead => LogEntry::MapRead(offset, size),
            _ => LogEntry::Sendfile(offset, size),
        };
        self.oplog.record(entry);
        if self.skip() {
            return Step { entry, action: Action::Nothing, line: None, check_size: false };
        }
        let level = self.loglevel(offset, size);
        let name = op.name();
        let text = range_line(self.widths(), self.steps, name, 8, offset, end - 1, size as u64);
        let action = match op {
            Op::Read => Action::Read { offset, size },
            Op::MapRead => Action::MapRead { offset, size },
            _ => Action::Sendfile { offset, size },
        };
        Step { entry, action, line: Some(Line { level, text }), check_size: false }
    }

    /// An operation without a range: it changes nothing in the model.
    fn plain(&mut self, entry: LogEntry, action: Action, text: &str) -> (s: Step)
        requires
            old(self).pending(),
            showable(entry),
        ensures
            final(self).wf(),
            final(self).model() == old(self).model().logged(entry),
            s@ == plain_step(old(self).context(), old(self).model(), entry, action, text@),
            final(self).kept(*old(self)),
    {
        self.oplog.record(entry);
        if self.skip() {
            return Step { entry, action: Action::Nothing, line: None, check_size: false };
        }
        let text = plain_line(self.widths(), self.steps, text);
        Step { entry, action, line: Some(Line { level: Level::Info, text }), check_size: false }
    }

    /// Close and reopen the file.
    fn closeopen(&mut self) -> (s: Step)
        requires
            old(self).pending(),
        ensures
            final(self).wf(),
            final(self).model() == old(self).model().logged(LogEntry::CloseOpen),
            s@ == plain_step(
                old(self).context(),
                old(self).model(),
                LogEntry::CloseOpen,
                Action::CloseOpen,
                "close/open"@,
            ),
            final(self).kept(*old(self)),
    {
        self.plain(LogEntry::CloseOpen, Action::CloseOpen, "close/open")
    }

    fn fsync(&mut self) -> (s: Step)
        requires
            old(self).pending(),
        ensures
            final(self).wf(),
            final(self).model() == old(self).model().logged(LogEntry::Fsync),
            s@ == plain_step(
                old(self).context(),
                old(self).model(),
                LogEntry::Fsync,
                Action::Fsync,
                "fsync"@,
            ),
            final(self).kept(*old(self)),
    {
        self.plain(LogEntry::Fsync, Action::Fsync, "fsync")
    }

    fn fdatasync(&mut self) -> (s: Step)
        requires
            old(self).pending(),
        ensures
            final(self).wf(),
            final(self).model() == old(self).model().logged(LogEntry::Fdatasync),
            s@ == plain_step(
                old(self).context(),
                old(self).model(),
                LogEntry::Fdatasync,
                Action::Fdatasync,
                "fdatasync"@,
            ),
            final(self).kept(*old(self)),
    {
        self.plain(LogEntry::Fdatasync, Action::Fdatasync, "fdatasync")
    }

    /// Invalidate the cached pages of the whole file.
    fn invalidate(&mut self) -> (s: Step)
        requires
            old(self).pending(),
        ensures
            final(self).wf(),
            final(self).model() == old(self).model().logged(LogEntry::Invalidate),
            s@ == invalidate_step(old(self).context(), old(self).model()),
            final(self).kept(*old(self)),
    {
        let entry = LogEntry::Invalidate;
        self.oplog.record(entry);
        if self.skip() {
            return Step { entry, action: Action::Nothing, line: None, check_size: false };
        }
        let len = self.file_size as usize;
        if len == 0 {
            let text = plain_line(
                self.widths(),
                self.steps,
                "skipping invalidate of zero-length file",
            );
            return Step {
                entry,
                action: Action::Nothing,
                line: Some(Line { level: Level::Debug, text }),
                check_size: false,
            };
        }
        let text = plain_line(self.widths(), self.steps, "msync(MS_INVALIDATE)");
        Step {
            entry,
            action: Action::Invalidate { size: len },
            line: Some(Line { level: Level::Info, text }),
            check_size: false,
        }
    }

    /// Set the file's length: what it gains reads as zero.
    fn truncate(&mut self, size: u64) -> (s: Step)
        requires
            old(self).pending(),
            size <= old(self).flen,
            !old(self).blockmode,
        ensures
            final(self).wf(),
            final(self).model() == after_truncate(old(self).model(), size as nat),
            s@ == truncate_step(old(self).context(), old(self).model(), size as nat),
            final(self).kept(*old(self)),
    {
        if size > self.file_size {
            write_bytes(&mut self.good_buf, self.file_size as usize, size as usize, 0);
        }
        let cur_file_size = self.file_size;
        self.file_size = size;
        let entry = LogEntry::Truncate(cur_file_size, size);
        self.oplog.record(entry);
        if self.skip() {
            return Step { entry, action: Action::Nothing, line: None, check_size: false };
        }
        let level = self.length_loglevel(size);
        let text = truncate_line(self.widths(), self.steps, cur_file_size, size);
        Step {
            entry,
            action: Action::Truncate { length: size },
            line: Some(Line { level, text }),
            check_size: false,
        }
    }

    /// Allocate space for a range: where it ends beyond the end of the
    /// file, the file grows and what it gains reads as zero.
    fn posix_fallocate(&mut self, offset: u64, len: u64) -> (s: Step)
        requires
            old(self).pending(),
            offset + len <= old(self).flen,
        ensures
            final(self).wf(),
            final(self).model() == after_fallocate(
                old(self).model(),
                offset as nat,
                len as nat,
            ),
            s@ == fallocate_step(
                old(self).context(),
                old(self).model(),
                offset as nat,
                len as nat,
            ),
            final(self).kept(*old(self)),
    {
        if len == 0 {
            self.oplog.record(LogEntry::Skip(Op::PosixFallocate));
            return self.skipped(Op::PosixFallocate, "skipping zero size posix_fallocate");
        }
        let end = offset + len;
        if end > self.file_size {
            write_bytes(&mut self.good_buf, self.file_size as usize, end as usize, 0);
            self.file_size = end;
        }
        let entry = LogEntry::PosixFallocate(offset, len);
        self.oplog.record(entry);
        if self.skip() {
            return Step { entry, action: Action::Nothing, line: None, check_size: false };
        }
        let level = self.length_loglevel(len);
        let text = range_line(
            self.widths(),
            self.steps,
            "posix_fallocate",
            0,
            offset,
            end - 1,
            len,
        );
        Step {
            entry,
            action: Action::PosixFallocate { offset, len },
            line: Some(Line { level, text }),
            check_size: false,
        }
    }

    /// Punch a hole: the range reads as zero and the file's size stays.
    fn punch_hole(&mut self, offset: u64, len: u64) -> (s: Step)
        requires
            old(self).pending(),
            offset + len <= old(self).file_size,
        ensures
            final(self).wf(),
            final(self).model() == after_punch_hole(
                old(self).model(),
                offset as nat,
                len as nat,
            ),
            s@ == punch_hole_step(
                old(self).context(),
                old(self).model(),
                offset as nat,
                len as nat,
            ),
            final(self).kept(*old(self)),
    {
        if len == 0 {
            self.oplog.record(LogEntry::Skip(Op::PunchHole));
            return self.skipped(Op::PunchHole, "skipping zero size hole punch");
        }
        let end = offset + len;
        write_bytes(&mut self.good_buf, offset as usize, end as usize, 0);
        let entry = LogEntry::PunchHole(offset, len);
        self.oplog.record(entry);
        if self.skip() {
            return Step { entry, action: Action::Nothing, line: None, check_size: false };
        }
        let level = self.length_loglevel(len);
        let text = range_line(self.widths(), self.steps, "punch_hole", 0, offset, end - 1, len);
        Step {
            entry,
            action: Action::PunchHole { offset, len },
            line: Some(Line { level, text }),
            check_size: false,
        }
    }

    fn mapread(&mut self, offset: u64, size: usize) -> (s: Step)
        requires
            old(self).pending(),
            offset + size <= u64::MAX,
        ensures
            final(self).wf(),
            final(self).model() == after_read(
                old(self).model(),
                Op::MapRead,
                offset as nat,
                size as nat,
            ),
            s@ == read_step(
                old(self).context(),
                old(self).model(),
                Op::MapRead,
                offset as nat,
                size as nat,
            ),
            final(self).kept(*old(self)),
    {
        self.read_like(Op::MapRead, offset, size)
    }

    fn read(&mut self, offset: u64, size: usize) -> (s: Step)
        requires
            old(self).pending(),
            offset + size <= u64::MAX,
        ensures
            final(self).wf(),
            final(self).model() == after_read(
                old(self).model(),
                Op::Read,
                offset as nat,
                size as nat,
            ),
            s@ == read_step(
                old(self).context(),
                old(self).model(),
                Op::Read,
                offset as nat,
                size as nat,
            ),
            final(self).kept(*old(self)),
    {
        self.read_like(Op::Read, offset, size)
    }

    fn sendfile(&mut self, offset: u64, size: usize) -> (s: Step)
        requires
            old(self).pending(),
            offset + size <= u64::MAX,
        ensures
            final(self).wf(),
            final(self).model() == after_read(
                old(self).model(),
                Op::Sendfile,
                offset as nat,
                size as nat,
            ),
            s@ == read_step(
                old(self).context(),
                old(self).model(),
                Op::Sendfile,
                offset as nat,
                size as nat,
            ),
            final(self).kept(*old(self)),
    {
        self.read_like(Op::Sendfile, offset, size)
    }

    fn write(&mut self, offset: u64, size: usize) -> (s: Step)
        requires
            old(self).pending(),
            offset + size <= old(self).flen,
        ensures
            final(self).wf(),
            final(self).model() == after_write(
                old(self).context().setup,
                old(self).model(),
                Op::Write,
                offset as nat,
                size as nat,
            ),
            s@ == write_step(
                old(self).context(),
                old(self).model(),
                Op::Write,
                offset as nat,
                size as nat,
            ),
            final(self).kept(*old(self)),
    {
        self.write_like(Op::Write, offset, size)
    }

    fn mapwrite(&mut self, offset: u64, size: usize) -> (s: Step)
        requires
            old(self).pending(),
            offset + size <= old(self).flen,
        ensures
            final(self).wf(),
            final(self).model() == after_write(
                old(self).context().setup,
                old(self).model(),
                Op::MapWrite,
                offset as nat,
                size as nat,
            ),
            s@ == write_step(
                old(self).context(),
                old(self).model(),
                Op::MapWrite,
                offset as nat,
                size as nat,
            ),
            final(self).kept(*old(self)),
    {
        self.write_like(Op::MapWrite, offset, size)
    }

    /// Takes one step of kind `op` with the numbers `d` as drawn: counts it,
    /// brings offset and size into the file, changes the model, records the
    /// step and says what is to be done to the file.
    pub fn advance(&mut self, op: Op, d: Draws) -> (s: Step)
        requires
            old(self).wf(),
            old(self).can_step_spec(),
            old(self).permits_spec(op),
        ensures
            final(self).wf(),
            final(self).same_run(*old(self)),
            final(self).model() == next(old(self).context().setup, old(self).model(), op, d),
            s@ == outcome(old(self).context(), old(self).model(), op, d),
    {
        self.steps = self.steps + 1;
        let mut s = match op {
            Op::CloseOpen => self.closeopen(),
            Op::Write | Op::MapWrite => {
                let offset = clamp_position(self.flen, self.align, d.offset);
                let size = clamp_length(self.flen, self.align, offset, d.size);
                if op == Op::MapWrite {
                    self.mapwrite(offset, size)
                } else {
                    self.write(offset, size)
                }
            },
            Op::Truncate => {
                let fsize = d.length as u64 % self.flen;
                self.truncate(fsize)
            },
            Op::Invalidate => self.invalidate(),
            Op::Read | Op::MapRead | Op::Sendfile => {
                let offset = clamp_position(self.file_size, self.align, d.offset);
                let size = clamp_length(self.file_size, self.align, offset, d.size);
                match op {
                    Op::MapRead => self.mapread(offset, size),
                    Op::Read => self.read(offset, size),
                    _ => self.sendfile(offset, size),
                }
            },
            Op::Fsync => self.fsync(),
            Op::Fdatasync => self.fdatasync(),
            Op::PosixFallocate => {
                let offset = clamp_position(self.flen, 1, d.offset);
                let size = clamp_length(self.flen, self.align, offset, d.size);
                self.posix_fallocate(offset, size as u64)
            },
            Op::PunchHole => {
                let offset = clamp_position(self.file_size, self.align, d.offset);
                let size = clamp_length(self.file_size, self.align, offset, d.size);
                self.punch_hole(offset, size as u64)
            },
        };
        s.check_size = !self.nosizechecks && self.steps > self.simulatedopcount;
        s
    }

    /// Takes one step of kind `op`: draws a size, an offset and, for a
    /// truncate, a length from the generator, and advances by them.
    pub fn step(&mut self, op: Op) -> (s: Step)
        requires
            old(self).wf(),
            old(self).can_step_spec(),
            old(self).permits_spec(op),
        ensures
            final(self).wf(),
            final(self).same_run(*old(self)),
            exists|d: Draws|
                {
                    &&& old(self).can_draw(d)
                    &&& final(self).model() == #[trigger] next(
                        old(self).context().setup,
                        old(self).model(),
                        op,
                        d,
                    )
                    &&& s@ == outcome(old(self).context(), old(self).model(), op, d)
                },
    {
        let size = draw_range(&mut self.rng, self.opsize.min, self.opsize.max);
        let offset = draw_u32(&mut self.rng);
        let length = if op == Op::Truncate {
            draw_u32(&mut self.rng)
        } else {
            0
        };
        let d = Draws { size, offset, length };
        assert(old(self).can_draw(d));
        self.advance(op, d)
    }
}

/// Brings a drawn offset below `limit` and aligns it.
fn clamp_position(limit: u64, align: usize, drawn: u32) -> (offset: u64)
    requires
        align > 0,
    ensures
        offset == clamp_offset(limit as nat, align as nat, drawn as nat),
        offset <= limit,
        limit > 0 ==> offset < limit,
{
    if limit > 0 {
        let within = drawn as u64 % limit;
        proof {
            lemma_mod_decreases(within as nat, align as nat);
        }
        within - within % (align as u64)
    } else {
        0
    }
}

/// Cuts a drawn size so that it ends within `limit`, and aligns it.
fn clamp_length(limit: u64, align: usize, offset: u64, drawn: usize) -> (size: usize)
    requires
        align > 0,
        offset <= limit,
    ensures
        size == clamp_size(limit as nat, align as nat, offset as nat, drawn as nat),
        offset + size <= limit,
{
    let room = limit - offset;
    let cut = if drawn as u64 > room {
        room as usize
    } else {
        drawn
    };
    proof {
        lemma_mod_decreases(cut as nat, align as nat);
    }
    cut - cut % align
}

/// The model before the first step: the expected content is all zero, and
/// the file is empty, or in block mode as long as the device.
pub open spec fn initial_model(conf: Config, device_len: u64) -> Model {
    Model {
        good: Seq::new(run_flen(conf, device_len), |i: int| 0u8),
        file_size: if conf.blockmode {
            device_len as nat
        } else {
            0
        },
        steps: 0,
        log: Seq::empty(),
    }
}

/// Whether `cx` is what a run with these values starts with. The original
/// content is what the generator yields, as long as the maximum file length.
pub open spec fn started_with(
    cx: Context,
    params: RunParams,
    conf: Config,
    device_len: u64,
) -> bool {
    &&& cx.setup.flen == run_flen(conf, device_len)
    &&& cx.setup.align == conf.opsize.align_spec()
    &&& cx.setup.blockmode == conf.blockmode
    &&& cx.setup.original.len() == cx.setup.flen
    &&& cx.setup.start == params.opnum - 1
    &&& cx.setup.inject == match params.inject {
        Some(n) => Some(n as nat),
        None => None,
    }
    &&& cx.widths == run_widths(params, conf, device_len)
    &&& cx.monitor == params.monitor
    &&& cx.sync == !conf.nomsyncafterwrite
    &&& cx.size_checks == !conf.nosizechecks
}

impl Exerciser {
    /// An exerciser at the start of a run, or the reason for which the run
    /// cannot start. `device_len` is the length of the device in block mode
    /// and not looked at otherwise.
    pub fn new(
        params: RunParams,
        conf: &Config,
        has_artifacts_dir: bool,
        device_len: u64,
        page_size: usize,
    ) -> (r: Result<Exerciser, ConfigError>)
        requires
            conf.blockmode ==> device_len <= usize::MAX,
        ensures
            match r {
                Ok(ex) => {
                    &&& refusal(params, *conf, has_artifacts_dir, device_len, page_size) is None
                    &&& ex.wf()
                    &&& ex.model() == initial_model(*conf, device_len)
                    &&& started_with(ex.context(), params, *conf, device_len)
                    &&& ex.size_range() == (conf.opsize.min, conf.opsize.max)
                    &&& ex.budget() == params.numops
                    &&& ex.page_size_spec() == page_size
                    &&& ex.enabled_spec() == conf.enabled
                },
                Err(e) => refusal(params, *conf, has_artifacts_dir, device_len, page_size) == Some(
                    e,
                ),
            },
    {
        match conf.validate(has_artifacts_dir) {
            Err(e) => {
                return Err(e);
            },
            Ok(()) => {},
        }
        if params.opnum == 0 {
            return Err(ConfigError::ZeroOpnum);
        }
        if page_size == 0 {
            return Err(ConfigError::ZeroPageSize);
        }
        let flen: u64 = if conf.blockmode {
            device_len
        } else {
            conf.flen as u64
        };
        if flen == 0 {
            return Err(ConfigError::ZeroLength);
        }
        let file_size = if conf.blockmode {
            flen
        } else {
            0
        };
        let mut original_buf = vec![0u8; flen as usize];
        let good_buf = vec![0u8; flen as usize];
        let mut rng = seeded(params.seed);
        fill_bytes(&mut rng, &mut original_buf);
        let fwidth = field_width(flen as usize, true);
        let swidth = field_width(conf.opsize.max, true);
        let stepwidth = match params.numops {
            Some(n) => dec_len_of(n),
            None => dec_len_of(999999),
        };
        let ex = Exerciser {
            align: conf.opsize.alignment(),
            blockmode: conf.blockmode,
            file_size,
            flen,
            fwidth,
            inject: params.inject,
            good_buf,
            monitor: params.monitor,
            nomsyncafterwrite: conf.nomsyncafterwrite,
            nosizechecks: conf.nosizechecks,
            numops: params.numops,
            oplog: History::new(),
            opsize: conf.opsize,
            simulatedopcount: params.opnum - 1,
            swidth,
            stepwidth,
            original_buf,
            rng,
            steps: 0,
            page_size,
            enabled: conf.enabled,
        };
        assert(ex.good_buf@ =~= initial_model(*conf, device_len).good);
        Ok(ex)
    }

    /// Whether one more step can be counted and recorded.
    pub fn can_step(&self) -> (b: bool)
        ensures
            b == self.can_step_spec(),
    {
        self.steps < u64::MAX && self.steps < usize::MAX as u64
    }

    /// The kind that a selector's draw stands for: none where the draw is
    /// not the position of a kind, or is that of a kind that the selector
    /// cannot draw.
    pub fn select(&self, index: usize) -> (r: Option<Op>)
        requires
            self.wf(),
        ensures
            r == match Op::at(index as nat) {
                Some(op) => if self.enabled_spec().has(op) {
                    Some(op)
                } else {
                    None
                },
                None => None,
            },
            r matches Some(op) ==> self.permits_spec(op),
    {
        match Op::from_index(index) {
            Some(op) => {
                if self.enabled.contains(op) {
                    Some(op)
                } else {
                    None
                }
            },
            None => None,
        }
    }

    /// Whether nothing forbids a step of kind `op`.
    pub fn permits(&self, op: Op) -> (b: bool)
        ensures
            b == self.permits_spec(op),
    {
        !(self.blockmode && op == Op::Truncate)
    }

    /// Whether the run is over: its budget of steps is spent, or no further
    /// step can be counted.
    pub fn finished(&self) -> (b: bool)
        ensures
            b == (!self.can_step_spec() || match self.budget() {
                Some(n) => n <= self.model().steps,
                None => false,
            }),
    {
        if !self.can_step() {
            return true;
        }
        match self.numops {
            Some(n) => n <= self.steps,
            None => false,
        }
    }

    /// The file's catching up with the model, where it is due before the
    /// next step: when as many steps were simulated as the run was told to
    /// simulate, and that was at least one.
    pub fn writefileimage(&self) -> (r: Option<CatchUp>)
        requires
            self.wf(),
        ensures
            r == if self.context().setup.start > 0 && self.model().steps
                == self.context().setup.start {
                Some(
                    CatchUp {
                        len: self.model().file_size as usize,
                        set_len: !self.context().setup.blockmode,
                    },
                )
            } else {
                None
            },
    {
        if self.simulatedopcount > 0 && self.steps == self.simulatedopcount {
            Some(CatchUp { len: self.file_size as usize, set_len: !self.blockmode })
        } else {
            None
        }
    }

    /// The generator, for the selector to draw the kind of the next step:
    /// what is handed out is the exerciser's own generator, and the
    /// exerciser goes on with it as the caller leaves it.
    pub fn rng_mut(&mut self) -> (rng: &mut XorShiftRng)
        ensures
            *rng == old(self).generator(),
            final(self).generator() == *final(rng),
            final(self).wf() == old(self).wf(),
            final(self).same_run(*old(self)),
            final(self).model() == old(self).model(),
    {
        &mut self.rng
    }

    /// The expected content, as long as the maximum file length.
    pub fn expected(&self) -> (good: &Vec<u8>)
        ensures
            good@ == self.model().good,
            self.wf() ==> good@.len() == self.context().setup.flen,
    {
        &self.good_buf
    }

    /// The expected size of the file.
    pub fn file_size(&self) -> (size: u64)
        ensures
            size == self.model().file_size,
            self.wf() ==> size <= self.context().setup.flen,
    {
        self.file_size
    }

    /// The maximum file length.
    pub fn flen(&self) -> (flen: u64)
        ensures
            flen == self.context().setup.flen,
            self.wf() ==> 0 < flen <= usize::MAX,
    {
        self.flen
    }

    /// Number of steps taken so far.
    pub fn steps(&self) -> (steps: u64)
        ensures
            steps == self.model().steps,
    {
        self.steps
    }

    /// The size of a page of memory.
    pub fn getpagesize(&self) -> (size: usize)
        ensures
            size == self.page_size_spec(),
    {
        self.page_size
    }
}

/// The part of a file that a mapped operation maps: whole pages from
/// `file_offset` on, `len` bytes of which are asked for; the operation's
/// range starts `skew` bytes into the mapping. Where the mapping reaches the
/// page that holds the end of the file, `eof_page` is where that page starts
/// in the mapping.
#[derive(Clone, Copy, Debug, PartialEq, Eq, Structural)]
pub struct MapWindow {
    pub file_offset: u64,
    pub skew: usize,
    pub len: usize,
    pub eof_page: Option<usize>,
}

/// The window of a mapped operation on `size` bytes at `offset` of a file of
/// `file_size` bytes: the mapping starts at the page boundary at or before
/// `offset`.
pub open spec fn map_window_spec(page_size: nat, file_size: nat, offset: nat, size: nat)
    -> MapWindow {
    let skew = offset % page_size;
    let last_page = round_down(file_size, page_size);
    MapWindow {
        file_offset: (offset - skew) as u64,
        skew: skew as usize,
        len: (skew + size) as usize,
        eof_page: if offset + size > last_page {
            Some((last_page - (offset - skew)) as usize)
        } else {
            None
        },
    }
}

/// Rounding down keeps the order.
pub proof fn lemma_round_down_ordered(a: nat, b: nat, p: nat)
    requires
        a <= b,
        p > 0,
    ensures
        round_down(a, p) <= round_down(b, p),
        round_down(a, p) <= a,
        round_down(a, p) % p == 0,
{
    lemma_fundamental_div_mod(a as int, p as int);
    lemma_fundamental_div_mod(b as int, p as int);
    lemma_div_is_ordered(a as int, b as int, p as int);
    lemma_mul_inequality(a as int / p as int, b as int / p as int, p as int);
    lemma_mul_is_commutative(a as int / p as int, p as int);
    lemma_mul_is_commutative(b as int / p as int, p as int);
    lemma_mod_decreases(a, p);
    lemma_mod_multiples_basic(a as int / p as int, p as int);
}

/// The lines of the history dump: a heading, then one line for each step
/// that the history still holds, oldest first, each with the step's number.
pub open spec fn dump_spec(cx: Context, m: Model) -> Seq<Seq<char>> {
    let kept = keep_last(m.log, HISTORY_CAPACITY as nat);
    seq!["LOG DUMP"@] + Seq::new(
        kept.len(),
        |k: int| dump_text(cx.widths, (m.steps - kept.len() + 1 + k) as nat, kept[k]),
    )
}

impl Exerciser {
    /// Compares what a read found at `offset` with the expected content.
    pub fn check_buffers(&self, buf: &[u8], offset: u64) -> (r: Option<Miscompare>)
        requires
            self.wf(),
            offset + buf@.len() <= self.context().setup.flen,
        ensures
            r == miscompare(
                self.model().good.subrange(offset as int, offset + buf@.len()),
                buf@,
                offset,
            ),
            r is None <==> self.model().good.subrange(offset as int, offset + buf@.len())
                == buf@,
    {
        compare(&self.good_buf, buf, offset)
    }

    /// The lines that report a miscompare, in the widths of this run.
    pub fn report(&self, m: &Miscompare) -> (lines: Vec<String>)
        ensures
            lines@.len() == 4,
            forall|i: int|
                0 <= i < 4 ==> (#[trigger] lines@[i])@ == miscompare_text(
                    self.context().widths,
                    *m,
                )[i],
    {
        m.report(self.widths())
    }

    /// Checks the size of the file as its metadata gives it and as seeking
    /// to its end gives it.
    pub fn check_size(&self, by_stat: u64, by_seek: u64) -> (r: Option<SizeError>)
        ensures
            r == size_error(
                self.context().size_checks,
                self.model().file_size as u64,
                by_stat,
                by_seek,
            ),
            r is None <==> (!self.context().size_checks || (by_stat == self.model().file_size
                && by_seek == self.model().file_size)),
    {
        if !self.nosizechecks && (by_stat != self.file_size || by_seek != self.file_size) {
            Some(SizeError { expected: self.file_size, by_stat, by_seek })
        } else {
            None
        }
    }

    /// The window that a mapped operation on `size` bytes at `offset` maps.
    pub fn map_window(&self, offset: u64, size: usize) -> (w: MapWindow)
        requires
            self.wf(),
            offset + size <= self.model().file_size,
        ensures
            w == map_window_spec(
                self.page_size_spec(),
                self.model().file_size,
                offset as nat,
                size as nat,
            ),
            w.file_offset + w.skew == offset,
            w.file_offset % (self.page_size_spec() as u64) == 0,
            w.eof_page matches Some(at) ==> w.file_offset + at == round_down(
                self.model().file_size,
                self.page_size_spec(),
            ),
    {
        let page = self.page_size as u64;
        proof {
            lemma_round_down_ordered(offset as nat, self.file_size as nat, page as nat);
            lemma_mod_decreases(offset as nat, page as nat);
            lemma_mod_decreases(self.file_size as nat, page as nat);
        }
        let skew = offset % page;
        let file_offset = offset - skew;
        let last_page = self.file_size - self.file_size % page;
        MapWindow {
            file_offset,
            skew: skew as usize,
            len: skew as usize + size,
            eof_page: if offset + size as u64 > last_page {
                Some((last_page - file_offset) as usize)
            } else {
                None
            },
        }
    }

    /// Checks that the mapped page which holds the end of the file is zero
    /// beyond it.
    pub fn check_eofpage(&self, page: &[u8]) -> (r: Option<EofPageError>)
        requires
            self.wf(),
            page@.len() == self.page_size_spec(),
        ensures
            r == eof_page_error(page@, self.model().file_size as u64),
            r is None <==> forall|j: int|
                self.model().file_size % self.page_size_spec() <= j < page@.len() ==> page@[j]
                    == 0,
    {
        check_page(page, self.file_size)
    }

    /// Dump the contents of the history.
    pub fn dump_logfile(&self) -> (lines: Vec<String>)
        requires
            self.wf(),
        ensures
            lines@.len() == dump_spec(self.context(), self.model()).len(),
            forall|i: int|
                0 <= i < lines@.len() ==> (#[trigger] lines@[i])@ == dump_spec(
                    self.context(),
                    self.model(),
                )[i],
    {
        let entries = self.oplog.entries();
        let count = entries.len();
        let held = self.oplog.len();
        let first = self.steps - count as u64 + 1;
        let w = self.widths();
        let ghost spec_lines = dump_spec(self.context(), self.model());
        let mut lines: Vec<String> = Vec::new();
        lines.push("LOG DUMP".to_owned());
        let mut k: usize = 0;
        while k < count
            invariant
                k <= count,
                count == entries@.len(),
                entries@ == keep_last(self.oplog.all(), HISTORY_CAPACITY as nat),
                count <= self.steps,
                first == self.steps - count + 1,
                w == self.context().widths,
                self.inv(),
                spec_lines == dump_spec(self.context(), self.model()),
                lines@.len() == k + 1,
                forall|i: int| 0 <= i < lines@.len() ==> (#[trigger] lines@[i])@ == spec_lines[i],
            decreases count - k,
        {
            let entry = entries[k];
            assert(showable(entry)) by {
                let all = self.oplog.all();
                let shift = all.len() - entries@.len();
                assert(entries@[k as int] == all[shift + k]);
            }
            lines.push(dump_line(w, first + k as u64, entry));
            k = k + 1;
        }
        lines
    }
}

} // verus!
