//! The text of progress lines and of the history dump.

use crate::format::dec_field;
use crate::format::hex_field;
use crate::format::pad_right;
use crate::format::push_dec_field;
use crate::format::push_hex_field;
use crate::format::push_text_field;
use crate::op::LogEntry;
use vstd::prelude::*;

verus! {

/// How prominently a progress line is shown.
#[derive(Clone, Copy, Debug, PartialEq, Eq, Structural)]
pub enum Level {
    Debug,
    Info,
    Warn,
}

/// One progress line.
#[derive(Debug)]
pub struct Line {
    pub level: Level,
    pub text: String,
}

impl View for Line {
    type V = (Level, Seq<char>);

    open spec fn view(&self) -> (Level, Seq<char>) {
        (self.level, self.text@)
    }
}

/// Column widths of the numbers in a line.
#[derive(Clone, Copy, Debug, PartialEq, Eq, Structural)]
pub struct Widths {
    /// Width of a step number.
    pub step: usize,
    /// Width of a file offset.
    pub offset: usize,
    /// Width of an operation size.
    pub size: usize,
}

/// A step number followed by a fixed text.
pub open spec fn plain_text(w: Widths, step: nat, text: Seq<char>) -> Seq<char> {
    dec_field(step, w.step as nat) + " "@ + text
}

/// A step number, a name in a column of `name_width`, the first and the last
/// offset of a range and its size.
pub open spec fn range_text(
    w: Widths,
    step: nat,
    name: Seq<char>,
    name_width: nat,
    first: nat,
    last: nat,
    size: nat,
) -> Seq<char> {
    dec_field(step, w.step as nat) + " "@ + pad_right(name, name_width) + " "@ + hex_field(
        first,
        w.offset as nat,
    ) + " .. "@ + hex_field(last, w.offset as nat) + " ("@ + hex_field(size, w.size as nat)
        + " bytes)"@
}

/// A step number and the sizes of the file before and after a truncate.
pub open spec fn truncate_text(w: Widths, step: nat, before: nat, after: nat) -> Seq<char> {
    dec_field(step, w.step as nat) + " truncate "@ + hex_field(before, w.offset as nat) + " => "@
        + hex_field(after, w.offset as nat)
}

/// What the history dump says of a range: a label, where the range starts,
/// the offset shown as its end, its size and a remark.
pub open spec fn dump_range_text(
    w: Widths,
    step: nat,
    label: Seq<char>,
    first: nat,
    end: nat,
    size: nat,
    remark: Seq<char>,
) -> Seq<char> {
    dec_field(step, w.step as nat) + label + hex_field(first, w.offset as nat) + " => "@
        + hex_field(end, w.offset as nat) + " ("@ + hex_field(size, w.size as nat) + " bytes)"@
        + remark
}

/// The remark on a write in the history dump: whether it left a hole before
/// it, or extended the file, given the file's size before it.
pub open spec fn write_remark(before: nat, offset: nat, size: nat) -> Seq<char> {
    if offset > before {
        " HOLE"@
    } else if offset + size > before {
        " EXTEND"@
    } else {
        ""@
    }
}

/// Whether the numbers of an entry can be shown: the end of its range is
/// a 64-bit number, and an allocated or punched range is not empty.
pub open spec fn showable(entry: LogEntry) -> bool {
    match entry {
        LogEntry::Read(offset, size) => offset + size <= u64::MAX,
        LogEntry::MapRead(offset, size) => offset + size <= u64::MAX,
        LogEntry::Sendfile(offset, size) => offset + size <= u64::MAX,
        LogEntry::Write(_, offset, size) => offset + size <= u64::MAX,
        LogEntry::MapWrite(_, offset, size) => offset + size <= u64::MAX,
        LogEntry::PosixFallocate(offset, len) => len > 0 && offset + len <= u64::MAX,
        LogEntry::PunchHole(offset, len) => len > 0 && offset + len <= u64::MAX,
        _ => true,
    }
}

/// The line of the history dump for the step numbered `step`.
pub open spec fn dump_text(w: Widths, step: nat, entry: LogEntry) -> Seq<char> {
    match entry {
        LogEntry::Skip(op) => dec_field(step, w.step as nat) + " SKIPPED  ("@ + op.name_spec()
            + ")"@,
        LogEntry::CloseOpen => plain_text(w, step, "CLOSE/OPEN"@),
        LogEntry::Read(offset, size) => dump_range_text(
            w,
            step,
            " READ     "@,
            offset as nat,
            (offset + size) as nat,
            size as nat,
            ""@,
        ),
        LogEntry::MapRead(offset, size) => dump_range_text(
            w,
            step,
            " MAPREAD  "@,
            offset as nat,
            (offset + size) as nat,
            size as nat,
            ""@,
        ),
        LogEntry::Write(before, offset, size) => dump_range_text(
            w,
            step,
            " WRITE    "@,
            offset as nat,
            (offset + size) as nat,
            size as nat,
            write_remark(before as nat, offset as nat, size as nat),
        ),
        LogEntry::MapWrite(before, offset, size) => dump_range_text(
            w,
            step,
            " MAPWRITE "@,
            offset as nat,
            (offset + size) as nat,
            size as nat,
            write_remark(before as nat, offset as nat, size as nat),
        ),
        LogEntry::Truncate(before, after) => dec_field(step, w.step as nat) + " TRUNCATE  "@
            + pad_right(
            if after > before {
                "UP"@
            } else {
                "DOWN"@
            },
            4,
        ) + " from "@ + hex_field(before as nat, w.offset as nat) + " to "@ + hex_field(
            after as nat,
            w.offset as nat,
        ),
        LogEntry::Invalidate => plain_text(w, step, "INVALIDATE"@),
        LogEntry::Fsync => plain_text(w, step, "FSYNC"@),
        LogEntry::Fdatasync => plain_text(w, step, "FDATASYNC"@),
        LogEntry::PosixFallocate(offset, len) => dump_range_text(
            w,
            step,
            " POSIX_FALLOCATE "@,
            offset as nat,
            (offset + len - 1) as nat,
            len as nat,
            ""@,
        ),
        LogEntry::PunchHole(offset, len) => dump_range_text(
            w,
            step,
            " PUNCH_HOLE "@,
            offset as nat,
            (offset + len - 1) as nat,
            len as nat,
            ""@,
        ),
        LogEntry::Sendfile(offset, size) => dump_range_text(
            w,
            step,
            " SENDFILE "@,
            offset as nat,
            (offset + size) as nat,
            size as nat,
            ""@,
        ),
    }
}

/// A step number followed by a fixed text.
pub fn plain_line(w: Widths, step: u64, text: &str) -> (s: String)
    ensures
        s@ == plain_text(w, step as nat, text@),
{
    let mut out = String::new();
    push_dec_field(&mut out, step, w.step);
    out.append(" ");
    out.append(text);
    assert(out@ =~= plain_text(w, step as nat, text@));
    out
}

/// A step number, a name, the first and the last offset of a range and its
/// size.
pub fn range_line(
    w: Widths,
    step: u64,
    name: &str,
    name_width: usize,
    first: u64,
    last: u64,
    size: u64,
) -> (s: String)
    ensures
        s@ == range_text(
            w,
            step as nat,
            name@,
            name_width as nat,
            first as nat,
            last as nat,
            size as nat,
        ),
{
    let mut out = String::new();
    push_dec_field(&mut out, step, w.step);
    out.append(" ");
    push_text_field(&mut out, name, name_width);
    out.append(" ");
    push_hex_field(&mut out, first, w.offset);
    out.append(" .. ");
    push_hex_field(&mut out, last, w.offset);
    out.append(" (");
    push_hex_field(&mut out, size, w.size);
    out.append(" bytes)");
    assert(out@ =~= range_text(
        w,
        step as nat,
        name@,
        name_width as nat,
        first as nat,
        last as nat,
        size as nat,
    ));
    out
}

/// A step number and the sizes of the file before and after a truncate.
pub fn truncate_line(w: Widths, step: u64, before: u64, after: u64) -> (s: String)
    ensures
        s@ == truncate_text(w, step as nat, before as nat, after as nat),
{
    let mut out = String::new();
    push_dec_field(&mut out, step, w.step);
    out.append(" truncate ");
    push_hex_field(&mut out, before, w.offset);
    out.append(" => ");
    push_hex_field(&mut out, after, w.offset);
    assert(out@ =~= truncate_text(w, step as nat, before as nat, after as nat));
    out
}

fn dump_range_line(
    w: Widths,
    step: u64,
    label: &str,
    first: u64,
    end: u64,
    size: u64,
    remark: &str,
) -> (s: String)
    ensures
        s@ == dump_range_text(
            w,
            step as nat,
            label@,
            first as nat,
            end as nat,
            size as nat,
            remark@,
        ),
{
    let mut out = String::new();
    push_dec_field(&mut out, step, w.step);
    out.append(label);
    push_hex_field(&mut out, first, w.offset);
    out.append(" => ");
    push_hex_field(&mut out, end, w.offset);
    out.append(" (");
    push_hex_field(&mut out, size, w.size);
    out.append(" bytes)");
    out.append(remark);
    assert(out@ =~= dump_range_text(
        w,
        step as nat,
        label@,
        first as nat,
        end as nat,
        size as nat,
        remark@,
    ));
    out
}

fn remark_of(before: u64, offset: u64, size: u64) -> (s: &'static str)
    requires
        offset + size <= u64::MAX,
    ensures
        s@ == write_remark(before as nat, offset as nat, size as nat),
{
    if offset > before {
        " HOLE"
    } else if offset + size > before {
        " EXTEND"
    } else {
        ""
    }
}

/// The line of the history dump for the step numbered `step`.
pub fn dump_line(w: Widths, step: u64, entry: LogEntry) -> (s: String)
    requires
        showable(entry),
    ensures
        s@ == dump_text(w, step as nat, entry),
{
    match entry {
        LogEntry::Skip(op) => {
            let mut out = String::new();
            push_dec_field(&mut out, step, w.step);
            out.append(" SKIPPED  (");
            out.append(op.name());
            out.append(")");
            assert(out@ =~= dump_text(w, step as nat, entry));
            out
        },
        LogEntry::CloseOpen => plain_line(w, step, "CLOSE/OPEN"),
        LogEntry::Read(offset, size) => dump_range_line(
            w,
            step,
            " READ     ",
            offset,
            offset + size as u64,
            size as u64,
            "",
        ),
        LogEntry::MapRead(offset, size) => dump_range_line(
            w,
            step,
            " MAPREAD  ",
            offset,
            offset + size as u64,
            size as u64,
            "",
        ),
        LogEntry::Write(before, offset, size) => dump_range_line(
            w,
            step,
            " WRITE    ",
            offset,
            offset + size as u64,
            size as u64,
            remark_of(before, offset, size as u64),
        ),
        LogEntry::MapWrite(before, offset, size) => dump_range_line(
            w,
            step,
            " MAPWRITE ",
            offset,
            offset + size as u64,
            size as u64,
            remark_of(before, offset, size as u64),
        ),
        LogEntry::Truncate(before, after) => {
            let mut out = String::new();
            push_dec_field(&mut out, step, w.step);
            out.append(" TRUNCATE  ");
            if after > before {
                push_text_field(&mut out, "UP", 4);
            } else {
                push_text_field(&mut out, "DOWN", 4);
            }
            out.append(" from ");
            push_hex_field(&mut out, before, w.offset);
            out.append(" to ");
            push_hex_field(&mut out, after, w.offset);
            assert(out@ =~= dump_text(w, step as nat, entry));
            out
        },
        LogEntry::Invalidate => plain_line(w, step, "INVALIDATE"),
        LogEntry::Fsync => plain_line(w, step, "FSYNC"),
        LogEntry::Fdatasync => plain_line(w, step, "FDATASYNC"),
        LogEntry::PosixFallocate(offset, len) => dump_range_line(
            w,
            step,
            " POSIX_FALLOCATE ",
            offset,
            offset + len - 1,
            len,
            "",
        ),
        LogEntry::PunchHole(offset, len) => dump_range_line(
            w,
            step,
            " PUNCH_HOLE ",
            offset,
            offset + len - 1,
            len,
            "",
        ),
        LogEntry::Sendfile(offset, size) => dump_range_line(
            w,
            step,
            " SENDFILE ",
            offset,
            offset + size as u64,
            size as u64,
            "",
        ),
    }
}

} // verus!
