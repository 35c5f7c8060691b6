//! Operation kinds and the records kept of each step.

use vstd::prelude::*;

verus! {

/// The twelve kinds of operation that a step can perform.
#[derive(Clone, Copy, Debug, PartialEq, Eq, Structural)]
pub enum Op {
    CloseOpen,
    Read,
    Write,
    MapRead,
    Truncate,
    Invalidate,
    MapWrite,
    Fsync,
    Fdatasync,
    PosixFallocate,
    PunchHole,
    Sendfile,
}

/// Number of operation kinds.
pub const OP_COUNT: usize = 12;

impl Op {
    /// Position of this kind in the order in which the selector's weights
    /// are listed.
    pub open spec fn index_spec(self) -> nat {
        match self {
            Op::CloseOpen => 0,
            Op::Read => 1,
            Op::Write => 2,
            Op::MapRead => 3,
            Op::Truncate => 4,
            Op::Invalidate => 5,
            Op::MapWrite => 6,
            Op::Fsync => 7,
            Op::Fdatasync => 8,
            Op::PosixFallocate => 9,
            Op::PunchHole => 10,
            Op::Sendfile => 11,
        }
    }

    /// The kind at a position in the order of the selector's weights.
    pub open spec fn at(index: nat) -> Option<Op> {
        if index == 0 {
            Some(Op::CloseOpen)
        } else if index == 1 {
            Some(Op::Read)
        } else if index == 2 {
            Some(Op::Write)
        } else if index == 3 {
            Some(Op::MapRead)
        } else if index == 4 {
            Some(Op::Truncate)
        } else if index == 5 {
            Some(Op::Invalidate)
        } else if index == 6 {
            Some(Op::MapWrite)
        } else if index == 7 {
            Some(Op::Fsync)
        } else if index == 8 {
            Some(Op::Fdatasync)
        } else if index == 9 {
            Some(Op::PosixFallocate)
        } else if index == 10 {
            Some(Op::PunchHole)
        } else if index == 11 {
            Some(Op::Sendfile)
        } else {
            None
        }
    }

    /// The name under which this kind appears in progress lines.
    pub open spec fn name_spec(self) -> Seq<char> {
        match self {
            Op::CloseOpen => "close/open"@,
            Op::Read => "read"@,
            Op::Write => "write"@,
            Op::MapRead => "mapread"@,
            Op::Truncate => "truncate"@,
            Op::Invalidate => "invalidate"@,
            Op::MapWrite => "mapwrite"@,
            Op::Fsync => "fsync"@,
            Op::Fdatasync => "fdatasync"@,
            Op::PosixFallocate => "posix_fallocate"@,
            Op::PunchHole => "punch_hole"@,
            Op::Sendfile => "sendfile"@,
        }
    }

    /// Whether this kind reads the file and compares what it read.
    pub open spec fn is_read_like(self) -> bool {
        self == Op::Read || self == Op::MapRead || self == Op::Sendfile
    }

    /// Whether this kind writes generated data to the file.
    pub open spec fn is_write_like(self) -> bool {
        self == Op::Write || self == Op::MapWrite
    }

    /// The kind that a selector's draw stands for: `None` where the draw is
    /// not the position of any kind.
    pub fn from_index(index: usize) -> (op: Option<Op>)
        ensures
            op == Op::at(index as nat),
            index < OP_COUNT <==> op is Some,
            op matches Some(o) ==> o.index_spec() == index,
    {
        match index {
            0 => Some(Op::CloseOpen),
            1 => Some(Op::Read),
            2 => Some(Op::Write),
            3 => Some(Op::MapRead),
            4 => Some(Op::Truncate),
            5 => Some(Op::Invalidate),
            6 => Some(Op::MapWrite),
            7 => Some(Op::Fsync),
            8 => Some(Op::Fdatasync),
            9 => Some(Op::PosixFallocate),
            10 => Some(Op::PunchHole),
            11 => Some(Op::Sendfile),
            _ => None,
        }
    }

    /// Position of this kind in the order of the selector's weights.
    pub fn index(self) -> (i: usize)
        ensures
            i == self.index_spec(),
            i < OP_COUNT,
    {
        match self {
            Op::CloseOpen => 0,
            Op::Read => 1,
            Op::Write => 2,
            Op::MapRead => 3,
            Op::Truncate => 4,
            Op::Invalidate => 5,
            Op::MapWrite => 6,
            Op::Fsync => 7,
            Op::Fdatasync => 8,
            Op::PosixFallocate => 9,
            Op::PunchHole => 10,
            Op::Sendfile => 11,
        }
    }

    /// The name under which this kind appears in progress lines.
    pub fn name(self) -> (s: &'static str)
        ensures
            s@ == self.name_spec(),
    {
        match self {
            Op::CloseOpen => "close/open",
            Op::Read => "read",
            Op::Write => "write",
            Op::MapRead => "mapread",
            Op::Truncate => "truncate",
            Op::Invalidate => "invalidate",
            Op::MapWrite => "mapwrite",
            Op::Fsync => "fsync",
            Op::Fdatasync => "fdatasync",
            Op::PosixFallocate => "posix_fallocate",
            Op::PunchHole => "punch_hole",
            Op::Sendfile => "sendfile",
        }
    }
}

/// What the history keeps of one step.
#[derive(Clone, Copy, Debug, PartialEq, Eq, Structural)]
pub enum LogEntry {
    /// The step drew this kind and did nothing, in the model or on the file.
    Skip(Op),
    CloseOpen,
    /// Offset and size.
    Read(u64, usize),
    /// File size before the step, offset and size.
    Write(u64, u64, usize),
    /// Offset and size.
    MapRead(u64, usize),
    /// File size before and after the step.
    Truncate(u64, u64),
    Invalidate,
    /// File size before the step, offset and size.
    MapWrite(u64, u64, usize),
    Fsync,
    Fdatasync,
    /// Offset and length.
    PosixFallocate(u64, u64),
    /// Offset and length.
    PunchHole(u64, u64),
    /// Offset and size.
    Sendfile(u64, usize),
}

} // verus!
