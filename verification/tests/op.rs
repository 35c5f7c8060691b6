// The kinds of operation, their order and their names.

use fsx::op::{Op, OP_COUNT};

const ALL: [Op; 12] = [
    Op::CloseOpen,
    Op::Read,
    Op::Write,
    Op::MapRead,
    Op::Truncate,
    Op::Invalidate,
    Op::MapWrite,
    Op::Fsync,
    Op::Fdatasync,
    Op::PosixFallocate,
    Op::PunchHole,
    Op::Sendfile,
];

#[test]
fn kinds_in_the_order_of_the_weights() {
    assert_eq!(OP_COUNT, 12);
    for (at, op) in ALL.iter().enumerate() {
        assert_eq!(Op::from_index(at), Some(*op));
        assert_eq!(op.index(), at);
    }
}

#[test]
fn no_kind_beyond_the_last() {
    assert_eq!(Op::from_index(12), None);
    assert_eq!(Op::from_index(13), None);
    assert_eq!(Op::from_index(usize::MAX), None);
}

#[test]
fn names() {
    let names = [
        "close/open",
        "read",
        "write",
        "mapread",
        "truncate",
        "invalidate",
        "mapwrite",
        "fsync",
        "fdatasync",
        "posix_fallocate",
        "punch_hole",
        "sendfile",
    ];
    for (op, name) in ALL.iter().zip(names) {
        assert_eq!(op.name(), name);
    }
}
