// What holds of every run, tried on runs.

use fsx::config::{Config, Enabled, Opsize};
use fsx::exerciser::{Exerciser, RunParams};
use fsx::model::Draws;
use fsx::op::{LogEntry, Op};
use fsx::plan::Action;
use rand::distributions::{Distribution, WeightedIndex};

fn params(seed: u64) -> RunParams {
    RunParams { opnum: 1, monitor: None, numops: Some(300), seed, inject: None }
}

fn all_kinds() -> Enabled {
    Enabled {
        close_open: true,
        read: true,
        write: true,
        mapread: true,
        truncate: true,
        invalidate: true,
        mapwrite: true,
        fsync: true,
        fdatasync: true,
        posix_fallocate: true,
        punch_hole: true,
        sendfile: true,
    }
}

fn conf() -> Config {
    Config {
        opsize: Opsize { min: 0, max: 65536, align: Some(4) },
        enabled: all_kinds(),
        ..Config::default()
    }
}

/// Runs to the end of the budget; returns what each step recorded and asked
/// for.
fn run(ex: &mut Exerciser) -> (Vec<LogEntry>, Vec<Action>) {
    let weights = [1.0f64; 12];
    let wi = WeightedIndex::new(weights).unwrap();
    let mut entries = Vec::new();
    let mut actions = Vec::new();
    while !ex.finished() {
        let index = wi.sample(ex.rng_mut());
        let op = ex.select(index).unwrap();
        let step = ex.step(op);
        entries.push(step.entry);
        actions.push(step.action);
    }
    (entries, actions)
}

#[test]
fn the_same_seed_gives_the_same_run() {
    let mut first = Exerciser::new(params(42), &conf(), false, 0, 4096).unwrap();
    let mut second = Exerciser::new(params(42), &conf(), false, 0, 4096).unwrap();
    let (entries1, actions1) = run(&mut first);
    let (entries2, actions2) = run(&mut second);
    assert_eq!(entries1.len(), 300);
    assert_eq!(entries1, entries2);
    assert_eq!(actions1, actions2);
    assert_eq!(first.expected(), second.expected());
    assert_eq!(first.file_size(), second.file_size());
    assert_eq!(first.dump_logfile(), second.dump_logfile());
    let mut other = Exerciser::new(params(43), &conf(), false, 0, 4096).unwrap();
    let (entries3, _) = run(&mut other);
    assert_ne!(entries1, entries3);
    assert_ne!(first.expected(), other.expected());
}

#[test]
fn the_same_draws_give_the_same_model() {
    let plan = [
        (Op::Write, Draws { size: 3000, offset: 70000, length: 0 }),
        (Op::Truncate, Draws { size: 0, offset: 0, length: 250000 }),
        (Op::MapWrite, Draws { size: 65536, offset: 249000, length: 0 }),
        (Op::PunchHole, Draws { size: 1000, offset: 70500, length: 0 }),
        (Op::PosixFallocate, Draws { size: 500, offset: 260000, length: 0 }),
        (Op::Read, Draws { size: 500, offset: 260000, length: 0 }),
    ];
    let mut first = Exerciser::new(params(7), &conf(), false, 0, 4096).unwrap();
    let mut second = Exerciser::new(params(7), &conf(), false, 0, 4096).unwrap();
    for (op, d) in plan {
        let a = first.advance(op, d);
        let b = second.advance(op, d);
        assert_eq!((a.entry, a.action, a.check_size), (b.entry, b.action, b.check_size));
        assert_eq!(a.line.map(|l| (l.level, l.text)), b.line.map(|l| (l.level, l.text)));
        assert_eq!(first.expected(), second.expected());
        assert_eq!(first.file_size(), second.file_size());
    }
}

#[test]
fn a_replayed_run_reaches_the_same_model() {
    for start in [1u64, 2, 50, 299, 300, 301, 1000] {
        let mut plain = Exerciser::new(params(11), &conf(), false, 0, 4096).unwrap();
        let replayed = RunParams { opnum: start, inject: Some(start + 3), ..params(11) };
        let mut fast = Exerciser::new(replayed, &conf(), false, 0, 4096).unwrap();
        let (entries, actions) = run(&mut plain);
        let (replayed_entries, replayed_actions) = run(&mut fast);
        assert_eq!(entries, replayed_entries);
        assert_eq!(plain.expected(), fast.expected());
        assert_eq!(plain.file_size(), fast.file_size());
        for (at, action) in replayed_actions.iter().enumerate() {
            let step = at as u64 + 1;
            if step < start || step == start + 3 {
                assert_eq!(*action, Action::Nothing);
            } else {
                assert_eq!(*action, actions[at]);
            }
        }
    }
}

#[test]
fn the_file_catches_up_when_the_run_starts() {
    let replayed = RunParams { opnum: 100, ..params(11) };
    let mut ex = Exerciser::new(replayed, &conf(), false, 0, 4096).unwrap();
    let wi = WeightedIndex::new([1.0f64; 12]).unwrap();
    let mut due = Vec::new();
    while !ex.finished() {
        let index = wi.sample(ex.rng_mut());
        let op = ex.select(index).unwrap();
        if let Some(catch_up) = ex.writefileimage() {
            assert_eq!(catch_up.len as u64, ex.file_size());
            assert!(catch_up.set_len);
            due.push(ex.steps());
        }
        ex.step(op);
    }
    assert_eq!(due, vec![99]);
}

#[test]
fn the_model_stays_within_the_maximum_length() {
    let mut ex = Exerciser::new(params(3), &conf(), false, 0, 4096).unwrap();
    let wi = WeightedIndex::new([1.0f64; 12]).unwrap();
    let mut counted = 0;
    while !ex.finished() {
        let index = wi.sample(ex.rng_mut());
        let op = ex.select(index).unwrap();
        let before = (ex.file_size(), ex.expected().clone());
        let step = ex.step(op);
        counted += 1;
        assert_eq!(ex.steps(), counted);
        assert!(ex.file_size() <= ex.flen());
        assert_eq!(ex.expected().len() as u64, ex.flen());
        let resizes = matches!(op, Op::Write | Op::MapWrite | Op::Truncate | Op::PosixFallocate);
        if !resizes {
            assert_eq!(ex.file_size(), before.0);
        }
        if !resizes && op != Op::PunchHole {
            assert_eq!(*ex.expected(), before.1);
        }
        if matches!(op, Op::Write | Op::MapWrite | Op::PosixFallocate) {
            assert!(ex.file_size() >= before.0);
        }
        if let LogEntry::Skip(kind) = step.entry {
            assert_eq!(kind, op);
            assert_eq!(step.action, Action::Nothing);
            assert_eq!(ex.file_size(), before.0);
            assert_eq!(*ex.expected(), before.1);
        }
        match step.entry {
            LogEntry::Read(offset, size)
            | LogEntry::MapRead(offset, size)
            | LogEntry::Sendfile(offset, size) => {
                assert!(size > 0 && offset + size as u64 <= ex.file_size());
                assert!(offset % 4 == 0 && size % 4 == 0);
            }
            LogEntry::Write(_, offset, size) | LogEntry::MapWrite(_, offset, size) => {
                assert!(size > 0 && offset + size as u64 <= ex.file_size());
                assert!(offset % 4 == 0 && size % 4 == 0);
            }
            LogEntry::PunchHole(offset, len) => {
                assert!(len > 0 && offset + len <= ex.file_size());
                let hole = &ex.expected()[offset as usize..(offset + len) as usize];
                assert!(hole.iter().all(|b| *b == 0));
            }
            LogEntry::PosixFallocate(offset, len) => {
                assert!(len > 0 && offset + len <= ex.file_size());
                assert!(len % 4 == 0);
            }
            LogEntry::Truncate(old, new) => {
                assert_eq!(old, before.0);
                assert_eq!(new, ex.file_size());
            }
            _ => {}
        }
    }
    assert_eq!(counted, 300);
}

#[test]
fn block_mode_keeps_the_size() {
    let blockmode = Config {
        blockmode: true,
        enabled: Enabled {
            truncate: false,
            close_open: false,
            posix_fallocate: false,
            ..all_kinds()
        },
        ..Config::default()
    };
    let mut ex = Exerciser::new(params(3), &blockmode, true, 100000, 4096).unwrap();
    let weights = [0.0, 1.0, 1.0, 1.0, 0.0, 1.0, 1.0, 1.0, 1.0, 0.0, 1.0, 1.0f64];
    let wi = WeightedIndex::new(weights).unwrap();
    while !ex.finished() {
        let index = wi.sample(ex.rng_mut());
        let op = ex.select(index).unwrap();
        assert!(ex.permits(op));
        let step = ex.step(op);
        assert_eq!(ex.file_size(), 100000);
        if let Action::MapWrite { extend_to, .. } = step.action {
            assert_eq!(extend_to, None);
        }
    }
    assert_eq!(ex.steps(), 300);
}

#[test]
fn a_kind_without_weight_is_never_drawn() {
    let weights = [0.0, 3.0, 0.0, 0.5, 0.0, 0.0, 1e-9, 0.0, 0.0, 0.0, 1e9, 0.0f64];
    let enabled = Enabled {
        close_open: false,
        read: true,
        write: false,
        mapread: true,
        truncate: false,
        invalidate: false,
        mapwrite: true,
        fsync: false,
        fdatasync: false,
        posix_fallocate: false,
        punch_hole: true,
        sendfile: false,
    };
    let conf = Config { enabled, ..Config::default() };
    let p = RunParams { numops: Some(20000), ..params(8) };
    let mut ex = Exerciser::new(p, &conf, false, 0, 4096).unwrap();
    let wi = WeightedIndex::new(weights).unwrap();
    let mut drawn = [0usize; 12];
    while !ex.finished() {
        let index = wi.sample(ex.rng_mut());
        drawn[index] += 1;
        let op = ex.select(index).unwrap();
        assert!(enabled.contains(op));
        ex.step(op);
    }
    for (at, weight) in weights.iter().enumerate() {
        if *weight == 0.0 {
            assert_eq!(drawn[at], 0);
            assert_eq!(ex.select(at), None);
        }
    }
    assert_eq!(drawn.iter().sum::<usize>(), 20000);
}
