// Whole runs against a file kept in memory: the sequence of operations that
// a seed yields, and what the checks say of a file that follows the run.

use fsx::checks::{Miscompare, SizeError};
use fsx::config::{Config, ConfigError, Enabled, Opsize};
use fsx::exerciser::{Exerciser, RunParams};
use fsx::lines::Level;
use fsx::op::LogEntry;
use fsx::plan::Action;
use rand::distributions::{Distribution, WeightedIndex};

const PAGE: usize = 4096;

/// Positions of the kinds in the selector's order.
const CLOSE_OPEN: usize = 0;
const READ: usize = 1;
const WRITE: usize = 2;
const MAPREAD: usize = 3;
const TRUNCATE: usize = 4;
const INVALIDATE: usize = 5;
const MAPWRITE: usize = 6;
const FSYNC: usize = 7;
const FDATASYNC: usize = 8;
const POSIX_FALLOCATE: usize = 9;
const PUNCH_HOLE: usize = 10;
const SENDFILE: usize = 11;

/// The weights of a run that configures none.
fn usual_weights() -> [f64; 12] {
    let mut w = [0.0; 12];
    w[READ] = 10.0;
    w[WRITE] = 10.0;
    w[MAPREAD] = 10.0;
    w[TRUNCATE] = 10.0;
    w[MAPWRITE] = 10.0;
    w
}

fn with(mut weights: [f64; 12], changes: &[(usize, f64)]) -> [f64; 12] {
    for (at, weight) in changes {
        weights[*at] = *weight;
    }
    weights
}

fn enabled_of(weights: &[f64; 12]) -> Enabled {
    Enabled {
        close_open: weights[CLOSE_OPEN] > 0.0,
        read: weights[READ] > 0.0,
        write: weights[WRITE] > 0.0,
        mapread: weights[MAPREAD] > 0.0,
        truncate: weights[TRUNCATE] > 0.0,
        invalidate: weights[INVALIDATE] > 0.0,
        mapwrite: weights[MAPWRITE] > 0.0,
        fsync: weights[FSYNC] > 0.0,
        fdatasync: weights[FDATASYNC] > 0.0,
        posix_fallocate: weights[POSIX_FALLOCATE] > 0.0,
        punch_hole: weights[PUNCH_HOLE] > 0.0,
        sendfile: weights[SENDFILE] > 0.0,
    }
}

fn level_name(level: Level) -> &'static str {
    match level {
        Level::Debug => "DEBUG",
        Level::Info => "INFO ",
        Level::Warn => "WARN ",
    }
}

/// What a run left behind.
struct Outcome {
    /// The lines shown, each with its level.
    lines: Vec<String>,
    /// The first miscompare, where the run met one.
    miscompare: Option<Miscompare>,
    /// The first wrong size, where the run met one.
    size_error: Option<SizeError>,
    /// The exerciser as the run left it.
    ex: Exerciser,
    /// The file as the run left it.
    file: Vec<u8>,
    /// What the history recorded of each step.
    entries: Vec<LogEntry>,
    /// What each step asked for.
    actions: Vec<Action>,
}

/// Reads `size` bytes at `offset` of the file through a mapping, and checks
/// the page that holds the end of the file where the mapping reaches it.
fn mapped(ex: &Exerciser, file: &[u8], offset: u64, size: usize) -> Vec<u8> {
    let window = ex.map_window(offset, size);
    assert_eq!(window.file_offset % PAGE as u64, 0);
    assert_eq!(window.file_offset + window.skew as u64, offset);
    assert_eq!(window.len, window.skew + size);
    if let Some(at) = window.eof_page {
        let start = window.file_offset as usize + at;
        assert_eq!(start, file.len() - file.len() % PAGE);
        let mut page = vec![0u8; PAGE];
        page[..file.len() - start].copy_from_slice(&file[start..]);
        assert_eq!(ex.check_eofpage(&page), None);
    } else {
        assert!(offset as usize + size <= file.len() - file.len() % PAGE);
    }
    let from = window.file_offset as usize + window.skew;
    file[from..from + size].to_vec()
}

/// Runs until the budget is spent or a read miscompares, performing on a
/// file in memory what each step asks for.
fn run(
    conf: Config,
    weights: [f64; 12],
    params: RunParams,
    device_len: u64,
    has_artifacts_dir: bool,
) -> Outcome {
    let conf = Config { enabled: enabled_of(&weights), ..conf };
    let wi = WeightedIndex::new(weights.iter().copied()).unwrap();
    let mut ex = Exerciser::new(params, &conf, has_artifacts_dir, device_len, PAGE).unwrap();
    let mut file = if conf.blockmode { vec![0u8; device_len as usize] } else { Vec::new() };
    let mut lines = Vec::new();
    let mut entries = Vec::new();
    let mut actions = Vec::new();
    let mut miscompare = None;
    let mut size_error = None;
    while !ex.finished() && miscompare.is_none() && size_error.is_none() {
        let index = wi.sample(ex.rng_mut());
        let op = ex.select(index).unwrap();
        assert!(ex.permits(op));
        if let Some(catch_up) = ex.writefileimage() {
            if file.len() < catch_up.len {
                file.resize(catch_up.len, 0);
            }
            file[..catch_up.len].copy_from_slice(&ex.expected()[..catch_up.len]);
            if catch_up.set_len {
                file.resize(catch_up.len, 0);
            }
        }
        let step = ex.step(op);
        if let Some(line) = step.line {
            lines.push(format!("[{} fsx] {}", level_name(line.level), line.text));
        }
        entries.push(step.entry);
        actions.push(step.action);
        let mut found = None;
        match step.action {
            Action::Nothing
            | Action::CloseOpen
            | Action::Fsync
            | Action::Fdatasync => {}
            Action::Invalidate { size } => assert_eq!(size, file.len()),
            Action::Read { offset, size } | Action::Sendfile { offset, size } => {
                let from = offset as usize;
                found = Some((file[from..from + size].to_vec(), offset));
            }
            Action::MapRead { offset, size } => {
                found = Some((mapped(&ex, &file, offset, size), offset));
            }
            Action::Write { offset, size } => {
                let from = offset as usize;
                if file.len() < from + size {
                    file.resize(from + size, 0);
                }
                file[from..from + size].copy_from_slice(&ex.expected()[from..from + size]);
            }
            Action::MapWrite { offset, size, extend_to, sync: _ } => {
                if let Some(len) = extend_to {
                    assert!(len as usize > file.len());
                    file.resize(len as usize, 0);
                }
                let from = offset as usize;
                file[from..from + size].copy_from_slice(&ex.expected()[from..from + size]);
                mapped(&ex, &file, offset, size);
            }
            Action::Truncate { length } => file.resize(length as usize, 0),
            Action::PosixFallocate { offset, len } => {
                if file.len() < (offset + len) as usize {
                    file.resize((offset + len) as usize, 0);
                }
            }
            Action::PunchHole { offset, len } => {
                for byte in &mut file[offset as usize..(offset + len) as usize] {
                    *byte = 0;
                }
            }
        }
        if let Some((bytes, offset)) = found {
            miscompare = ex.check_buffers(&bytes, offset);
        }
        if step.check_size && miscompare.is_none() {
            size_error = ex.check_size(file.len() as u64, file.len() as u64);
        }
    }
    Outcome { lines, miscompare, size_error, ex, file, entries, actions }
}

fn params(seed: u64, numops: u64) -> RunParams {
    RunParams { opnum: 1, monitor: None, numops: Some(numops), seed, inject: None }
}

fn fixed_size(size: usize) -> Config {
    Config { opsize: Opsize { min: size, max: size, align: None }, ..Config::default() }
}

/// A run without a fault leaves a file that agrees with the expected
/// content up to the expected size.
fn assert_file_follows(outcome: &Outcome) {
    assert_eq!(outcome.miscompare, None);
    assert_eq!(outcome.size_error, None);
    assert_eq!(outcome.file.len() as u64, outcome.ex.file_size());
    assert_eq!(outcome.file[..], outcome.ex.expected()[..outcome.file.len()]);
}

#[test]
fn stability_sixtyfourk_ops() {
    let outcome = run(fixed_size(65536), usual_weights(), params(2, 10), 0, false);
    let expected = vec![
        "[INFO  fsx]  1 mapwrite 0x17dbf .. 0x27dbe (0x10000 bytes)",
        "[INFO  fsx]  2 read     0x216ce .. 0x27dbe ( 0x66f1 bytes)",
        "[INFO  fsx]  3 write    0x2309f .. 0x3309e (0x10000 bytes)",
        "[INFO  fsx]  4 read     0x1ba2b .. 0x2ba2a (0x10000 bytes)",
        "[INFO  fsx]  5 mapread   0xf8f5 .. 0x1f8f4 (0x10000 bytes)",
        "[INFO  fsx]  6 write    0x196ff .. 0x296fe (0x10000 bytes)",
        "[INFO  fsx]  7 mapread  0x32da7 .. 0x3309e (  0x2f8 bytes)",
        "[INFO  fsx]  8 truncate 0x3309f => 0x2eb10",
        "[INFO  fsx]  9 mapwrite 0x3c53a .. 0x3ffff ( 0x3ac6 bytes)",
        "[INFO  fsx] 10 mapwrite 0x119bb .. 0x219ba (0x10000 bytes)",
    ];
    assert_eq!(outcome.lines, expected);
    assert_file_follows(&outcome);
}

#[test]
fn stability_no_mmap() {
    let weights = with(
        usual_weights(),
        &[(MAPREAD, 0.0), (MAPWRITE, 0.0), (READ, 1.0), (WRITE, 1.0), (TRUNCATE, 1.0)],
    );
    let outcome = run(fixed_size(65536), weights, params(2, 10), 0, false);
    let expected = vec![
        "[INFO  fsx]  1 truncate     0x0 => 0x32aab",
        "[INFO  fsx]  2 truncate 0x32aab =>  0xf651",
        "[INFO  fsx]  3 truncate  0xf651 => 0x19f9c",
        "[INFO  fsx]  4 write    0x2ba51 .. 0x3ba50 (0x10000 bytes)",
        "[INFO  fsx]  5 write    0x2147b .. 0x3147a (0x10000 bytes)",
        "[INFO  fsx]  6 truncate 0x3ba51 =>  0x7315",
        "[INFO  fsx]  7 write    0x14b4f .. 0x24b4e (0x10000 bytes)",
        "[INFO  fsx]  8 read      0xee93 .. 0x1ee92 (0x10000 bytes)",
        "[INFO  fsx]  9 write    0x3f395 .. 0x3ffff (  0xc6b bytes)",
        "[INFO  fsx] 10 write    0x3c53a .. 0x3ffff ( 0x3ac6 bytes)",
    ];
    assert_eq!(outcome.lines, expected);
    assert_file_follows(&outcome);
}

#[test]
fn stability_truncate() {
    let outcome = run(fixed_size(65536), usual_weights(), params(9, 10), 0, false);
    let expected = vec![
        "[DEBUG fsx]  1 skipping zero size read",
        "[INFO  fsx]  2 truncate     0x0 => 0x2423e",
        "[INFO  fsx]  3 mapwrite 0x2b9f0 .. 0x3b9ef (0x10000 bytes)",
        "[INFO  fsx]  4 truncate 0x3b9f0 => 0x12104",
        "[INFO  fsx]  5 write    0x3a59d .. 0x3ffff ( 0x5a63 bytes)",
        "[INFO  fsx]  6 mapwrite  0x138b .. 0x1138a (0x10000 bytes)",
        "[INFO  fsx]  7 mapread  0x334c8 .. 0x3ffff ( 0xcb38 bytes)",
        "[INFO  fsx]  8 mapread   0x4d50 .. 0x14d4f (0x10000 bytes)",
        "[INFO  fsx]  9 read     0x3c386 .. 0x3ffff ( 0x3c7a bytes)",
        "[INFO  fsx] 10 mapread  0x3ebc3 .. 0x3ffff ( 0x143d bytes)",
    ];
    assert_eq!(outcome.lines, expected);
    assert_file_follows(&outcome);
}

#[test]
fn stability_opnum() {
    let p = RunParams { opnum: 100, ..params(4, 110) };
    let outcome = run(fixed_size(65536), usual_weights(), p, 0, false);
    let expected = vec![
        "[DEBUG fsx]   1 skipping zero size read",
        "[DEBUG fsx]   2 skipping zero size read",
        "[DEBUG fsx]   3 skipping zero size read",
        "[DEBUG fsx]   4 skipping zero size read",
        "[DEBUG fsx]   5 skipping zero size read",
        "[DEBUG fsx]   6 skipping zero size read",
        "[INFO  fsx] 100 truncate 0x2b4f5 =>  0xb098",
        "[INFO  fsx] 101 read      0xa71b ..  0xb097 (  0x97d bytes)",
        "[INFO  fsx] 102 mapread   0x7b34 ..  0xb097 ( 0x3564 bytes)",
        "[INFO  fsx] 103 mapwrite 0x1dc30 .. 0x2dc2f (0x10000 bytes)",
        "[INFO  fsx] 104 mapread  0x21f8c .. 0x2dc2f ( 0xbca4 bytes)",
        "[INFO  fsx] 105 read     0x23629 .. 0x2dc2f ( 0xa607 bytes)",
        "[INFO  fsx] 106 mapwrite  0x8dd8 .. 0x18dd7 (0x10000 bytes)",
        "[INFO  fsx] 107 mapread   0x8b44 .. 0x18b43 (0x10000 bytes)",
        "[INFO  fsx] 108 mapread   0x9f4b .. 0x19f4a (0x10000 bytes)",
        "[INFO  fsx] 109 mapread  0x27b0b .. 0x2dc2f ( 0x6125 bytes)",
        "[INFO  fsx] 110 truncate 0x2dc30 => 0x35f5f",
    ];
    assert_eq!(outcome.lines, expected);
    assert_file_follows(&outcome);
    for action in &outcome.actions[..99] {
        assert_eq!(*action, Action::Nothing);
    }
}

#[test]
fn stability_closeopen() {
    let weights = with(usual_weights(), &[(CLOSE_OPEN, 100.0)]);
    let outcome = run(fixed_size(65536), weights, params(13, 1), 0, false);
    assert_eq!(outcome.lines, vec!["[INFO  fsx] 1 close/open"]);
    assert_eq!(outcome.actions, vec![Action::CloseOpen]);
}

fn baseline_lines() -> Vec<&'static str> {
    vec![
        "[DEBUG fsx]  1 skipping zero size read",
        "[DEBUG fsx]  2 skipping zero size read",
        "[INFO  fsx]  3 write    0x202a1 .. 0x20407 (  0x167 bytes)",
        "[INFO  fsx]  4 write     0x6798 ..  0xcb41 ( 0x63aa bytes)",
        "[INFO  fsx]  5 truncate 0x20408 => 0x2442d",
        "[INFO  fsx]  6 write    0x20d0c .. 0x27672 ( 0x6967 bytes)",
        "[INFO  fsx]  7 read      0x2f75 ..  0xfb0b ( 0xcb97 bytes)",
        "[INFO  fsx]  8 mapread  0x24f47 .. 0x27672 ( 0x272c bytes)",
        "[INFO  fsx]  9 write    0x1c0c3 .. 0x2ac4f ( 0xeb8d bytes)",
        "[INFO  fsx] 10 mapwrite  0x6ed1 ..  0xcc12 ( 0x5d42 bytes)",
    ]
}

#[test]
fn stability_baseline() {
    let outcome = run(Config::default(), usual_weights(), params(20, 10), 0, false);
    assert_eq!(outcome.lines, baseline_lines());
    assert_file_follows(&outcome);
    assert_eq!(
        outcome.actions[9],
        Action::MapWrite { offset: 0x6ed1, size: 0x5d42, extend_to: None, sync: true }
    );
}

#[test]
fn stability_nomsyncafterwrite() {
    let conf = Config { nomsyncafterwrite: true, ..Config::default() };
    let outcome = run(conf, usual_weights(), params(20, 10), 0, false);
    assert_eq!(outcome.lines, baseline_lines());
    assert_file_follows(&outcome);
    assert_eq!(
        outcome.actions[9],
        Action::MapWrite { offset: 0x6ed1, size: 0x5d42, extend_to: None, sync: false }
    );
}

#[test]
fn stability_oplen() {
    let conf = Config { opsize: Opsize { min: 0, max: 4096, align: None }, ..Config::default() };
    let outcome = run(conf, usual_weights(), params(30, 10), 0, false);
    let expected = vec![
        "[INFO  fsx]  1 mapwrite 0x21c83 .. 0x2232d ( 0x6ab bytes)",
        "[INFO  fsx]  2 mapread  0x115e9 .. 0x11da7 ( 0x7bf bytes)",
        "[INFO  fsx]  3 truncate 0x2232e => 0x16494",
        "[INFO  fsx]  4 write    0x2568f .. 0x263da ( 0xd4c bytes)",
        "[INFO  fsx]  5 mapread   0xaa7c ..  0xb5fe ( 0xb83 bytes)",
        "[INFO  fsx]  6 write    0x108ee .. 0x10dae ( 0x4c1 bytes)",
        "[INFO  fsx]  7 read      0xf806 ..  0xfd1a ( 0x515 bytes)",
        "[INFO  fsx]  8 truncate 0x263db => 0x1a27d",
        "[INFO  fsx]  9 mapwrite 0x17b4b .. 0x18934 ( 0xdea bytes)",
        "[INFO  fsx] 10 mapread   0x9a99 ..  0xa000 ( 0x568 bytes)",
    ];
    assert_eq!(outcome.lines, expected);
    assert_file_follows(&outcome);
}

#[test]
fn stability_flen() {
    let conf = Config { flen: 1048576, ..Config::default() };
    let outcome = run(conf, usual_weights(), params(56, 10), 0, false);
    let expected = vec![
        "[DEBUG fsx]  1 skipping zero size read",
        "[INFO  fsx]  2 write     0xcfb9a ..  0xdc46b ( 0xc8d2 bytes)",
        "[INFO  fsx]  3 mapwrite  0xff116 ..  0xfffff (  0xeea bytes)",
        "[INFO  fsx]  4 mapread   0x9a519 ..  0xa7667 ( 0xd14f bytes)",
        "[INFO  fsx]  5 write      0xa51a ..   0xf359 ( 0x4e40 bytes)",
        "[INFO  fsx]  6 read      0xcb8e3 ..  0xd5a23 ( 0xa141 bytes)",
        "[INFO  fsx]  7 read      0x24dfa ..  0x2abd5 ( 0x5ddc bytes)",
        "[INFO  fsx]  8 write       0x5fb ..   0x30f9 ( 0x2aff bytes)",
        "[INFO  fsx]  9 truncate 0x100000 =>  0xaf4f4",
        "[INFO  fsx] 10 read      0x609f2 ..  0x65b0c ( 0x511b bytes)",
    ];
    assert_eq!(outcome.lines, expected);
    assert_file_follows(&outcome);
}

#[test]
fn stability_inval() {
    let weights = with(usual_weights(), &[(INVALIDATE, 10.0)]);
    let outcome = run(Config::default(), weights, params(42, 10), 0, false);
    let expected = vec![
        "[DEBUG fsx]  1 skipping zero size read",
        "[DEBUG fsx]  2 skipping invalidate of zero-length file",
        "[DEBUG fsx]  3 skipping zero size read",
        "[INFO  fsx]  4 truncate     0x0 => 0x2e4c0",
        "[INFO  fsx]  5 msync(MS_INVALIDATE)",
        "[INFO  fsx]  6 truncate 0x2e4c0 => 0x3cad8",
        "[INFO  fsx]  7 read     0x3416a .. 0x3cad7 ( 0x896e bytes)",
        "[INFO  fsx]  8 mapread  0x16b78 .. 0x18c4b ( 0x20d4 bytes)",
        "[INFO  fsx]  9 mapread  0x2cf1c .. 0x32605 ( 0x56ea bytes)",
        "[INFO  fsx] 10 mapread   0xd0c6 .. 0x12b21 ( 0x5a5c bytes)",
    ];
    assert_eq!(outcome.lines, expected);
    assert_eq!(outcome.actions[1], Action::Nothing);
    assert_eq!(outcome.actions[4], Action::Invalidate { size: 0x2e4c0 });
    assert_eq!(outcome.entries[1], LogEntry::Invalidate);
    assert_file_follows(&outcome);
}

#[test]
fn stability_mmap_underflow() {
    let weights = with(usual_weights(), &[(INVALIDATE, 1000.0)]);
    let outcome = run(Config::default(), weights, params(10, 1), 0, false);
    assert_eq!(outcome.lines, vec!["[DEBUG fsx] 1 skipping invalidate of zero-length file"]);
    assert_eq!(outcome.actions, vec![Action::Nothing]);
}

#[test]
fn stability_align() {
    let conf = Config {
        opsize: Opsize { min: 0, max: 65536, align: Some(4096) },
        ..Config::default()
    };
    let outcome = run(conf, usual_weights(), params(46, 10), 0, false);
    let expected = vec![
        "[INFO  fsx]  1 mapwrite 0x2e000 .. 0x31fff ( 0x4000 bytes)",
        "[INFO  fsx]  2 write    0x18000 .. 0x1cfff ( 0x5000 bytes)",
        "[INFO  fsx]  3 read     0x1e000 .. 0x27fff ( 0xa000 bytes)",
        "[INFO  fsx]  4 mapread  0x1f000 .. 0x21fff ( 0x3000 bytes)",
        "[INFO  fsx]  5 truncate 0x32000 => 0x1180e",
        "[INFO  fsx]  6 read      0xd000 .. 0x10fff ( 0x4000 bytes)",
        "[INFO  fsx]  7 mapread   0x1000 ..  0xdfff ( 0xd000 bytes)",
        "[INFO  fsx]  8 mapwrite  0x9000 ..  0xafff ( 0x2000 bytes)",
        "[INFO  fsx]  9 read      0xc000 ..  0xdfff ( 0x2000 bytes)",
        "[INFO  fsx] 10 read     0x10000 .. 0x10fff ( 0x1000 bytes)",
    ];
    assert_eq!(outcome.lines, expected);
    assert_file_follows(&outcome);
}

#[test]
fn stability_monitor() {
    let p = RunParams { monitor: Some((32768, 65536)), ..params(68, 10) };
    let outcome = run(Config::default(), usual_weights(), p, 0, false);
    let expected = vec![
        "[DEBUG fsx]  1 skipping zero size read",
        "[DEBUG fsx]  2 skipping zero size read",
        "[DEBUG fsx]  3 skipping zero size read",
        "[DEBUG fsx]  4 skipping zero size read",
        "[INFO  fsx]  5 write    0x127e6 .. 0x1730a ( 0x4b25 bytes)",
        "[INFO  fsx]  6 mapwrite 0x3a97f .. 0x3ffff ( 0x5681 bytes)",
        "[INFO  fsx]  7 truncate 0x40000 => 0x1a45e",
        "[WARN  fsx]  8 mapread   0x40f3 ..  0xe8fb ( 0xa809 bytes)",
        "[INFO  fsx]  9 write    0x1defe .. 0x2100e ( 0x3111 bytes)",
        "[WARN  fsx] 10 mapread   0x159c ..  0xed17 ( 0xd77c bytes)",
    ];
    assert_eq!(outcome.lines, expected);
    assert_file_follows(&outcome);
}

#[test]
fn stability_blockmode() {
    let conf = Config { blockmode: true, ..Config::default() };
    let weights = with(usual_weights(), &[(TRUNCATE, 0.0)]);
    let outcome = run(conf, weights, params(72, 10), 1048576, true);
    let expected = vec![
        "[INFO  fsx]  1 write     0xc0405 ..  0xc2ac7 ( 0x26c3 bytes)",
        "[INFO  fsx]  2 mapwrite  0x77eb8 ..  0x78c78 (  0xdc1 bytes)",
        "[INFO  fsx]  3 read      0x323d0 ..  0x37cd9 ( 0x590a bytes)",
        "[INFO  fsx]  4 read      0xb8dbb ..  0xc2342 ( 0x9588 bytes)",
        "[INFO  fsx]  5 read      0x45efa ..  0x4d083 ( 0x718a bytes)",
        "[INFO  fsx]  6 mapwrite  0x926be ..  0xa06d8 ( 0xe01b bytes)",
        "[INFO  fsx]  7 mapwrite  0x2656c ..  0x35a66 ( 0xf4fb bytes)",
        "[INFO  fsx]  8 mapread   0xb3066 ..  0xb9a9c ( 0x6a37 bytes)",
        "[INFO  fsx]  9 mapread   0x7296b ..  0x7b6f8 ( 0x8d8e bytes)",
        "[INFO  fsx] 10 read      0x58941 ..  0x5b149 ( 0x2809 bytes)",
    ];
    assert_eq!(outcome.lines, expected);
    assert_file_follows(&outcome);
    assert_eq!(outcome.ex.file_size(), 1048576);
    assert_eq!(outcome.ex.flen(), 1048576);
}

/// One step of a run at seed 200 in which one kind has all the weight.
fn single_kind(kind: usize) -> Outcome {
    let weights = with(usual_weights(), &[(kind, 1000000.0)]);
    run(Config::default(), weights, params(200, 1), 0, false)
}

#[test]
fn weights_close_open() {
    assert_eq!(single_kind(CLOSE_OPEN).lines, vec!["[INFO  fsx] 1 close/open"]);
}

#[test]
fn weights_write() {
    let outcome = single_kind(WRITE);
    assert_eq!(outcome.lines, vec!["[INFO  fsx] 1 write    0x18004 .. 0x1a03a ( 0x2037 bytes)"]);
    assert_eq!(outcome.entries, vec![LogEntry::Write(0, 0x18004, 0x2037)]);
    assert_eq!(outcome.actions, vec![Action::Write { offset: 0x18004, size: 0x2037 }]);
    assert_file_follows(&outcome);
}

#[test]
fn weights_mapwrite() {
    let outcome = single_kind(MAPWRITE);
    assert_eq!(outcome.lines, vec!["[INFO  fsx] 1 mapwrite 0x18004 .. 0x1a03a ( 0x2037 bytes)"]);
    assert_eq!(
        outcome.actions,
        vec![Action::MapWrite {
            offset: 0x18004,
            size: 0x2037,
            extend_to: Some(0x1a03b),
            sync: true
        }]
    );
    assert_file_follows(&outcome);
}

#[test]
fn weights_truncate() {
    let outcome = single_kind(TRUNCATE);
    assert_eq!(outcome.lines, vec!["[INFO  fsx] 1 truncate     0x0 => 0x11184"]);
    assert_eq!(outcome.actions, vec![Action::Truncate { length: 0x11184 }]);
    assert_file_follows(&outcome);
}

#[test]
fn weights_fsync() {
    let outcome = single_kind(FSYNC);
    assert_eq!(outcome.lines, vec!["[INFO  fsx] 1 fsync"]);
    assert_eq!(outcome.actions, vec![Action::Fsync]);
    assert_eq!(outcome.entries, vec![LogEntry::Fsync]);
}

#[test]
fn weights_fdatasync() {
    let outcome = single_kind(FDATASYNC);
    assert_eq!(outcome.lines, vec!["[INFO  fsx] 1 fdatasync"]);
    assert_eq!(outcome.actions, vec![Action::Fdatasync]);
    assert_eq!(outcome.entries, vec![LogEntry::Fdatasync]);
}

/// One step at seed 200 on a device of one page, in block mode, with one
/// kind that reads having all the weight.
fn single_reading_kind(kind: usize) -> Outcome {
    let conf = Config {
        blockmode: true,
        opsize: Opsize { min: 4096, max: 65536, align: Some(4096) },
        ..Config::default()
    };
    let weights = with(usual_weights(), &[(kind, 1000000.0), (TRUNCATE, 0.0)]);
    run(conf, weights, params(200, 1), 4096, true)
}

#[test]
fn read_weights_read() {
    let outcome = single_reading_kind(READ);
    assert_eq!(outcome.lines, vec!["[INFO  fsx] 1 read        0x0 ..  0xfff ( 0x1000 bytes)"]);
    assert_eq!(outcome.actions, vec![Action::Read { offset: 0, size: 4096 }]);
}

#[test]
fn read_weights_mapread() {
    let outcome = single_reading_kind(MAPREAD);
    assert_eq!(outcome.lines, vec!["[INFO  fsx] 1 mapread     0x0 ..  0xfff ( 0x1000 bytes)"]);
    assert_eq!(outcome.actions, vec![Action::MapRead { offset: 0, size: 4096 }]);
}

#[test]
fn read_weights_invalidate() {
    let outcome = single_reading_kind(INVALIDATE);
    assert_eq!(outcome.lines, vec!["[INFO  fsx] 1 msync(MS_INVALIDATE)"]);
    assert_eq!(outcome.actions, vec![Action::Invalidate { size: 4096 }]);
}

#[test]
fn read_weights_sendfile() {
    let outcome = single_reading_kind(SENDFILE);
    assert_eq!(outcome.lines, vec!["[INFO  fsx] 1 sendfile    0x0 ..  0xfff ( 0x1000 bytes)"]);
    assert_eq!(outcome.actions, vec![Action::Sendfile { offset: 0, size: 4096 }]);
    assert_eq!(outcome.entries, vec![LogEntry::Sendfile(0, 4096)]);
}

#[test]
fn posix_fallocate() {
    let outcome = single_kind(POSIX_FALLOCATE);
    assert_eq!(
        outcome.lines,
        vec!["[INFO  fsx] 1 posix_fallocate 0x18004 .. 0x1a03a ( 0x2037 bytes)"]
    );
    assert_eq!(outcome.actions, vec![Action::PosixFallocate { offset: 0x18004, len: 0x2037 }]);
    assert_eq!(outcome.ex.file_size(), 0x1a03b);
    assert_file_follows(&outcome);
}

#[test]
fn punch_hole() {
    let weights = with(
        usual_weights(),
        &[(PUNCH_HOLE, 10.0), (MAPREAD, 0.0), (MAPWRITE, 0.0), (TRUNCATE, 0.0)],
    );
    let outcome = run(Config::default(), weights, params(301, 10), 0, true);
    let expected = vec![
        "[INFO  fsx]  1 write    0x31a71 .. 0x32208 (  0x798 bytes)",
        "[INFO  fsx]  2 write    0x1b01b .. 0x2a456 ( 0xf43c bytes)",
        "[INFO  fsx]  3 read     0x2a547 .. 0x32208 ( 0x7cc2 bytes)",
        "[INFO  fsx]  4 punch_hole  0xe1a3 .. 0x1a7bb ( 0xc619 bytes)",
        "[INFO  fsx]  5 read      0x2df9 .. 0x11e7c ( 0xf084 bytes)",
        "[INFO  fsx]  6 punch_hole 0x2794a .. 0x32208 ( 0xa8bf bytes)",
        "[INFO  fsx]  7 write    0x2a1af .. 0x2a72c (  0x57e bytes)",
        "[INFO  fsx]  8 read     0x1eba8 .. 0x21a49 ( 0x2ea2 bytes)",
        "[INFO  fsx]  9 read     0x2298f .. 0x2bf0a ( 0x957c bytes)",
        "[INFO  fsx] 10 punch_hole  0x6e88 ..  0xac44 ( 0x3dbd bytes)",
    ];
    assert_eq!(outcome.lines, expected);
    assert_file_follows(&outcome);
}

#[test]
fn punch_hole_zero() {
    let weights = with(usual_weights(), &[(PUNCH_HOLE, 1000.0)]);
    let outcome = run(Config::default(), weights, params(301, 1), 0, false);
    assert_eq!(outcome.lines, vec!["[DEBUG fsx] 1 skipping zero size hole punch"]);
    assert_eq!(outcome.entries, vec![LogEntry::Skip(fsx::op::Op::PunchHole)]);
    assert_eq!(outcome.actions, vec![Action::Nothing]);
}

#[test]
fn blockmode_zero() {
    let conf = Config {
        blockmode: true,
        enabled: Enabled { truncate: false, ..Enabled::default() },
        ..Config::default()
    };
    let r = Exerciser::new(params(72, 2), &conf, true, 0, PAGE);
    match r {
        Err(e) => {
            assert_eq!(e, ConfigError::ZeroLength);
            assert_eq!(e.message(), "file length must be greater than zero");
        }
        Ok(_) => panic!("a device without bytes was accepted"),
    }
}

#[test]
fn artifacts_dir() {
    let p = RunParams { inject: Some(1), ..params(11, 2) };
    let outcome = run(Config::default(), usual_weights(), p, 0, true);
    assert!(outcome.miscompare.is_some() || outcome.size_error.is_some());
    assert_eq!(outcome.ex.expected().len(), 262144);
}

#[test]
fn miscompare() {
    let p = RunParams { inject: Some(3), ..params(10, 10) };
    let outcome = run(Config::default(), usual_weights(), p, 0, false);
    let expected = vec![
        "[DEBUG fsx]  1 skipping zero size read",
        "[INFO  fsx]  2 truncate     0x0 => 0x19efd",
        "[INFO  fsx]  4 truncate 0x19efd => 0x1cb67",
        "[INFO  fsx]  5 mapread   0xe279 .. 0x10931 ( 0x26b9 bytes)",
    ];
    assert_eq!(outcome.lines, expected);
    assert_eq!(outcome.size_error, None);
    let found = outcome.miscompare.unwrap();
    let report = outcome.ex.report(&found);
    let expected_report = vec![
        "miscompare: offset= 0xe279, size = 0x26b9",
        "OFFSET  GOOD  BAD  RANGE  ",
        " 0xe279 0xd1 0x00  0x26a9",
        "Step# for the bad data is unknown; check HOLE and EXTEND ops",
    ];
    assert_eq!(report, expected_report);
    let dump = outcome.ex.dump_logfile();
    let expected_dump = vec![
        "LOG DUMP",
        " 1 SKIPPED  (read)",
        " 2 TRUNCATE  UP   from     0x0 to 0x19efd",
        " 3 WRITE     0xda28 => 0x14205 ( 0x67dd bytes)",
        " 4 TRUNCATE  UP   from 0x19efd to 0x1cb67",
        " 5 MAPREAD   0xe279 => 0x10932 ( 0x26b9 bytes)",
    ];
    assert_eq!(dump, expected_dump);
    assert_eq!(outcome.ex.expected().len(), 262144);
    assert_eq!(outcome.actions[2], Action::Nothing);
    assert_eq!(outcome.entries[2], LogEntry::Write(0x19efd, 0xda28, 0x67dd));
}

#[test]
fn close_open_alone_leaves_the_file_unchanged() {
    let mut weights = [0.0; 12];
    weights[CLOSE_OPEN] = 1000000.0;
    for seed in [0u64, 1, 13, 200, 98765] {
        let outcome = run(Config::default(), weights, params(seed, 1), 0, false);
        assert_eq!(outcome.lines, vec!["[INFO  fsx] 1 close/open"]);
        assert_eq!(outcome.entries, vec![LogEntry::CloseOpen]);
        assert_eq!(outcome.actions, vec![Action::CloseOpen]);
        assert_eq!(outcome.file, Vec::<u8>::new());
        assert_eq!(outcome.ex.file_size(), 0);
        assert!(outcome.ex.expected().iter().all(|b| *b == 0));
        assert_eq!(outcome.ex.steps(), 1);
        assert!(outcome.ex.finished());
    }
}

#[test]
fn a_hole_in_a_device_of_one_page() {
    let conf = Config {
        blockmode: true,
        opsize: Opsize { min: 4096, max: 4096, align: Some(4096) },
        ..Config::default()
    };
    let mut weights = [0.0; 12];
    weights[PUNCH_HOLE] = 1.0;
    for seed in [0u64, 1, 301, 5555] {
        let outcome = run(conf, weights, params(seed, 1), 4096, true);
        // The columns are as wide as the largest offset and the largest
        // size need: six characters each.
        let line = format!(
            "[INFO  fsx] {:1} punch_hole {:#6x} .. {:#6x} ({:#6x} bytes)",
            1, 0, 4095, 4096
        );
        assert_eq!(line, "[INFO  fsx] 1 punch_hole    0x0 ..  0xfff (0x1000 bytes)");
        assert_eq!(outcome.lines, vec![line]);
        assert_eq!(outcome.entries, vec![LogEntry::PunchHole(0, 4096)]);
        assert_eq!(outcome.actions, vec![Action::PunchHole { offset: 0, len: 4096 }]);
        assert_eq!(outcome.ex.expected().len(), 4096);
        assert!(outcome.ex.expected()[..4096].iter().all(|b| *b == 0));
        assert_eq!(outcome.ex.file_size(), 4096);
        assert_file_follows(&outcome);
        assert_eq!(
            outcome.ex.dump_logfile(),
            vec!["LOG DUMP", "1 PUNCH_HOLE    0x0 =>  0xfff (0x1000 bytes)"]
        );
    }
}

#[test]
fn an_injected_fault_is_found() {
    // A write at the third step never reaches the file; a read of its range
    // then finds what the file held before.
    let p = RunParams { inject: Some(3), ..params(10, 10) };
    let outcome = run(Config::default(), usual_weights(), p, 0, false);
    assert_eq!(outcome.ex.steps(), 5);
    assert_eq!(outcome.entries[2], LogEntry::Write(0x19efd, 0xda28, 0x67dd));
    assert_eq!(outcome.actions[2], Action::Nothing);
    assert_eq!(outcome.entries[4], LogEntry::MapRead(0xe279, 0x26b9));
    assert_eq!(outcome.actions[4], Action::MapRead { offset: 0xe279, size: 0x26b9 });
    assert!(outcome.lines.iter().all(|line| !line.contains(" 3 ")));
    // The model followed the write, the file did not.
    assert!(outcome.ex.expected()[0xda28..0x14205].iter().any(|b| *b != 0));
    assert!(outcome.file[0xda28..0x14205].iter().all(|b| *b == 0));
    assert_eq!(outcome.ex.expected()[0xda28], 3);
    let found = outcome.miscompare.unwrap();
    assert_eq!((found.offset, found.size), (0xe279, 0x26b9));
    assert_eq!((found.bad_offset, found.good, found.bad), (0xe279, 0xd1, 0));
    assert_eq!(found.damaged, 0x26a9);
    assert_eq!(found.origin, None);
    // The artifact holds the whole of the expected content.
    assert_eq!(outcome.ex.expected().len(), 262144);
    // Without the fault the same run meets no miscompare.
    let outcome = run(Config::default(), usual_weights(), params(10, 10), 0, false);
    assert_eq!(outcome.ex.steps(), 10);
    assert_eq!(outcome.actions[2], Action::Write { offset: 0xda28, size: 0x67dd });
    assert_file_follows(&outcome);
}

#[test]
fn long_runs_leave_a_file_that_follows() {
    let weights = [1.0, 5.0, 5.0, 5.0, 2.0, 1.0, 5.0, 1.0, 1.0, 3.0, 3.0, 2.0];
    for (seed, align) in [(1u64, 1usize), (2, 512), (3, 4096), (4, 3)] {
        let conf = Config {
            opsize: Opsize { min: 0, max: 65536, align: Some(align) },
            ..Config::default()
        };
        let outcome = run(conf, weights, params(seed, 2000), 0, false);
        assert_eq!(outcome.ex.steps(), 2000);
        assert_file_follows(&outcome);
        assert_eq!(outcome.ex.dump_logfile().len(), 1025);
    }
    let p = RunParams { opnum: 500, ..params(5, 1500) };
    let outcome = run(Config::default(), weights, p, 0, false);
    assert_eq!(outcome.ex.steps(), 1500);
    assert_file_follows(&outcome);
}
