// The configuration's defaults, and each rule that refuses one.

use fsx::config::{default_flen, default_opsize_max, Config, ConfigError, Enabled, Opsize};
use fsx::op::Op;

fn blockmode() -> Config {
    Config {
        blockmode: true,
        enabled: Enabled { truncate: false, ..Enabled::default() },
        ..Config::default()
    }
}

#[test]
fn defaults() {
    assert_eq!(default_flen(), 262144);
    assert_eq!(default_opsize_max(), 65536);
    let conf = Config::default();
    assert_eq!(conf.flen, 262144);
    assert!(!conf.nosizechecks);
    assert!(!conf.blockmode);
    assert!(!conf.nomsyncafterwrite);
    assert_eq!(conf.opsize, Opsize { min: 0, max: 65536, align: Some(1) });
    assert_eq!(conf.opsize.alignment(), 1);
    assert_eq!(Opsize { min: 0, max: 1, align: None }.alignment(), 1);
    assert_eq!(Opsize { min: 0, max: 1, align: Some(512) }.alignment(), 512);
    assert_eq!(conf.validate(false), Ok(()));
    assert_eq!(conf.validate(true), Ok(()));
}

#[test]
fn default_kinds() {
    let enabled = Enabled::default();
    for op in [Op::Read, Op::Write, Op::MapRead, Op::MapWrite, Op::Truncate] {
        assert!(enabled.contains(op));
    }
    for op in [
        Op::CloseOpen,
        Op::Invalidate,
        Op::Fsync,
        Op::Fdatasync,
        Op::PosixFallocate,
        Op::PunchHole,
        Op::Sendfile,
    ] {
        assert!(!enabled.contains(op));
    }
}

#[test]
fn each_kind_has_its_own_flag() {
    let none = Enabled {
        close_open: false,
        read: false,
        write: false,
        mapread: false,
        truncate: false,
        invalidate: false,
        mapwrite: false,
        fsync: false,
        fdatasync: false,
        posix_fallocate: false,
        punch_hole: false,
        sendfile: false,
    };
    let flagged = [
        (Enabled { close_open: true, ..none }, Op::CloseOpen),
        (Enabled { read: true, ..none }, Op::Read),
        (Enabled { write: true, ..none }, Op::Write),
        (Enabled { mapread: true, ..none }, Op::MapRead),
        (Enabled { truncate: true, ..none }, Op::Truncate),
        (Enabled { invalidate: true, ..none }, Op::Invalidate),
        (Enabled { mapwrite: true, ..none }, Op::MapWrite),
        (Enabled { fsync: true, ..none }, Op::Fsync),
        (Enabled { fdatasync: true, ..none }, Op::Fdatasync),
        (Enabled { posix_fallocate: true, ..none }, Op::PosixFallocate),
        (Enabled { punch_hole: true, ..none }, Op::PunchHole),
        (Enabled { sendfile: true, ..none }, Op::Sendfile),
    ];
    for (at, (enabled, op)) in flagged.iter().enumerate() {
        for (other_at, (_, other)) in flagged.iter().enumerate() {
            assert_eq!(enabled.contains(*other), at == other_at);
        }
        assert_eq!(op.index(), at);
    }
}

#[test]
fn zero_length_is_refused() {
    let conf = Config { flen: 0, ..Config::default() };
    assert_eq!(conf.validate(false), Err(ConfigError::ZeroLength));
    assert_eq!(ConfigError::ZeroLength.message(), "file length must be greater than zero");
}

#[test]
fn zero_opsize_max_is_refused() {
    let conf = Config { opsize: Opsize { min: 0, max: 0, align: None }, ..Config::default() };
    assert_eq!(conf.validate(false), Err(ConfigError::ZeroOpsizeMax));
    assert_eq!(
        ConfigError::ZeroOpsizeMax.message(),
        "Maximum operation size must be greater than zero"
    );
}

#[test]
fn min_above_max_is_refused() {
    let conf = Config { opsize: Opsize { min: 9, max: 8, align: None }, ..Config::default() };
    assert_eq!(conf.validate(false), Err(ConfigError::MinAboveMax));
    assert_eq!(
        ConfigError::MinAboveMax.message(),
        "Minimum operation size must be no greater than maximum"
    );
    let conf = Config { opsize: Opsize { min: 8, max: 8, align: None }, ..Config::default() };
    assert_eq!(conf.validate(false), Ok(()));
}

#[test]
fn zero_align_is_refused() {
    let conf = Config { opsize: Opsize { min: 0, max: 8, align: Some(0) }, ..Config::default() };
    assert_eq!(conf.validate(false), Err(ConfigError::ZeroAlign));
    assert_eq!(ConfigError::ZeroAlign.message(), "operation alignment must be greater than zero");
}

#[test]
fn align_above_max_is_refused() {
    let conf = Config { opsize: Opsize { min: 0, max: 8, align: Some(9) }, ..Config::default() };
    assert_eq!(conf.validate(false), Err(ConfigError::AlignAboveMax));
    assert_eq!(
        ConfigError::AlignAboveMax.message(),
        "operation alignment must be no greater than maximum operation size"
    );
    let conf = Config { opsize: Opsize { min: 0, max: 8, align: Some(8) }, ..Config::default() };
    assert_eq!(conf.validate(false), Ok(()));
}

#[test]
fn flen_with_blockmode_is_refused() {
    let conf = Config { flen: 131072, ..blockmode() };
    assert_eq!(conf.validate(true), Err(ConfigError::FlenWithBlockmode));
    assert_eq!(ConfigError::FlenWithBlockmode.message(), "cannot use both flen and blockmode");
    assert_eq!(blockmode().validate(true), Ok(()));
}

#[test]
fn close_open_with_blockmode_is_refused() {
    let conf = Config {
        enabled: Enabled { close_open: true, truncate: false, ..Enabled::default() },
        ..blockmode()
    };
    assert_eq!(conf.validate(true), Err(ConfigError::CloseOpenWithBlockmode));
    assert_eq!(
        ConfigError::CloseOpenWithBlockmode.message(),
        "cannot use close_open with blockmode"
    );
}

#[test]
fn truncate_with_blockmode_is_refused() {
    let conf = Config { enabled: Enabled::default(), ..blockmode() };
    assert_eq!(conf.validate(true), Err(ConfigError::TruncateWithBlockmode));
    assert_eq!(
        ConfigError::TruncateWithBlockmode.message(),
        "cannot use truncate with blockmode"
    );
}

#[test]
fn posix_fallocate_with_blockmode_is_refused() {
    let conf = Config {
        enabled: Enabled { posix_fallocate: true, truncate: false, ..Enabled::default() },
        ..blockmode()
    };
    assert_eq!(conf.validate(true), Err(ConfigError::FallocateWithBlockmode));
    assert_eq!(
        ConfigError::FallocateWithBlockmode.message(),
        "cannot use posix_fallocate with blockmode"
    );
}

#[test]
fn blockmode_without_artifacts_dir_is_refused() {
    assert_eq!(blockmode().validate(false), Err(ConfigError::BlockmodeWithoutArtifactsDir));
    assert_eq!(
        ConfigError::BlockmodeWithoutArtifactsDir.message(),
        "must specify -P when using blockmode"
    );
}

#[test]
fn the_first_broken_rule_is_reported() {
    let conf = Config {
        flen: 0,
        opsize: Opsize { min: 9, max: 0, align: Some(0) },
        blockmode: true,
        ..Config::default()
    };
    assert_eq!(conf.validate(false), Err(ConfigError::ZeroLength));
    let conf = Config { flen: 1, ..conf };
    assert_eq!(conf.validate(false), Err(ConfigError::ZeroOpsizeMax));
    let conf = Config { opsize: Opsize { min: 9, max: 8, align: Some(0) }, ..conf };
    assert_eq!(conf.validate(false), Err(ConfigError::MinAboveMax));
    let conf = Config { opsize: Opsize { min: 8, max: 8, align: Some(0) }, ..conf };
    assert_eq!(conf.validate(false), Err(ConfigError::ZeroAlign));
    let conf = Config { opsize: Opsize { min: 8, max: 8, align: Some(16) }, ..conf };
    assert_eq!(conf.validate(false), Err(ConfigError::AlignAboveMax));
    let conf = Config { opsize: Opsize { min: 8, max: 8, align: Some(8) }, ..conf };
    assert_eq!(conf.validate(false), Err(ConfigError::FlenWithBlockmode));
    let conf = Config {
        flen: 262144,
        enabled: Enabled { close_open: true, posix_fallocate: true, ..Enabled::default() },
        ..conf
    };
    assert_eq!(conf.validate(false), Err(ConfigError::CloseOpenWithBlockmode));
    let conf = Config {
        enabled: Enabled { posix_fallocate: true, ..Enabled::default() },
        ..conf
    };
    assert_eq!(conf.validate(false), Err(ConfigError::TruncateWithBlockmode));
    let conf = Config {
        enabled: Enabled { posix_fallocate: true, truncate: false, ..Enabled::default() },
        ..conf
    };
    assert_eq!(conf.validate(false), Err(ConfigError::FallocateWithBlockmode));
    let conf = Config { enabled: Enabled { truncate: false, ..Enabled::default() }, ..conf };
    assert_eq!(conf.validate(false), Err(ConfigError::BlockmodeWithoutArtifactsDir));
    assert_eq!(conf.validate(true), Ok(()));
}
