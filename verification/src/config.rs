//! Run configuration and its validation.

use crate::op::Op;
use vstd::prelude::*;

verus! {

/// Default maximum file length in bytes.
pub fn default_flen() -> (r: u32)
    ensures
        r == 262144,
{
    256 * 1024
}

/// Default largest operation size in bytes.
pub fn default_opsize_max() -> (r: usize)
    ensures
        r == 65536,
{
    65536
}

/// Size distribution of all operations.
#[derive(Clone, Copy, Debug, PartialEq, Eq, Structural)]
pub struct Opsize {
    /// Smallest size drawn for an operation.
    pub min: usize,
    /// Largest size drawn for an operation.
    pub max: usize,
    /// Alignment in bytes of offsets and sizes; one where absent.
    pub align: Option<usize>,
}

impl Opsize {
    /// The alignment in force: the configured one, or one byte.
    pub open spec fn align_spec(self) -> nat {
        match self.align {
            Some(a) => a as nat,
            None => 1,
        }
    }

    /// The alignment in force: the configured one, or one byte.
    pub fn alignment(&self) -> (a: usize)
        ensures
            a == self.align_spec(),
    {
        match self.align {
            Some(a) => a,
            None => 1,
        }
    }
}

impl Default for Opsize {
    fn default() -> (r: Opsize)
        ensures
            r == (Opsize { min: 0, max: 65536, align: Some(1) }),
    {
        Opsize { min: 0, max: 65536, align: Some(1) }
    }
}

/// Which kinds of operation the selector can draw: those whose weight is
/// positive.
#[derive(Clone, Copy, Debug, PartialEq, Eq, Structural)]
pub struct Enabled {
    pub close_open: bool,
    pub read: bool,
    pub write: bool,
    pub mapread: bool,
    pub truncate: bool,
    pub invalidate: bool,
    pub mapwrite: bool,
    pub fsync: bool,
    pub fdatasync: bool,
    pub posix_fallocate: bool,
    pub punch_hole: bool,
    pub sendfile: bool,
}

impl Enabled {
    /// Whether the selector can draw `op`.
    pub open spec fn has(self, op: Op) -> bool {
        match op {
            Op::CloseOpen => self.close_open,
            Op::Read => self.read,
            Op::Write => self.write,
            Op::MapRead => self.mapread,
            Op::Truncate => self.truncate,
            Op::Invalidate => self.invalidate,
            Op::MapWrite => self.mapwrite,
            Op::Fsync => self.fsync,
            Op::Fdatasync => self.fdatasync,
            Op::PosixFallocate => self.posix_fallocate,
            Op::PunchHole => self.punch_hole,
            Op::Sendfile => self.sendfile,
        }
    }

    /// Whether the selector can draw `op`.
    pub fn contains(&self, op: Op) -> (b: bool)
        ensures
            b == self.has(op),
    {
        match op {
            Op::CloseOpen => self.close_open,
            Op::Read => self.read,
            Op::Write => self.write,
            Op::MapRead => self.mapread,
            Op::Truncate => self.truncate,
            Op::Invalidate => self.invalidate,
            Op::MapWrite => self.mapwrite,
            Op::Fsync => self.fsync,
            Op::Fdatasync => self.fdatasync,
            Op::PosixFallocate => self.posix_fallocate,
            Op::PunchHole => self.punch_hole,
            Op::Sendfile => self.sendfile,
        }
    }
}

impl Default for Enabled {
    /// The kinds that carry a weight where none is configured.
    fn default() -> (r: Enabled)
        ensures
            r == (Enabled {
                close_open: false,
                read: true,
                write: true,
                mapread: true,
                truncate: true,
                invalidate: false,
                mapwrite: true,
                fsync: false,
                fdatasync: false,
                posix_fallocate: false,
                punch_hole: false,
                sendfile: false,
            }),
    {
        Enabled {
            close_open: false,
            read: true,
            write: true,
            mapread: true,
            truncate: true,
            invalidate: false,
            mapwrite: true,
            fsync: false,
            fdatasync: false,
            posix_fallocate: false,
            punch_hole: false,
            sendfile: false,
        }
    }
}

/// What a run is configured with.
#[derive(Clone, Copy, Debug, PartialEq, Eq, Structural)]
pub struct Config {
    /// Maximum file size.
    pub flen: u32,
    /// Disable verifications of file size.
    pub nosizechecks: bool,
    /// Block mode: never change the file's size.
    pub blockmode: bool,
    /// Disable the sync of the mapping after a mapped write.
    pub nomsyncafterwrite: bool,
    /// Size distribution of all operations.
    pub opsize: Opsize,
    /// The kinds of operation with a positive weight.
    pub enabled: Enabled,
}

impl Default for Config {
    fn default() -> (r: Config)
        ensures
            r.flen == 262144,
            !r.nosizechecks,
            !r.blockmode,
            !r.nomsyncafterwrite,
            r.opsize == (Opsize { min: 0, max: 65536, align: Some(1) }),
            r.enabled.read && r.enabled.write && r.enabled.mapread && r.enabled.mapwrite
                && r.enabled.truncate,
            !r.enabled.close_open && !r.enabled.invalidate && !r.enabled.fsync
                && !r.enabled.fdatasync && !r.enabled.posix_fallocate && !r.enabled.punch_hole
                && !r.enabled.sendfile,
    {
        Config {
            flen: default_flen(),
            nosizechecks: false,
            blockmode: false,
            nomsyncafterwrite: false,
            opsize: Opsize::default(),
            enabled: Enabled::default(),
        }
    }
}

/// Why a configuration is refused.
#[derive(Clone, Copy, Debug, PartialEq, Eq, Structural)]
pub enum ConfigError {
    ZeroLength,
    ZeroOpsizeMax,
    MinAboveMax,
    ZeroAlign,
    AlignAboveMax,
    FlenWithBlockmode,
    CloseOpenWithBlockmode,
    TruncateWithBlockmode,
    FallocateWithBlockmode,
    BlockmodeWithoutArtifactsDir,
    ZeroOpnum,
    ZeroPageSize,
}

impl ConfigError {
    /// The message shown to the operator.
    pub open spec fn message_spec(self) -> Seq<char> {
        match self {
            ConfigError::ZeroLength => "file length must be greater than zero"@,
            ConfigError::ZeroOpsizeMax => "Maximum operation size must be greater than zero"@,
            ConfigError::MinAboveMax => "Minimum operation size must be no greater than maximum"@,
            ConfigError::ZeroAlign => "operation alignment must be greater than zero"@,
            ConfigError::AlignAboveMax =>
                "operation alignment must be no greater than maximum operation size"@,
            ConfigError::FlenWithBlockmode => "cannot use both flen and blockmode"@,
            ConfigError::CloseOpenWithBlockmode => "cannot use close_open with blockmode"@,
            ConfigError::TruncateWithBlockmode => "cannot use truncate with blockmode"@,
            ConfigError::FallocateWithBlockmode => "cannot use posix_fallocate with blockmode"@,
            ConfigError::BlockmodeWithoutArtifactsDir => "must specify -P when using blockmode"@,
            ConfigError::ZeroOpnum => "beginning operation number must be greater than zero"@,
            ConfigError::ZeroPageSize => "page size must be greater than zero"@,
        }
    }

    /// The message shown to the operator.
    pub fn message(&self) -> (s: &'static str)
        ensures
            s@ == self.message_spec(),
    {
        match self {
            ConfigError::ZeroLength => "file length must be greater than zero",
            ConfigError::ZeroOpsizeMax => "Maximum operation size must be greater than zero",
            ConfigError::MinAboveMax => "Minimum operation size must be no greater than maximum",
            ConfigError::ZeroAlign => "operation alignment must be greater than zero",
            ConfigError::AlignAboveMax => {
                "operation alignment must be no greater than maximum operation size"
            },
            ConfigError::FlenWithBlockmode => "cannot use both flen and blockmode",
            ConfigError::CloseOpenWithBlockmode => "cannot use close_open with blockmode",
            ConfigError::TruncateWithBlockmode => "cannot use truncate with blockmode",
            ConfigError::FallocateWithBlockmode => "cannot use posix_fallocate with blockmode",
            ConfigError::BlockmodeWithoutArtifactsDir => "must specify -P when using blockmode",
            ConfigError::ZeroOpnum => "beginning operation number must be greater than zero",
            ConfigError::ZeroPageSize => "page size must be greater than zero",
        }
    }
}

impl Config {
    /// The first rule that the configuration breaks, in the order in which
    /// the rules are checked; `None` where it breaks none.
    pub open spec fn violation(self, has_artifacts_dir: bool) -> Option<ConfigError> {
        if self.flen == 0 {
            Some(ConfigError::ZeroLength)
        } else if self.opsize.max == 0 {
            Some(ConfigError::ZeroOpsizeMax)
        } else if self.opsize.min > self.opsize.max {
            Some(ConfigError::MinAboveMax)
        } else if self.opsize.align_spec() == 0 {
            Some(ConfigError::ZeroAlign)
        } else if self.opsize.align_spec() > self.opsize.max {
            Some(ConfigError::AlignAboveMax)
        } else if self.blockmode && self.flen != 262144 {
            Some(ConfigError::FlenWithBlockmode)
        } else if self.blockmode && self.enabled.close_open {
            Some(ConfigError::CloseOpenWithBlockmode)
        } else if self.blockmode && self.enabled.truncate {
            Some(ConfigError::TruncateWithBlockmode)
        } else if self.blockmode && self.enabled.posix_fallocate {
            Some(ConfigError::FallocateWithBlockmode)
        } else if self.blockmode && !has_artifacts_dir {
            Some(ConfigError::BlockmodeWithoutArtifactsDir)
        } else {
            None
        }
    }

    /// A configuration that breaks no rule.
    pub open spec fn valid(self, has_artifacts_dir: bool) -> bool {
        self.violation(has_artifacts_dir) is None
    }

    /// Validate the configuration together with what the command line says
    /// of an artifacts directory.
    pub fn validate(&self, has_artifacts_dir: bool) -> (r: Result<(), ConfigError>)
        ensures
            r is Ok <==> self.valid(has_artifacts_dir),
            r matches Err(e) ==> self.violation(has_artifacts_dir) == Some(e),
    {
        if self.flen == 0 {
            return Err(ConfigError::ZeroLength);
        }
        if self.opsize.max == 0 {
            return Err(ConfigError::ZeroOpsizeMax);
        }
        if self.opsize.min > self.opsize.max {
            return Err(ConfigError::MinAboveMax);
        }
        let align = self.opsize.alignment();
        if align == 0 {
            return Err(ConfigError::ZeroAlign);
        }
        if align > self.opsize.max {
            return Err(ConfigError::AlignAboveMax);
        }
        if self.blockmode && self.flen != default_flen() {
            return Err(ConfigError::FlenWithBlockmode);
        }
        if self.blockmode && self.enabled.close_open {
            return Err(ConfigError::CloseOpenWithBlockmode);
        }
        if self.blockmode && self.enabled.truncate {
            return Err(ConfigError::TruncateWithBlockmode);
        }
        if self.blockmode && self.enabled.posix_fallocate {
            return Err(ConfigError::FallocateWithBlockmode);
        }
        if self.blockmode && !has_artifacts_dir {
            return Err(ConfigError::BlockmodeWithoutArtifactsDir);
        }
        Ok(())
    }
}

} // verus!
