//! The error taxonomy of the engine and the status-pipe record: a child
//! that fails before `exec` collapses the failure into one small record,
//! writes it to the status pipe and exits; the supervisor decodes the
//! record after the reap. An empty read means the `exec` succeeded.

use vstd::prelude::*;
use vstd::arithmetic::div_mod::lemma_div_denominator;
use vstd::arithmetic::div_mod::lemma_div_is_ordered;
use vstd::arithmetic::div_mod::lemma_fundamental_div_mod;
use vstd::arithmetic::div_mod::lemma_small_mod;

verus! {

/// Which cgroup filesystem operation failed.
#[derive(Debug, Eq, PartialEq, Copy, Clone)]
pub enum CgroupOperation {
    Create,
    Write,
    Read,
    Destroy,
}

/// Which mount-namespace operation failed in the child.
#[derive(Debug, Eq, PartialEq, Copy, Clone)]
pub enum MountOperation {
    Bind,
    Remount,
    Pivot,
    Umount,
}

/// A failure reported by the child over the status pipe, as the
/// supervisor surfaces it.
#[derive(Debug, Eq, PartialEq, Copy, Clone)]
pub enum ChildError {
    /// The status pipe was unreadable or returned a malformed record.
    PipeError,
    /// `execve` failed with the given errno.
    ExecError(i32),
}

/// An engine failure. A failed run (a cap was exceeded, the target
/// crashed) is not an `Error` but a `RunInfo` with a non-success result.
#[derive(Debug, Eq, PartialEq, Copy, Clone)]
pub enum Error {
    ConfigError,
    CgroupError(CgroupOperation),
    MountError(MountOperation),
    ChildError(ChildError),
    WaitError,
    TimerError,
}

/// What went wrong in the child before `exec`.
#[derive(Debug, Eq, PartialEq, Copy, Clone)]
pub enum ChildFailureKind {
    MountBind,
    MountRemount,
    MountPivot,
    MountUmount,
    Exec,
}

/// The one failure a child reports before exiting with code 255: a typed
/// error code plus the errno the failing syscall left.
#[derive(Debug, Eq, PartialEq, Copy, Clone)]
pub struct ChildFailure {
    pub kind: ChildFailureKind,
    pub errno: i32,
}

impl ChildFailure {
    /// An errno is never negative.
    pub open spec fn wf(self) -> bool {
        0 <= self.errno
    }
}

/// The one-byte wire tag of each failure kind.
pub open spec fn kind_tag(kind: ChildFailureKind) -> u8 {
    match kind {
        ChildFailureKind::MountBind => 1,
        ChildFailureKind::MountRemount => 2,
        ChildFailureKind::MountPivot => 3,
        ChildFailureKind::MountUmount => 4,
        ChildFailureKind::Exec => 5,
    }
}

/// The failure kind a wire tag stands for.
pub open spec fn tag_kind(tag: u8) -> ChildFailureKind
    recommends
        1 <= tag <= 5,
{
    if tag == 1 {
        ChildFailureKind::MountBind
    } else if tag == 2 {
        ChildFailureKind::MountRemount
    } else if tag == 3 {
        ChildFailureKind::MountPivot
    } else if tag == 4 {
        ChildFailureKind::MountUmount
    } else {
        ChildFailureKind::Exec
    }
}

/// The four little-endian bytes of a 32-bit value.
pub open spec fn le_bytes(value: u32) -> Seq<u8> {
    seq![
        (value % 256) as u8,
        ((value / 256) % 256) as u8,
        ((value / 65536) % 256) as u8,
        ((value / 16777216) % 256) as u8,
    ]
}

/// The 32-bit value four little-endian bytes stand for.
pub open spec fn le_value(b0: u8, b1: u8, b2: u8, b3: u8) -> u32 {
    (b0 + b1 * 256 + b2 * 65536 + b3 * 16777216) as u32
}

/// The five-byte status-pipe record: the kind's tag, then the errno as an
/// unsigned 32-bit little-endian value.
pub open spec fn spec_record(f: ChildFailure) -> Seq<u8> {
    seq![kind_tag(f.kind)] + le_bytes(f.errno as u32)
}

/// What the supervisor reads out of the status pipe's bytes: nothing when
/// the pipe was empty (the `exec` succeeded), the child's failure when the
/// record is well formed, and a pipe error otherwise. A record is well
/// formed when it is five bytes, its tag is known, and its errno field is
/// a nonnegative 32-bit value.
pub open spec fn spec_decode(bytes: Seq<u8>) -> Result<Option<ChildFailure>, Error> {
    if bytes.len() == 0 {
        Ok(None)
    } else if bytes.len() == 5 && 1 <= bytes[0] && bytes[0] <= 5 && bytes[4] < 128 {
        Ok(
            Some(
                ChildFailure {
                    kind: tag_kind(bytes[0]),
                    errno: le_value(bytes[1], bytes[2], bytes[3], bytes[4]) as i32,
                },
            ),
        )
    } else {
        Err(Error::ChildError(ChildError::PipeError))
    }
}

/// Encodes the failure a child is about to die of into the record it
/// writes to the status pipe.
pub fn encode_status_record(f: &ChildFailure) -> (r: Vec<u8>)
    requires
        f.wf(),
    ensures
        r@ == spec_record(*f),
{
    let tag: u8 = match f.kind {
        ChildFailureKind::MountBind => 1,
        ChildFailureKind::MountRemount => 2,
        ChildFailureKind::MountPivot => 3,
        ChildFailureKind::MountUmount => 4,
        ChildFailureKind::Exec => 5,
    };
    let value: u32 = f.errno as u32;
    let mut r: Vec<u8> = Vec::new();
    r.push(tag);
    r.push((value % 256) as u8);
    r.push(((value / 256) % 256) as u8);
    r.push(((value / 65536) % 256) as u8);
    r.push(((value / 16777216) % 256) as u8);
    proof {
        assert(r@ =~= spec_record(*f));
    }
    r
}

/// Decodes what the supervisor read from the status pipe after the reap.
pub fn decode_status_record(bytes: &[u8]) -> (r: Result<Option<ChildFailure>, Error>)
    ensures
        r == spec_decode(bytes@),
{
    if bytes.len() == 0 {
        Ok(None)
    } else if bytes.len() == 5 {
        let tag: u8 = bytes[0];
        let high: u8 = bytes[4];
        if 1 <= tag && tag <= 5 && high < 128 {
            let kind = if tag == 1 {
                ChildFailureKind::MountBind
            } else if tag == 2 {
                ChildFailureKind::MountRemount
            } else if tag == 3 {
                ChildFailureKind::MountPivot
            } else if tag == 4 {
                ChildFailureKind::MountUmount
            } else {
                ChildFailureKind::Exec
            };
            let value: u32 = bytes[1] as u32 + (bytes[2] as u32) * 256 + (bytes[3] as u32) * 65536
                + (high as u32) * 16777216;
            Ok(Some(ChildFailure { kind, errno: value as i32 }))
        } else {
            Err(Error::ChildError(ChildError::PipeError))
        }
    } else {
        Err(Error::ChildError(ChildError::PipeError))
    }
}

/// The engine error a decoded child failure surfaces as.
pub open spec fn spec_failure_error(f: ChildFailure) -> Error {
    match f.kind {
        ChildFailureKind::MountBind => Error::MountError(MountOperation::Bind),
        ChildFailureKind::MountRemount => Error::MountError(MountOperation::Remount),
        ChildFailureKind::MountPivot => Error::MountError(MountOperation::Pivot),
        ChildFailureKind::MountUmount => Error::MountError(MountOperation::Umount),
        ChildFailureKind::Exec => Error::ChildError(ChildError::ExecError(f.errno)),
    }
}

/// Maps a decoded child failure to the error the run returns: a mount
/// failure keeps its operation, an `exec` failure keeps its errno.
pub fn child_failure_to_error(f: &ChildFailure) -> (e: Error)
    ensures
        e == spec_failure_error(*f),
{
    match f.kind {
        ChildFailureKind::MountBind => Error::MountError(MountOperation::Bind),
        ChildFailureKind::MountRemount => Error::MountError(MountOperation::Remount),
        ChildFailureKind::MountPivot => Error::MountError(MountOperation::Pivot),
        ChildFailureKind::MountUmount => Error::MountError(MountOperation::Umount),
        ChildFailureKind::Exec => Error::ChildError(ChildError::ExecError(f.errno)),
    }
}

/// Recomposing the four little-endian bytes of a nonnegative 32-bit value
/// gives the value back, and the high byte stays under 128.
proof fn lemma_le_bytes_value(value: u32)
    requires
        value < 0x80000000,
    ensures
        le_value(le_bytes(value)[0], le_bytes(value)[1], le_bytes(value)[2], le_bytes(value)[3])
            == value,
        le_bytes(value)[3] < 128,
{
    let v = value as int;
    lemma_fundamental_div_mod(v, 256);
    lemma_div_denominator(v, 256, 256);
    lemma_fundamental_div_mod(v / 256, 256);
    lemma_div_denominator(v, 65536, 256);
    lemma_fundamental_div_mod(v / 65536, 256);
    lemma_div_is_ordered(v, 0x7fffffff, 16777216);
    assert(0x7fffffff as int / 16777216 == 127);
    lemma_small_mod((v / 16777216) as nat, 256);
}

/// Whatever bytes the pipe hands over, a failure the decoder accepts is
/// well formed: its errno is never negative.
pub proof fn lemma_decoded_failures_are_wf(bytes: Seq<u8>)
    ensures
        spec_decode(bytes) matches Ok(Some(f)) ==> f.wf(),
{
    if bytes.len() == 5 && 1 <= bytes[0] && bytes[0] <= 5 && bytes[4] < 128 {
        assert(le_value(bytes[1], bytes[2], bytes[3], bytes[4]) < 0x80000000);
    }
}

/// Round trip: a well-formed child failure, encoded into its status-pipe
/// record and decoded again, comes back exactly, and never as an empty or
/// malformed read.
pub proof fn lemma_record_round_trip(f: ChildFailure)
    requires
        f.wf(),
    ensures
        spec_decode(spec_record(f)) == Ok::<Option<ChildFailure>, Error>(Some(f)),
{
    let bytes = spec_record(f);
    let value = f.errno as u32;
    lemma_le_bytes_value(value);
    assert(bytes.len() == 5);
    assert(bytes[0] == kind_tag(f.kind));
    assert(bytes[1] == le_bytes(value)[0]);
    assert(bytes[2] == le_bytes(value)[1]);
    assert(bytes[3] == le_bytes(value)[2]);
    assert(bytes[4] == le_bytes(value)[3]);
    assert(tag_kind(kind_tag(f.kind)) == f.kind);
    assert(le_value(bytes[1], bytes[2], bytes[3], bytes[4]) == value);
}

} // verus!
