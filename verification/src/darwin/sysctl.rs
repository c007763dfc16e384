//! Typed access to Darwin kernel controls.

use vstd::prelude::*;
use vstd::endian::{Endian, endianness};
use crate::text::{decimal_chars, push_decimal, push_str, string_from_chars};

verus! {

broadcast use vstd::string::group_string_axioms;

pub const IOGPU_WIRED_LIMIT_KEY: &'static str = "iogpu.wired_limit_mb";

#[derive(Debug, Clone, PartialEq, Eq)]
pub enum SysctlError {
    InvalidKey(String),
    /// A `sysctlbyname` call failed; the message of the OS error.
    Operation { operation: &'static str, key: String, source: String },
    InvalidWidth { key: String, expected: usize, actual: usize },
}

impl SysctlError {
    pub fn message(&self) -> (r: String)
        ensures
            r@ == match *self {
                SysctlError::InvalidKey(k) => "sysctl key contains an interior NUL byte: "@ + k@,
                SysctlError::Operation { operation, key, source } => "sysctl "@ + operation@
                    + " failed for "@ + key@ + ": "@ + source@,
                SysctlError::InvalidWidth { key, expected, actual } => "sysctl "@ + key@
                    + " returned "@ + decimal_chars(actual as nat) + " bytes; expected "@
                    + decimal_chars(expected as nat),
            },
    {
        let mut out: Vec<char> = Vec::new();
        match self {
            SysctlError::InvalidKey(k) => {
                push_str(&mut out, "sysctl key contains an interior NUL byte: ");
                push_str(&mut out, k.as_str());
            },
            SysctlError::Operation { operation, key, source } => {
                push_str(&mut out, "sysctl ");
                push_str(&mut out, operation);
                push_str(&mut out, " failed for ");
                push_str(&mut out, key.as_str());
                push_str(&mut out, ": ");
                push_str(&mut out, source.as_str());
            },
            SysctlError::InvalidWidth { key, expected, actual } => {
                push_str(&mut out, "sysctl ");
                push_str(&mut out, key.as_str());
                push_str(&mut out, " returned ");
                push_decimal(&mut out, *actual as u64);
                push_str(&mut out, " bytes; expected ");
                push_decimal(&mut out, *expected as u64);
            },
        }
        string_from_chars(&out)
    }
}

/// Reads a kernel control; implemented by the host binding and by tests.
pub trait SysctlRead {
    fn read(&self, key: &str) -> Result<Vec<u8>, SysctlError>;
}

/// Writes a kernel control; implemented by the host binding and by tests.
pub trait SysctlWrite {
    fn write(&self, key: &str, value: &[u8]) -> Result<(), SysctlError>;
}

/// The host's own `sysctlbyname`.
#[derive(Debug, Clone, Copy)]
pub struct NativeSysctl;

/// Value of bytes read least significant first.
pub open spec fn le_value(b: Seq<u8>) -> nat
    decreases b.len(),
{
    if b.len() == 0 {
        0
    } else {
        b[0] as nat + 256 * le_value(b.drop_first())
    }
}

/// Value of bytes read most significant first.
pub open spec fn be_value(b: Seq<u8>) -> nat
    decreases b.len(),
{
    if b.len() == 0 {
        0
    } else {
        be_value(b.drop_last()) * 256 + b.last() as nat
    }
}

/// Value of bytes in the byte order of the executing machine.
pub open spec fn ne_value(b: Seq<u8>) -> nat {
    match endianness() {
        Endian::Little => le_value(b),
        Endian::Big => be_value(b),
    }
}

/// `u64::from_ne_bytes`: the value of the bytes in machine byte order.
#[verifier::external_body]
fn u64_from_ne_bytes(bytes: [u8; 8]) -> (r: u64)
    ensures
        r as nat == ne_value(bytes@),
{
    u64::from_ne_bytes(bytes)
}

/// `u64::to_ne_bytes`: the bytes of the value in machine byte order.
#[verifier::external_body]
fn u64_to_ne_bytes(value: u64) -> (r: [u8; 8])
    ensures
        ne_value(r@) == value as nat,
{
    value.to_ne_bytes()
}

/// What reading an unsigned control of `key` from `bytes` gives: their
/// value in machine byte order when there are eight, else a width error.
pub open spec fn decodes(key: Seq<char>, bytes: Seq<u8>, r: Result<u64, SysctlError>) -> bool {
    if bytes.len() == 8 {
        r matches Ok(v) && v as nat == ne_value(bytes)
    } else {
        r matches Err(SysctlError::InvalidWidth { key: k, expected, actual }) && k@ == key
            && expected == 8 && actual == bytes.len()
    }
}

/// The wired-memory limit that a read of its control gives: the read's
/// error, or the decoded bytes.
pub open spec fn limit_from_read(read: Result<Vec<u8>, SysctlError>, r: Result<u64, SysctlError>) -> bool {
    match read {
        Err(e) => r == Err::<u64, SysctlError>(e),
        Ok(bytes) => decodes(IOGPU_WIRED_LIMIT_KEY@, bytes@, r),
    }
}

/// Reads an unsigned control of exactly eight bytes in machine byte order.
pub fn decode_u64(key: &str, bytes: &[u8]) -> (r: Result<u64, SysctlError>)
    ensures
        decodes(key@, bytes@, r),
        bytes@.len() == 8 ==> (r matches Ok(v) && v as nat == ne_value(bytes@)),
        bytes@.len() != 8 ==> (r matches Err(SysctlError::InvalidWidth { key: k, expected, actual })
            && k@ == key@ && expected == 8 && actual == bytes@.len()),
{
    if bytes.len() != 8 {
        return Err(SysctlError::InvalidWidth { key: key.to_owned(), expected: 8, actual: bytes.len() });
    }
    let array: [u8; 8] = [bytes[0], bytes[1], bytes[2], bytes[3], bytes[4], bytes[5], bytes[6], bytes[7]];
    assert(array@ =~= bytes@);
    Ok(u64_from_ne_bytes(array))
}

/// The GPU wired-memory limit in MiB.
/// Reads the control `iogpu.wired_limit_mb` once through `backend`; the
/// result is what `limit_from_read` makes of that read, whatever it gave.
pub fn wired_limit_mb<B: SysctlRead>(backend: &B) -> (r: Result<u64, SysctlError>)
    ensures
        exists|read: Result<Vec<u8>, SysctlError>|
            call_ensures(B::read, (backend, IOGPU_WIRED_LIMIT_KEY), read) && #[trigger] limit_from_read(
                read,
                r,
            ),
{
    let read_control = B::read;
    let read = read_control(backend, IOGPU_WIRED_LIMIT_KEY);
    let ghost seen = read;
    let r = match read {
        Err(e) => Err(e),
        Ok(bytes) => decode_u64(IOGPU_WIRED_LIMIT_KEY, bytes.as_slice()),
    };
    assert(call_ensures(B::read, (backend, IOGPU_WIRED_LIMIT_KEY), seen));
    assert(limit_from_read(seen, r));
    r
}

/// The bytes that set the GPU wired-memory limit to `limit_mb`.
pub fn wired_limit_payload(limit_mb: u64) -> (r: [u8; 8])
    ensures
        ne_value(r@) == limit_mb as nat,
{
    u64_to_ne_bytes(limit_mb)
}

/// Sets the GPU wired-memory limit in MiB.
/// Writes the control `iogpu.wired_limit_mb` once through `backend`, with
/// the eight bytes of `limit_mb` in machine byte order; the result is that
/// write's.
pub fn set_wired_limit_mb<B: SysctlWrite>(backend: &B, limit_mb: u64) -> (r: Result<(), SysctlError>)
    ensures
        exists|payload: &[u8]|
            payload@.len() == 8 && ne_value(payload@) == limit_mb as nat && #[trigger] call_ensures(
                B::write,
                (backend, IOGPU_WIRED_LIMIT_KEY, payload),
                r,
            ),
{
    let payload = wired_limit_payload(limit_mb);
    let write_control = B::write;
    write_control(backend, IOGPU_WIRED_LIMIT_KEY, payload.as_slice())
}

/// Reading back what was written gives the limit: the payload for
/// `limit_mb` (as `wired_limit_payload` builds it) decodes (as `decode_u64`
/// reads eight bytes) to `limit_mb`.
pub proof fn lemma_payload_round_trip(limit_mb: u64, payload: Seq<u8>, decoded: u64)
    requires
        payload.len() == 8,
        ne_value(payload) == limit_mb as nat,
        decoded as nat == ne_value(payload),
    ensures
        decoded == limit_mb,
{
}

/// Restores a previous wired-memory limit when armed.
pub struct WiredLimitGuard<'a, B: SysctlWrite> {
    backend: &'a B,
    previous_mb: u64,
    armed: bool,
}

} // verus!
