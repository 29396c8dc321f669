//! Status codes, information classes and the process structures through which
//! another process's command line is reached, decoded from the bytes that a
//! query or a memory read hands back.
//!
//! Native structures are those of a 64-bit process (eight-byte pointers);
//! the `_32` structures are those of a 32-bit process under the compatibility
//! layer (four-byte pointers). All integers are little-endian.
#![allow(non_snake_case)]
#![allow(non_camel_case_types)]

use vstd::prelude::*;

verus! {

/// The unsigned value of the two bytes at `at`.
pub open spec fn le16(b: Seq<u8>, at: int) -> nat {
    (b[at] + 256 * b[at + 1]) as nat
}

/// The unsigned value of the four bytes at `at`.
pub open spec fn le32(b: Seq<u8>, at: int) -> nat {
    le16(b, at) + 65536 * le16(b, at + 2)
}

/// The unsigned value of the eight bytes at `at`.
pub open spec fn le64(b: Seq<u8>, at: int) -> nat {
    le32(b, at) + 4294967296 * le32(b, at + 4)
}

pub fn read_u16_le(b: &[u8], at: usize) -> (r: u16)
    requires
        at + 2 <= b.len(),
    ensures
        r == le16(b@, at as int),
{
    b[at] as u16 + 256 * (b[at + 1] as u16)
}

pub fn read_u32_le(b: &[u8], at: usize) -> (r: u32)
    requires
        at + 4 <= b.len(),
    ensures
        r == le32(b@, at as int),
{
    let lo = read_u16_le(b, at);
    let hi = read_u16_le(b, at + 2);
    lo as u32 + 65536 * (hi as u32)
}

pub fn read_u64_le(b: &[u8], at: usize) -> (r: u64)
    requires
        at + 8 <= b.len(),
    ensures
        r == le64(b@, at as int),
{
    let lo = read_u32_le(b, at);
    let hi = read_u32_le(b, at + 4);
    lo as u64 + 4294967296 * (hi as u64)
}

/// Whether an NTSTATUS value reports success (or an informational status).
pub fn NT_SUCCESS(status: i32) -> (r: bool)
    ensures
        r == (status >= 0),
{
    status >= 0
}

/// The information classes of the process query that this library asks for.
#[derive(Debug, Clone, Copy, PartialEq, Eq, Structural)]
pub enum PROCESSINFOCLASS {
    /// Answered with a `PROCESS_BASIC_INFORMATION`.
    ProcessBasicInformation,
    /// Answered with the address of a compatibility-layer process's 32-bit
    /// environment block, as a native pointer.
    ProcessWow64Information,
}

impl PROCESSINFOCLASS {
    pub open spec fn spec_code(self) -> u32 {
        match self {
            PROCESSINFOCLASS::ProcessBasicInformation => 0,
            PROCESSINFOCLASS::ProcessWow64Information => 26,
        }
    }

    /// The number that the system call takes for this class.
    pub fn code(&self) -> (r: u32)
        ensures
            r == self.spec_code(),
    {
        match self {
            PROCESSINFOCLASS::ProcessBasicInformation => 0,
            PROCESSINFOCLASS::ProcessWow64Information => 26,
        }
    }
}

pub const PROCESS_BASIC_INFORMATION_SIZE: usize = 48;

pub const PROCESS_ENVIRONMENT_BLOCK_SIZE: usize = 40;

pub const PROCESS_ENVIRONMENT_BLOCK_32_SIZE: usize = 20;

pub const RTL_USER_PROCESS_PARAMETERS_SIZE: usize = 128;

pub const RTL_USER_PROCESS_PARAMETERS_32_SIZE: usize = 72;

/// The size of the answer to a `ProcessWow64Information` query: one native pointer.
pub const WOW64_INFORMATION_SIZE: usize = 8;

/// What a `ProcessBasicInformation` query returns, as far as it is read here.
/// Layout: reserved pointer, environment block address at 8, two reserved
/// pointers, process id at 32, a reserved pointer; 48 bytes.
#[derive(Debug, Clone, Copy, PartialEq, Eq, Structural)]
pub struct PROCESS_BASIC_INFORMATION {
    pub PebBaseAddress: u64,
    pub UniqueProcessId: u64,
}

impl PROCESS_BASIC_INFORMATION {
    pub fn from_bytes(b: &[u8]) -> (r: Self)
        requires
            b@.len() == PROCESS_BASIC_INFORMATION_SIZE,
        ensures
            r.PebBaseAddress == le64(b@, 8),
            r.UniqueProcessId == le64(b@, 32),
    {
        PROCESS_BASIC_INFORMATION {
            PebBaseAddress: read_u64_le(b, 8),
            UniqueProcessId: read_u64_le(b, 32),
        }
    }
}

/// The head of a native process environment block.
/// Layout: two reserved bytes, `BeingDebugged` at 2, a reserved byte, padding,
/// two reserved pointers from 8, `Ldr` at 24, `ProcessParameters` at 32; 40 bytes.
#[derive(Debug, Clone, Copy, PartialEq, Eq, Structural)]
pub struct PROCESS_ENVIRONMENT_BLOCK {
    pub BeingDebugged: u8,
    pub Ldr: u64,
    pub ProcessParameters: u64,
}

impl PROCESS_ENVIRONMENT_BLOCK {
    pub fn from_bytes(b: &[u8]) -> (r: Self)
        requires
            b@.len() == PROCESS_ENVIRONMENT_BLOCK_SIZE,
        ensures
            r.BeingDebugged == b@[2],
            r.Ldr == le64(b@, 24),
            r.ProcessParameters == le64(b@, 32),
    {
        PROCESS_ENVIRONMENT_BLOCK {
            BeingDebugged: b[2],
            Ldr: read_u64_le(b, 24),
            ProcessParameters: read_u64_le(b, 32),
        }
    }
}

/// The head of a 32-bit process environment block.
/// Layout: two reserved bytes, `BeingDebugged` at 2, a reserved byte, two
/// reserved pointers from 4, `Ldr` at 12, `ProcessParameters` at 16; 20 bytes.
#[derive(Debug, Clone, Copy, PartialEq, Eq, Structural)]
pub struct PROCESS_ENVIRONMENT_BLOCK_32 {
    pub BeingDebugged: u8,
    pub Ldr: u32,
    pub ProcessParameters: u32,
}

impl PROCESS_ENVIRONMENT_BLOCK_32 {
    pub fn from_bytes(b: &[u8]) -> (r: Self)
        requires
            b@.len() == PROCESS_ENVIRONMENT_BLOCK_32_SIZE,
        ensures
            r.BeingDebugged == b@[2],
            r.Ldr == le32(b@, 12),
            r.ProcessParameters == le32(b@, 16),
    {
        PROCESS_ENVIRONMENT_BLOCK_32 {
            BeingDebugged: b[2],
            Ldr: read_u32_le(b, 12),
            ProcessParameters: read_u32_le(b, 16),
        }
    }
}

/// A counted UTF-16 string of a native process: byte length, capacity,
/// padding, then the address of its first unit; 16 bytes.
#[derive(Debug, Clone, Copy, PartialEq, Eq, Structural)]
pub struct UNICODE_STRING {
    pub Length: u16,
    pub MaximumLength: u16,
    pub Buffer: u64,
}

impl UNICODE_STRING {
    pub fn from_bytes_at(b: &[u8], at: usize) -> (r: Self)
        requires
            at + 16 <= b.len(),
        ensures
            r.Length == le16(b@, at as int),
            r.MaximumLength == le16(b@, at + 2),
            r.Buffer == le64(b@, at + 8),
    {
        UNICODE_STRING {
            Length: read_u16_le(b, at),
            MaximumLength: read_u16_le(b, at + 2),
            Buffer: read_u64_le(b, at + 8),
        }
    }
}

/// A counted UTF-16 string of a 32-bit process: byte length, capacity, then
/// the address of its first unit; 8 bytes.
#[derive(Debug, Clone, Copy, PartialEq, Eq, Structural)]
pub struct UNICODE_STRING_32 {
    pub Length: u16,
    pub MaximumLength: u16,
    pub Buffer: u32,
}

impl UNICODE_STRING_32 {
    pub fn from_bytes_at(b: &[u8], at: usize) -> (r: Self)
        requires
            at + 8 <= b.len(),
        ensures
            r.Length == le16(b@, at as int),
            r.MaximumLength == le16(b@, at + 2),
            r.Buffer == le32(b@, at + 4),
    {
        UNICODE_STRING_32 {
            Length: read_u16_le(b, at),
            MaximumLength: read_u16_le(b, at + 2),
            Buffer: read_u32_le(b, at + 4),
        }
    }
}

/// The start of a native process's parameters: 16 reserved bytes, ten
/// reserved pointers, then the image path at 96 and the command line at 112;
/// 128 bytes.
#[derive(Debug, Clone, Copy, PartialEq, Eq, Structural)]
pub struct RTL_USER_PROCESS_PARAMETERS {
    pub ImagePathName: UNICODE_STRING,
    pub CommandLine: UNICODE_STRING,
}

impl RTL_USER_PROCESS_PARAMETERS {
    pub fn from_bytes(b: &[u8]) -> (r: Self)
        requires
            b@.len() == RTL_USER_PROCESS_PARAMETERS_SIZE,
        ensures
            r.ImagePathName.Length == le16(b@, 96),
            r.ImagePathName.Buffer == le64(b@, 104),
            r.CommandLine.Length == le16(b@, 112),
            r.CommandLine.MaximumLength == le16(b@, 114),
            r.CommandLine.Buffer == le64(b@, 120),
    {
        RTL_USER_PROCESS_PARAMETERS {
            ImagePathName: UNICODE_STRING::from_bytes_at(b, 96),
            CommandLine: UNICODE_STRING::from_bytes_at(b, 112),
        }
    }
}

/// The start of a 32-bit process's parameters: 16 reserved bytes, ten
/// reserved pointers, then the image path at 56 and the command line at 64;
/// 72 bytes.
#[derive(Debug, Clone, Copy, PartialEq, Eq, Structural)]
pub struct RTL_USER_PROCESS_PARAMETERS_32 {
    pub ImagePathName: UNICODE_STRING_32,
    pub CommandLine: UNICODE_STRING_32,
}

impl RTL_USER_PROCESS_PARAMETERS_32 {
    pub fn from_bytes(b: &[u8]) -> (r: Self)
        requires
            b@.len() == RTL_USER_PROCESS_PARAMETERS_32_SIZE,
        ensures
            r.ImagePathName.Length == le16(b@, 56),
            r.ImagePathName.Buffer == le32(b@, 60),
            r.CommandLine.Length == le16(b@, 64),
            r.CommandLine.MaximumLength == le16(b@, 66),
            r.CommandLine.Buffer == le32(b@, 68),
    {
        RTL_USER_PROCESS_PARAMETERS_32 {
            ImagePathName: UNICODE_STRING_32::from_bytes_at(b, 56),
            CommandLine: UNICODE_STRING_32::from_bytes_at(b, 64),
        }
    }
}

} // verus!
