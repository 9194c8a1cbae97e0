//! Request codes and argument records of the two control operations on the
//! fault-notification channel.

use vstd::prelude::*;

verus! {

/// The version of the fault-notification interface that the handshake asks for.
pub const UFFD_API: u64 = 0xAA;

/// Request code of the version handshake.
pub const UFFDIO_API: u64 = 0xc018aa3f;

/// Request code of the region registration.
pub const UFFDIO_REGISTER: u64 = 0xc020aa00;

/// Registration mode: notify on access to a missing page.
pub const UFFDIO_REGISTER_MODE_MISSING: u64 = 0x01;

/// Size in bytes of the handshake's argument record: three 64-bit words.
pub const API_RECORD_SIZE: u64 = 24;

/// Size in bytes of the registration's argument record: four 64-bit words.
pub const REGISTER_RECORD_SIZE: u64 = 32;

/// The code of a control request that both passes a record of `size` bytes
/// to the kernel and reads it back: direction bits 30 and 31 set, the size in
/// bits 16 to 29, the type in bits 8 to 15, the number in bits 0 to 7.
pub open spec fn iowr(ty: u64, nr: u64, size: u64) -> u64 {
    (3u64 << 30) | (size << 16) | (ty << 8) | nr
}

/// Argument record of the version handshake.
#[derive(Clone, Copy, Debug, PartialEq, Eq, Structural)]
pub struct ApiRecord {
    pub api: u64,
    pub features: u64,
    pub ioctls: u64,
}

/// An address range.
#[derive(Clone, Copy, Debug, PartialEq, Eq, Structural)]
pub struct RangeRecord {
    pub start: u64,
    pub len: u64,
}

/// Argument record of the region registration.
#[derive(Clone, Copy, Debug, PartialEq, Eq, Structural)]
pub struct RegisterRecord {
    pub range: RangeRecord,
    pub mode: u64,
    pub ioctls: u64,
}

/// The record that the handshake sends: the interface version, no optional
/// features, and an empty field for the kernel's answer.
pub open spec fn api_record() -> ApiRecord {
    ApiRecord { api: UFFD_API, features: 0, ioctls: 0 }
}

/// The record that registers `[start, start + len)` for missing-page
/// notifications and nothing else.
pub open spec fn register_record(start: u64, len: u64) -> RegisterRecord {
    RegisterRecord {
        range: RangeRecord { start, len },
        mode: UFFDIO_REGISTER_MODE_MISSING,
        ioctls: 0,
    }
}

/// The two request codes are those of read-write requests of type `0xAA`,
/// numbers `0x3F` and `0x00`, with the sizes of their argument records.
pub proof fn request_codes_encode_records()
    ensures
        UFFDIO_API == iowr(0xAA, 0x3F, API_RECORD_SIZE),
        UFFDIO_REGISTER == iowr(0xAA, 0x00, REGISTER_RECORD_SIZE),
{
    assert(0xc018aa3fu64 == (3u64 << 30) | (24u64 << 16) | (0xAAu64 << 8) | 0x3Fu64)
        by (bit_vector);
    assert(0xc020aa00u64 == (3u64 << 30) | (32u64 << 16) | (0xAAu64 << 8) | 0x00u64)
        by (bit_vector);
}

/// Builds the handshake's argument record.
pub fn new_api_record() -> (rec: ApiRecord)
    ensures
        rec == api_record(),
{
    ApiRecord { api: UFFD_API, features: 0, ioctls: 0 }
}

/// Builds the registration record for `[start, start + len)`.
pub fn new_register_record(start: u64, len: u64) -> (rec: RegisterRecord)
    ensures
        rec == register_record(start, len),
{
    RegisterRecord {
        range: RangeRecord { start, len },
        mode: UFFDIO_REGISTER_MODE_MISSING,
        ioctls: 0,
    }
}

} // verus!
