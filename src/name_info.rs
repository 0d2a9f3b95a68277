//! The Windows backend: `GetFileInformationByHandleEx` with the
//! `FileNameInfo` class fills a buffer with a `FILE_NAME_INFO` record, a
//! little-endian 32-bit byte count followed by that many bytes of UTF-16
//! code units, not necessarily NUL-terminated.
use vstd::prelude::*;

use crate::error::OsError;

verus! {

/// Size of the buffer handed to the query.
pub const NAME_INFO_BUFFER_LEN: usize = 4096;

/// Size of the record's `FileNameLength` field, which precedes the name.
pub const NAME_LENGTH_FIELD: usize = 4;

/// The value (`FALSE`) by which the query reports failure.
pub const QUERY_FAILED: i32 = 0;

/// The byte count that the record's length field holds.
pub open spec fn reported_length(s: Seq<u8>) -> int
    recommends
        s.len() >= 4,
{
    s[0] as int + 256 * s[1] as int + 65536 * s[2] as int + 16777216 * s[3] as int
}

/// The number of name bytes taken from the record: the reported count,
/// clamped to what the buffer holds after the length field; none when the
/// buffer cannot even hold the length field.
pub open spec fn name_byte_count(s: Seq<u8>) -> int {
    if s.len() < 4 {
        0
    } else if reported_length(s) <= s.len() - 4 {
        reported_length(s)
    } else {
        s.len() - 4
    }
}

/// The UTF-16 code unit stored little-endian at `s[at]`, `s[at + 1]`.
pub open spec fn unit_at(s: Seq<u8>, at: int) -> u16 {
    (s[at] as int + 256 * s[at + 1] as int) as u16
}

/// The name carried by the record: `name_byte_count(s) / 2` code units read
/// from just after the length field.
pub open spec fn wide_name(s: Seq<u8>) -> Seq<u16> {
    Seq::new((name_byte_count(s) / 2) as nat, |i: int| unit_at(s, 4 + 2 * i))
}

/// A record whose length field reports fewer than two bytes carries the
/// empty name.
pub proof fn lemma_zero_length_name_is_empty(s: Seq<u8>)
    requires
        s.len() >= 4,
        reported_length(s) < 2,
    ensures
        wide_name(s) == Seq::<u16>::empty(),
{
    assert(wide_name(s) =~= Seq::<u16>::empty());
}

/// The name never reaches past the buffer; and where the reported byte
/// count fits in the buffer, the name has exactly half that many code units,
/// so a name that fills the buffer to its last byte, or to one byte below
/// it, is neither cut short nor read beyond.
pub proof fn lemma_name_within_buffer(s: Seq<u8>)
    ensures
        4 + 2 * wide_name(s).len() <= s.len() || wide_name(s).len() == 0,
        s.len() >= 4 && reported_length(s) <= s.len() - 4 ==> wide_name(s).len()
            == reported_length(s) / 2,
{
}

/// The number of name bytes to read from a filled record, as
/// `name_byte_count` states it.
pub fn name_bytes_in(buf: &[u8]) -> (n: usize)
    ensures
        n as int == name_byte_count(buf@),
        n as int + 4 <= buf@.len() || n == 0,
{
    if buf.len() < NAME_LENGTH_FIELD {
        return 0;
    }
    let reported: u64 = buf[0] as u64 + 256 * (buf[1] as u64) + 65536 * (buf[2] as u64)
        + 16777216 * (buf[3] as u64);
    let room: usize = buf.len() - NAME_LENGTH_FIELD;
    if reported <= room as u64 {
        reported as usize
    } else {
        room
    }
}

/// Decodes the name of a `FILE_NAME_INFO` record into UTF-16 code units,
/// trusting the length field only as far as the buffer reaches.
pub fn name_from_info_buffer(buf: &[u8]) -> (r: Vec<u16>)
    ensures
        r@ == wide_name(buf@),
{
    let units: usize = name_bytes_in(buf) / 2;
    let mut r: Vec<u16> = Vec::with_capacity(units);
    let mut i: usize = 0;
    while i < units
        invariant
            units == name_byte_count(buf@) / 2,
            units == 0 || 4 + 2 * units <= buf@.len(),
            0 <= i <= units,
            r@.len() == i,
            forall|k: int| 0 <= k < i ==> r@[k] == unit_at(buf@, 4 + 2 * k),
        decreases units - i,
    {
        assert(4 + 2 * i + 1 < buf.len());
        let lo: u16 = buf[NAME_LENGTH_FIELD + 2 * i] as u16;
        let hi: u16 = buf[NAME_LENGTH_FIELD + 2 * i + 1] as u16;
        r.push(lo + 256 * hi);
        i = i + 1;
    }
    assert(r@ =~= wide_name(buf@));
    r
}

/// The outcome of a `FileNameInfo` query that returned `ret` and left `buf`
/// behind: the OS error `last_error` when `ret` is `FALSE`, and otherwise the
/// name that the record carries.
pub fn name_info_result(ret: i32, buf: &[u8], last_error: i32) -> (r: Result<Vec<u16>, OsError>)
    ensures
        ret == QUERY_FAILED ==> r == Err::<Vec<u16>, OsError>(OsError { code: last_error }),
        ret != QUERY_FAILED ==> r is Ok && r->Ok_0@ == wide_name(buf@),
{
    if ret == QUERY_FAILED {
        Err(OsError::from_raw(last_error))
    } else {
        Ok(name_from_info_buffer(buf))
    }
}

} // verus!
