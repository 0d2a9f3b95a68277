//! The macOS / iOS backend: `fcntl(fd, F_GETPATH, buf)` writes a
//! NUL-terminated path into a buffer of `MAXPATHLEN` bytes.
use vstd::prelude::*;

use crate::error::OsError;

verus! {

/// Size of the buffer handed to `F_GETPATH` (the platform's `MAXPATHLEN`).
pub const MAXPATHLEN: usize = 1024;

/// The return value by which `fcntl` reports failure.
pub const FCNTL_FAILED: i32 = -1;

/// The bytes of `s` before its first NUL byte; all of `s` when it holds none.
pub open spec fn c_name(s: Seq<u8>) -> Seq<u8>
    decreases s.len(),
{
    if s.len() == 0 || s[0] == 0 {
        Seq::<u8>::empty()
    } else {
        seq![s[0]] + c_name(s.drop_first())
    }
}

/// `e` is where the name in `s` ends: no NUL byte comes before it, and it is
/// either the end of `s` or the position of a NUL byte.
pub open spec fn is_name_end(s: Seq<u8>, e: int) -> bool {
    &&& 0 <= e <= s.len()
    &&& forall|j: int| 0 <= j < e ==> s[j] != 0
    &&& (e == s.len() || s[e] == 0)
}

/// The name in a buffer is the prefix up to the first NUL byte, or the whole
/// buffer when it holds no NUL byte; in particular its length is exactly `e`,
/// whether `e` is the buffer's full size or one below it.
pub proof fn lemma_c_name_ends_at(s: Seq<u8>, e: int)
    requires
        is_name_end(s, e),
    ensures
        c_name(s) == s.subrange(0, e),
        c_name(s).len() == e,
    decreases e,
{
    if e == 0 {
        assert(s.subrange(0, 0) =~= Seq::<u8>::empty());
    } else {
        let t = s.drop_first();
        assert(is_name_end(t, e - 1));
        lemma_c_name_ends_at(t, e - 1);
        assert(s.subrange(0, e) =~= seq![s[0]] + t.subrange(0, e - 1));
    }
}

/// A buffer whose first byte is NUL, or which is empty, names the empty
/// path.
pub proof fn lemma_zero_length_name_is_empty(s: Seq<u8>)
    requires
        s.len() == 0 || s[0] == 0,
    ensures
        c_name(s) == Seq::<u8>::empty(),
{
}

/// A buffer with no NUL byte at all names all of its bytes: the name is as
/// long as the buffer, with nothing read beyond it.
pub proof fn lemma_unterminated_name_fills_buffer(s: Seq<u8>)
    requires
        forall|j: int| 0 <= j < s.len() ==> s[j] != 0,
    ensures
        c_name(s) == s,
{
    lemma_c_name_ends_at(s, s.len() as int);
    assert(s.subrange(0, s.len() as int) =~= s);
}

/// The position of the first NUL byte of `buf`, or its length when it holds
/// none.
pub fn name_end(buf: &[u8]) -> (e: usize)
    ensures
        is_name_end(buf@, e as int),
{
    let mut i: usize = 0;
    while i < buf.len()
        invariant
            0 <= i <= buf@.len(),
            forall|j: int| 0 <= j < i ==> buf@[j] != 0,
        decreases buf@.len() - i,
    {
        if buf[i] == 0 {
            return i;
        }
        i = i + 1;
    }
    i
}

/// The name held by a buffer that `F_GETPATH` filled: the bytes before the
/// first NUL byte, never reading past the buffer.
pub fn name_from_path_buffer(buf: &[u8]) -> (r: Vec<u8>)
    ensures
        r@ == c_name(buf@),
{
    let end = name_end(buf);
    proof {
        lemma_c_name_ends_at(buf@, end as int);
    }
    let mut r: Vec<u8> = Vec::with_capacity(end);
    let mut i: usize = 0;
    while i < end
        invariant
            end <= buf@.len(),
            0 <= i <= end,
            r@ == buf@.subrange(0, i as int),
        decreases end - i,
    {
        r.push(buf[i]);
        i = i + 1;
        assert(r@ =~= buf@.subrange(0, i as int));
    }
    r
}

/// The outcome of an `F_GETPATH` query that returned `ret` and left `buf`
/// behind: the OS error `last_error` when `ret` is the failure value, and
/// otherwise the name held by the buffer.
pub fn getpath_result(ret: i32, buf: &[u8], last_error: i32) -> (r: Result<Vec<u8>, OsError>)
    ensures
        ret == FCNTL_FAILED ==> r == Err::<Vec<u8>, OsError>(OsError { code: last_error }),
        ret != FCNTL_FAILED ==> r is Ok && r->Ok_0@ == c_name(buf@),
{
    if ret == FCNTL_FAILED {
        Err(OsError::from_raw(last_error))
    } else {
        Ok(name_from_path_buffer(buf))
    }
}

} // verus!
