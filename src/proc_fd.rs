//! The Linux / Android backend: the kernel shows each open descriptor of the
//! process as a symbolic link `/proc/self/fd/<fd>` to the file it refers to.
use vstd::prelude::*;

verus! {

/// The ASCII digits of `n` in base ten, most significant first, without
/// leading zeros.
pub open spec fn decimal(n: nat) -> Seq<u8>
    decreases n,
{
    if n < 10 {
        seq![('0' as u8 + n) as u8]
    } else {
        decimal(n / 10) + seq![('0' as u8 + n % 10) as u8]
    }
}

/// `n` in base ten, with a leading `-` when it is negative.
pub open spec fn signed_decimal(n: int) -> Seq<u8> {
    if n < 0 {
        seq!['-' as u8] + decimal((-n) as nat)
    } else {
        decimal(n as nat)
    }
}

/// The directory whose entries stand for the process's open descriptors.
pub open spec fn proc_fd_dir() -> Seq<u8> {
    seq![
        '/' as u8, 'p' as u8, 'r' as u8, 'o' as u8, 'c' as u8, '/' as u8, 's' as u8,
        'e' as u8, 'l' as u8, 'f' as u8, '/' as u8, 'f' as u8, 'd' as u8, '/' as u8,
    ]
}

/// The link that stands for descriptor `fd`.
pub open spec fn proc_fd_link(fd: int) -> Seq<u8> {
    proc_fd_dir() + signed_decimal(fd)
}

/// Appends the base-ten digits of `n` to `out`.
pub fn push_decimal(n: u64, out: &mut Vec<u8>)
    ensures
        final(out)@ == old(out)@ + decimal(n as nat),
    decreases n,
{
    if n < 10 {
        out.push('0' as u8 + n as u8);
        assert(out@ =~= old(out)@ + decimal(n as nat));
    } else {
        push_decimal(n / 10, out);
        out.push('0' as u8 + (n % 10) as u8);
        assert(out@ =~= old(out)@ + decimal(n as nat));
    }
}

/// The path of the symbolic link that names the file open as `fd`:
/// `/proc/self/fd/` followed by `fd` in base ten.
pub fn proc_fd_link_path(fd: i32) -> (r: Vec<u8>)
    ensures
        r@ == proc_fd_link(fd as int),
{
    let mut r: Vec<u8> = vec![
        '/' as u8, 'p' as u8, 'r' as u8, 'o' as u8, 'c' as u8, '/' as u8, 's' as u8,
        'e' as u8, 'l' as u8, 'f' as u8, '/' as u8, 'f' as u8, 'd' as u8, '/' as u8,
    ];
    assert(r@ =~= proc_fd_dir());
    if fd < 0 {
        r.push('-' as u8);
        let magnitude: u64 = (0 - (fd as i64)) as u64;
        push_decimal(magnitude, &mut r);
    } else {
        push_decimal(fd as u64, &mut r);
    }
    assert(r@ =~= proc_fd_link(fd as int));
    r
}

} // verus!
