use filename::error::OsError;
use filename::getpath::{getpath_result, name_end, name_from_path_buffer, FCNTL_FAILED, MAXPATHLEN};

#[test]
fn name_stops_at_first_nul() {
    let buf = [b'/', b't', b'm', b'p', 0, b'x', 0];
    assert_eq!(name_end(&buf), 4);
    assert_eq!(name_from_path_buffer(&buf), b"/tmp".to_vec());
}

#[test]
fn buffer_without_nul_is_taken_whole() {
    let buf = [b'a'; MAXPATHLEN];
    let name = name_from_path_buffer(&buf);
    assert_eq!(name.len(), MAXPATHLEN);
    assert_eq!(name, vec![b'a'; MAXPATHLEN]);
}

#[test]
fn name_one_below_buffer_size_keeps_every_byte() {
    let mut buf = [b'b'; MAXPATHLEN];
    buf[MAXPATHLEN - 1] = 0;
    let name = name_from_path_buffer(&buf);
    assert_eq!(name.len(), MAXPATHLEN - 1);
    assert!(name.iter().all(|&c| c == b'b'));
}

#[test]
fn leading_nul_gives_empty_name() {
    let mut buf = [b'z'; MAXPATHLEN];
    buf[0] = 0;
    assert_eq!(name_end(&buf), 0);
    assert!(name_from_path_buffer(&buf).is_empty());
}

#[test]
fn empty_buffer_gives_empty_name() {
    assert_eq!(name_end(&[]), 0);
    assert!(name_from_path_buffer(&[]).is_empty());
}

#[test]
fn non_utf8_bytes_pass_through() {
    let buf = [0xff, 0xfe, b'/', 0x80, 0];
    assert_eq!(name_from_path_buffer(&buf), vec![0xff, 0xfe, b'/', 0x80]);
}

#[test]
fn getpath_failure_reports_os_error() {
    let buf = [b'/', b'a', 0];
    let r = getpath_result(FCNTL_FAILED, &buf, 9);
    assert_eq!(r, Err(OsError { code: 9 }));
    assert_eq!(r.unwrap_err().raw_code(), 9);
}

#[test]
fn getpath_success_reads_buffer() {
    let mut buf = [0u8; MAXPATHLEN];
    buf[..8].copy_from_slice(b"/var/log");
    assert_eq!(getpath_result(0, &buf, 9), Ok(b"/var/log".to_vec()));
}

#[test]
fn getpath_success_on_other_return_values() {
    let buf = [b'/', b'x', 0];
    assert_eq!(getpath_result(7, &buf, 0), Ok(b"/x".to_vec()));
    assert_eq!(getpath_result(-2, &buf, 0), Ok(b"/x".to_vec()));
}

#[test]
fn resolving_same_buffer_twice_agrees() {
    let mut buf = [0u8; MAXPATHLEN];
    buf[..5].copy_from_slice(b"/data");
    let first = getpath_result(0, &buf, 0);
    let second = getpath_result(0, &buf, 0);
    assert_eq!(first, second);
    assert_eq!(first, Ok(b"/data".to_vec()));
}
