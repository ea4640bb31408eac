use hiberman::restore_time::contains_bytes;
use hiberman::restore_time::kernel_restore_time;
use hiberman::restore_time::parse_kernel_timestamp;

#[test]
fn kernel_timestamps() {
    assert_eq!(parse_kernel_timestamp(b"[   12.345678] foo"), Some((12, 345678)));
    assert_eq!(parse_kernel_timestamp(b"[0.000001]"), Some((0, 1)));
    assert_eq!(parse_kernel_timestamp(b"[ 12.34567] foo"), None);
    assert_eq!(parse_kernel_timestamp(b"[ 12.3456789] foo"), None);
    assert_eq!(parse_kernel_timestamp(b"[ .345678] foo"), None);
    assert_eq!(parse_kernel_timestamp(b" [12.345678] foo"), None);
    assert_eq!(parse_kernel_timestamp(b"[12.345678 foo"), None);
    assert_eq!(parse_kernel_timestamp(b"[99999999999999999999.000000]"), None);
}

#[test]
fn restore_time_from_dmesg() {
    let log = "[    1.000000] booting\n\
               [   10.250000] Enabling non-boot CPUs ...\n\
               [   10.500000] CPU1 is up\n\
               [   12.000001] PM: restore of devices complete after 1500.000 msecs\n\
               [   13.000000] PM: restore of devices complete after 1.000 msecs\n";
    assert_eq!(kernel_restore_time(log), Some((1, 750001)));
}

#[test]
fn restore_time_needs_both_lines_in_order() {
    let done_first = "[   12.000000] PM: restore of devices complete after 1 msecs\n\
                      [   13.000000] Enabling non-boot CPUs ...\n";
    assert_eq!(kernel_restore_time(done_first), None);
    assert_eq!(kernel_restore_time("[ 1.000000] Enabling non-boot CPUs ...\n"), None);
    assert_eq!(kernel_restore_time(""), None);
    let no_stamp = "Enabling non-boot CPUs ...\n[ 2.000000] PM: restore of devices complete after\n";
    assert_eq!(kernel_restore_time(no_stamp), None);
    let backwards = "[ 5.000000] Enabling non-boot CPUs ...\n[ 2.000000] PM: restore of devices complete after\n";
    assert_eq!(kernel_restore_time(backwards), None);
}

#[test]
fn byte_search() {
    assert!(contains_bytes(b"abcdef", b"cde"));
    assert!(contains_bytes(b"abc", b""));
    assert!(contains_bytes(b"abc", b"abc"));
    assert!(!contains_bytes(b"abc", b"abcd"));
    assert!(!contains_bytes(b"abcabd", b"abe"));
}
