use baklog_desktop::address::{decimal_text, notification_address, probe_address, SERVER_PORT};

#[test]
fn the_port_is_3000() {
    assert_eq!(SERVER_PORT, 3000);
}

#[test]
fn the_window_is_sent_to_the_local_server() {
    assert_eq!(notification_address(), "http://localhost:3000");
}

#[test]
fn the_probe_connects_to_the_loopback_address() {
    assert_eq!(probe_address(3000), "127.0.0.1:3000");
    assert_eq!(probe_address(3001), "127.0.0.1:3001");
    assert_eq!(probe_address(0), "127.0.0.1:0");
    assert_eq!(probe_address(65535), "127.0.0.1:65535");
}

#[test]
fn numbers_are_written_without_leading_zeros() {
    assert_eq!(decimal_text(0), "0");
    assert_eq!(decimal_text(7), "7");
    assert_eq!(decimal_text(9), "9");
    assert_eq!(decimal_text(10), "10");
    assert_eq!(decimal_text(99), "99");
    assert_eq!(decimal_text(100), "100");
    assert_eq!(decimal_text(3000), "3000");
    assert_eq!(decimal_text(40506), "40506");
    assert_eq!(decimal_text(65535), "65535");
}

#[test]
fn every_number_is_written_as_the_standard_library_writes_it() {
    for n in 0..=u16::MAX {
        assert_eq!(decimal_text(n), n.to_string());
    }
}
