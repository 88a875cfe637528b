use web_fetch::response::status_is_ok;

#[test]
fn success_range_is_two_hundreds() {
    assert!(!status_is_ok(199));
    assert!(status_is_ok(200));
    assert!(status_is_ok(201));
    assert!(status_is_ok(299));
    assert!(!status_is_ok(300));
    assert!(!status_is_ok(404));
    assert!(!status_is_ok(0));
    assert!(!status_is_ok(u16::MAX));
}
