use httplike::Version;

#[test]
fn version_text() {
    assert_eq!(Version::http_09().as_str(), "HTTP/0.9");
    assert_eq!(Version::http_10().as_str(), "HTTP/1.0");
    assert_eq!(Version::http_11().as_str(), "HTTP/1.1");
    assert_eq!(Version::http_2().as_str(), "HTTP/2.0");
    assert_eq!(Version::http_3().as_str(), "HTTP/3.0");
    assert_eq!(Version::rtsp_1().as_str(), "RTSP/1.0");
}

#[test]
fn version_order_follows_declaration() {
    assert!(Version::http_09() < Version::http_10());
    assert!(Version::http_10() < Version::http_11());
    assert!(Version::http_11() < Version::http_2());
    assert!(Version::http_2() < Version::http_3());
    assert!(Version::http_3() < Version::rtsp_1());
    assert!(Version::http_2() >= Version::http_11());
    assert_eq!(Version::http_11().cmp(&Version::http_2()), std::cmp::Ordering::Less);
    assert!(Version::http_11() != Version::http_2());
}

#[test]
fn version_default_is_http_11() {
    assert!(Version::default() == Version::http_11());
}
