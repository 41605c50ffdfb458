use bytes::Bytes;
use httplike::{ErrorKind, InvalidUri, Protocol, Scheme, Scheme2};
use std::collections::hash_map::DefaultHasher;
use std::convert::TryFrom;
use std::hash::{Hash, Hasher};

fn hash_of(s: &Scheme) -> u64 {
    let mut h = DefaultHasher::new();
    s.hash(&mut h);
    h.finish()
}

fn scheme(s: &str) -> Scheme {
    Scheme::try_from(s).unwrap()
}

#[test]
fn exact_text_matches_input_ignoring_case() {
    for s in ["http", "HtTp", "HTTPS", "rtsp", "RTSPS", "Foo+Bar", "a.b-c", "x9"] {
        let t = scheme(s);
        assert!(t.as_str().eq_ignore_ascii_case(s), "{}", s);
    }
}

#[test]
fn exact_keeps_case_of_other_schemes() {
    assert_eq!(scheme("Foo+Bar").as_str(), "Foo+Bar");
    assert_eq!(scheme("HTTP").as_str(), "http");
    assert_eq!(scheme("RtSpS").as_str(), "rtsps");
}

#[test]
fn exact_known_protocols() {
    assert!(matches!(Scheme2::parse_exact(b"http"), Ok(Scheme2::Standard(Protocol::Http))));
    assert!(matches!(Scheme2::parse_exact(b"https"), Ok(Scheme2::Standard(Protocol::Https))));
    assert!(matches!(Scheme2::parse_exact(b"rtsp"), Ok(Scheme2::Standard(Protocol::Rtsp))));
    assert!(matches!(Scheme2::parse_exact(b"rtsps"), Ok(Scheme2::Standard(Protocol::Rtsps))));
    assert!(matches!(Scheme2::parse_exact(b"HTTP"), Ok(Scheme2::Standard(Protocol::Http))));
    assert!(matches!(Scheme2::parse_exact(b"hTtPs"), Ok(Scheme2::Standard(Protocol::Https))));
    assert!(matches!(Scheme2::parse_exact(b"ftp"), Ok(Scheme2::Other(()))));
    assert!(matches!(Scheme2::parse_exact(b"httpx"), Ok(Scheme2::Other(()))));
}

#[test]
fn exact_errors() {
    assert_eq!(Scheme2::parse_exact(b"a:b").unwrap_err().kind(), ErrorKind::InvalidScheme);
    assert_eq!(Scheme2::parse_exact(b"http:").unwrap_err().kind(), ErrorKind::InvalidScheme);
    assert_eq!(Scheme2::parse_exact(b"a b").unwrap_err().kind(), ErrorKind::InvalidScheme);
    assert_eq!(Scheme2::parse_exact(b"a~b").unwrap_err().kind(), ErrorKind::InvalidScheme);
    assert_eq!(Scheme::try_from("x/y").unwrap_err(), InvalidUri(ErrorKind::InvalidScheme));
}

#[test]
fn scan_known_protocols_any_case() {
    assert!(matches!(Scheme2::parse(b"http://x"), Ok(Scheme2::Standard(Protocol::Http))));
    assert!(matches!(Scheme2::parse(b"HTTPS://host/p"), Ok(Scheme2::Standard(Protocol::Https))));
    assert!(matches!(Scheme2::parse(b"RtSp://h"), Ok(Scheme2::Standard(Protocol::Rtsp))));
    assert!(matches!(Scheme2::parse(b"rtsps://"), Ok(Scheme2::Standard(Protocol::Rtsps))));
    assert!(matches!(Scheme2::parse(b"hTTp://"), Ok(Scheme2::Standard(Protocol::Http))));
}

#[test]
fn scan_other_scheme_length_and_token() {
    let uri = b"foo.bar+x://rest/of/it";
    let n = match Scheme2::parse(uri) {
        Ok(Scheme2::Other(n)) => n,
        _ => panic!("no scheme length"),
    };
    assert_eq!(n, 9);
    let from_slice = Scheme::try_from(&uri[..n]).unwrap();
    assert!(from_slice == scheme("foo.bar+x"));
    let shared = Scheme::from_shared(&Bytes::copy_from_slice(uri), n).unwrap();
    assert_eq!(shared.as_str(), "foo.bar+x");
    assert!(shared == from_slice);
}

#[test]
fn scan_stops_correctly() {
    assert!(matches!(Scheme2::parse(b"ht!tp://x"), Ok(Scheme2::Empty)));
    assert!(matches!(Scheme2::parse(b"abc:def"), Ok(Scheme2::Empty)));
    assert!(matches!(Scheme2::parse(b"a://b"), Ok(Scheme2::Other(1))));
    assert!(matches!(Scheme2::parse(b"abc:/"), Ok(Scheme2::Empty)));
    assert!(matches!(Scheme2::parse(b"abcd"), Ok(Scheme2::Empty)));
    assert!(matches!(Scheme2::parse(b"a:/"), Ok(Scheme2::Empty)));
    assert!(matches!(Scheme2::parse(b"/path/only"), Ok(Scheme2::Empty)));
    assert!(matches!(Scheme2::parse(b"://x"), Ok(Scheme2::Other(0))));
}

#[test]
fn round_trip_through_text() {
    for s in ["http", "HTTPS", "rtsp", "rtsps", "Foo+Bar", "z"] {
        let t = scheme(s);
        let again = Scheme::try_from(t.as_str()).unwrap();
        assert!(again == t);
        assert_eq!(again.as_str(), t.as_str());
    }
    for p in [Protocol::Http, Protocol::Https, Protocol::Rtsp, Protocol::Rtsps] {
        let t = Scheme::from_protocol(p);
        assert!(scheme(t.as_str()) == t);
    }
}

#[test]
fn length_boundary() {
    let ok = "a".repeat(64);
    assert_eq!(scheme(&ok).as_str(), ok);
    let long = "a".repeat(65);
    assert_eq!(Scheme::try_from(long.as_str()).unwrap_err().kind(), ErrorKind::SchemeTooLong);
    let uri = format!("{}://x", long);
    assert_eq!(Scheme2::parse(uri.as_bytes()).unwrap_err().kind(), ErrorKind::SchemeTooLong);
    let uri64 = format!("{}://x", ok);
    assert!(matches!(Scheme2::parse(uri64.as_bytes()), Ok(Scheme2::Other(64))));
    let bad_long = format!("{}:", "a".repeat(70));
    assert_eq!(
        Scheme2::parse_exact(bad_long.as_bytes()).unwrap_err().kind(),
        ErrorKind::SchemeTooLong
    );
}

#[test]
fn case_insensitive_equality_and_hash() {
    let upper = scheme("HTTP");
    let lower = scheme("http");
    assert!(upper == lower);
    assert_eq!(hash_of(&upper), hash_of(&lower));
    let a = scheme("Foo.Bar");
    let b = scheme("fOO.bAR");
    assert!(a == b);
    assert_eq!(hash_of(&a), hash_of(&b));
    assert!(scheme("foo") != scheme("fop"));
    assert!(scheme("foo") != scheme("fooo"));
}

#[test]
fn compare_with_text() {
    let s = scheme("HTTP");
    assert!(s == *"http");
    assert!(s == *"HtTp");
    assert!(!(s == *"https"));
    assert!(scheme("Foo") == *"fOO");
    assert!(scheme("Foo").as_ref() == "Foo");
    assert!(*"HTTP" == s);
    assert!(*"foo" == scheme("FOO"));
    assert!(!(*"foo" == scheme("bar")));
}

#[test]
fn protocol_into_scheme_value() {
    let v: Scheme2<usize> = Scheme2::from(Protocol::Rtsp);
    assert!(matches!(v, Scheme2::Standard(Protocol::Rtsp)));
}

#[test]
fn empty_input() {
    assert_eq!(Scheme2::parse_exact(b"").unwrap_err().kind(), ErrorKind::InvalidScheme);
    assert_eq!(Scheme::try_from("").unwrap_err().kind(), ErrorKind::InvalidScheme);
    assert!(matches!(Scheme2::parse(b""), Ok(Scheme2::Empty)));
}

#[test]
fn known_never_equals_other() {
    for k in ["http", "https", "rtsp", "rtsps"] {
        for o in ["ftp", "httpx", "htt", "rtspss", "a"] {
            assert!(scheme(k) != scheme(o));
            assert!(scheme(o) != scheme(k));
        }
    }
    assert!(scheme("http") != scheme("https"));
}

#[test]
fn parse_via_from_str_and_bytes() {
    let s: Scheme = "ws".parse().unwrap();
    assert_eq!(s.as_str(), "ws");
    let b = Scheme::try_from(&b"Git+SSH"[..]).unwrap();
    assert_eq!(b.as_str(), "Git+SSH");
    let c = Scheme::from_bytes(b"mailto").unwrap();
    assert_eq!(c.clone().as_str(), "mailto");
}

#[test]
fn shared_prefix_token() {
    let buf = Bytes::copy_from_slice(b"HTTPS://host");
    let t = Scheme::from_shared(&buf, 5).unwrap();
    assert_eq!(t.as_str(), "https");
    let buf2 = Bytes::copy_from_slice(b"my-app://x");
    let t2 = Scheme::from_shared(&buf2, 6).unwrap();
    assert_eq!(t2.as_str(), "my-app");
    assert_eq!(
        Scheme::from_shared(&buf2, 7).unwrap_err().kind(),
        ErrorKind::InvalidScheme
    );
    assert_eq!(Scheme::from_shared(&buf2, 0).unwrap_err().kind(), ErrorKind::InvalidScheme);
    assert_eq!(Scheme::from_shared(&buf2, 11).unwrap_err().kind(), ErrorKind::InvalidScheme);
    assert_eq!(Scheme::from_shared(&buf2, 500).unwrap_err().kind(), ErrorKind::InvalidScheme);
}

#[test]
fn conversions_agree() {
    for s in ["http", "HTTP", "Foo+Bar", "", "a~b", "a:b"] {
        let a = Scheme::try_from(s);
        let b: Result<Scheme, InvalidUri> = s.parse();
        let c = Scheme::try_from(s.as_bytes());
        match (a, b, c) {
            (Ok(x), Ok(y), Ok(z)) => {
                assert_eq!(x.as_str(), y.as_str());
                assert_eq!(x.as_str(), z.as_str());
                assert_eq!(x.as_ref(), x.as_str());
                assert_eq!(x.clone().as_str(), x.as_str());
                assert!(x.clone() == x);
                x.invariant_holds();
            }
            (Err(x), Err(y), Err(z)) => {
                assert_eq!(x, y);
                assert_eq!(x, z);
            }
            _ => panic!("conversions disagree on {:?}", s),
        }
    }
}

#[test]
fn hash_key_is_folded() {
    assert_eq!(scheme("FoO").hash_key(), b"foo".to_vec());
    assert_eq!(scheme("http").hash_key(), vec![1u8]);
    assert_eq!(scheme("HTTPS").hash_key(), vec![2u8]);
    assert_eq!(scheme("rtsp").hash_key(), vec![3u8]);
    assert_eq!(scheme("rtsps").hash_key(), vec![4u8]);
}

#[test]
fn protocol_text_and_length() {
    assert_eq!(Protocol::Http.len(), 4);
    assert_eq!(Protocol::Https.len(), 5);
    assert_eq!(Protocol::Rtsp.len(), 4);
    assert_eq!(Protocol::Rtsps.len(), 5);
    assert_eq!(Protocol::Rtsps.as_str(), "rtsps");
    assert_eq!(Scheme::from_protocol(Protocol::Https).as_str(), "https");
}

#[test]
fn none_marks_absent_scheme() {
    assert!(Scheme2::<usize>::Empty.is_none());
    assert!(!Scheme2::<usize>::Other(3).is_none());
    assert!(!Scheme2::<()>::Standard(Protocol::Http).is_none());
}

#[test]
fn byte_classes() {
    assert_eq!(httplike::classify(b'a'), b'a');
    assert_eq!(httplike::classify(b'Z'), b'Z');
    assert_eq!(httplike::classify(b'7'), b'7');
    assert_eq!(httplike::classify(b'+'), b'+');
    assert_eq!(httplike::classify(b':'), b':');
    assert_eq!(httplike::classify(b'~'), 0);
    assert_eq!(httplike::classify(b'/'), 0);
    assert_eq!(httplike::classify(200), 0);
    assert_eq!(httplike::to_lower(b'Q'), b'q');
    assert!(httplike::eq_ignore_ascii_case(b"AbC", b"aBc"));
    assert!(!httplike::eq_ignore_ascii_case(b"AbC", b"aBd"));
}
