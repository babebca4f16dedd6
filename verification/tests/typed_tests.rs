use typed_path::{NativePathBuf, TypedPath, TypedPathBuf, Utf8NativePathBuf};

#[test]
fn native_path_buf_should_be_cloneable() {
    let path = NativePathBuf::from("hello.txt");
    assert_eq!(path, path.clone());
}

#[test]
fn utf8_native_path_buf_should_be_cloneable() {
    let path = Utf8NativePathBuf::from("hello.txt");
    assert_eq!(path, path.clone());
}

#[test]
fn classify_unix_separator_path_is_unix() {
    assert!(TypedPath::new(b"/some/path/to/file.txt").is_unix());
}

#[test]
fn classify_drive_letter_is_windows() {
    assert!(TypedPath::new(br"C:\some\path\to\file.txt").is_windows());
}

#[test]
fn classify_leading_backslash_is_windows() {
    assert!(TypedPath::new(br"\some\path\to\file.txt").is_windows());
}

#[test]
fn classify_inner_backslashes_only_is_unix() {
    assert!(TypedPath::new(br"some\path\to\file.txt").is_unix());
    assert!(TypedPath::new(b"file.txt").is_unix());
}

#[test]
fn classify_empty_is_unix() {
    assert!(TypedPath::new(b"").is_unix());
}

#[test]
fn classify_unc_device_verbatim_are_windows() {
    assert!(TypedPath::new(br"\\server\share\x").is_windows());
    assert!(TypedPath::new(br"\\.\COM1").is_windows());
    assert!(TypedPath::new(br"\\?\C:\x").is_windows());
    assert!(TypedPath::new(b"C:file.txt").is_windows());
    // forward slashes alone carry no Windows-specific marker
    assert!(TypedPath::new(b"//server/share").is_unix());
}

#[test]
fn round_trip_unix_bytes() {
    let b: &[u8] = b"/a/b.txt";
    let p = TypedPathBuf::from_bytes(b);
    assert!(p.is_unix());
    assert_eq!(p.as_bytes(), b);
    assert_eq!(p.into_vec(), b.to_vec());
}

#[test]
fn round_trip_windows_bytes() {
    let b: &[u8] = br"C:\a\b.txt";
    let p = TypedPathBuf::from_vec(b.to_vec());
    assert!(p.is_windows());
    assert_eq!(p.as_bytes(), b);
    assert_eq!(p.into_vec(), b.to_vec());
}

#[test]
fn borrowed_owned_classification_agree() {
    let cases: [&[u8]; 6] = [b"/x", br"C:\x", br"\x", b"", br"x\y", br"\\srv\sh"];
    for b in cases {
        let borrowed = TypedPath::new(b);
        let owned = TypedPathBuf::from_bytes(b);
        assert_eq!(borrowed.is_unix(), owned.as_path().is_unix());
        assert_eq!(borrowed.is_windows(), owned.as_path().is_windows());
    }
}

#[test]
fn borrowed_to_owned_and_back_keeps_tag_and_bytes() {
    let b: &[u8] = br"\\server\share";
    let p = TypedPath::new(b);
    let owned = p.to_path_buf();
    assert_eq!(owned.is_windows(), p.is_windows());
    assert_eq!(owned.as_bytes(), b);
    let back = owned.as_path();
    assert_eq!(back.is_windows(), p.is_windows());
    assert_eq!(back.as_bytes(), b);
}

#[test]
fn narrowing_mismatch_is_lossless() {
    let w = TypedPathBuf::from_bytes(br"C:\data");
    let orig = w.clone();
    match w.try_into_unix() {
        Ok(_) => panic!("a Windows-tagged value must not narrow to Unix"),
        Err(e) => assert_eq!(e, orig),
    }
    let u = TypedPathBuf::from_bytes(b"/data");
    let orig = u.clone();
    match u.try_into_windows() {
        Ok(_) => panic!("a Unix-tagged value must not narrow to Windows"),
        Err(e) => assert_eq!(e, orig),
    }
}

#[test]
fn narrowing_match_succeeds() {
    let u = TypedPathBuf::from_bytes(b"/data");
    let unix = u.try_into_unix().unwrap();
    assert_eq!(unix.as_bytes(), b"/data".as_slice());
    let w = TypedPathBuf::from_bytes(br"C:\data");
    let windows = w.try_into_windows().unwrap();
    assert_eq!(windows.as_bytes(), br"C:\data".as_slice());
}

#[test]
fn try_as_variant_views() {
    let p = TypedPath::new(b"/a");
    assert!(p.try_as_unix().is_some());
    assert!(p.try_as_windows().is_none());
    let w = TypedPath::new(br"\a");
    assert!(w.try_as_windows().is_some());
    assert!(w.try_as_unix().is_none());
}

#[test]
fn from_str_classifies() {
    let p = TypedPathBuf::from_str_slice("/home/user");
    assert!(p.is_unix());
    assert_eq!(p.as_bytes(), b"/home/user".as_slice());
    let q = TypedPathBuf::from_str_slice(r"C:\Users");
    assert!(q.is_windows());
}
