use typed_path::{NativePathBuf, TypedPath, UnixPath, Utf8NativePathBuf};

#[test]
fn components_of_unix_path() {
    let path = TypedPath::new(b"/tmp/foo/../bar.txt");
    let comps = path.components();
    let bytes: Vec<Vec<u8>> = comps.iter().map(|c| c.as_bytes()).collect();
    assert_eq!(
        bytes,
        vec![
            b"/".to_vec(),
            b"tmp".to_vec(),
            b"foo".to_vec(),
            b"..".to_vec(),
            b"bar.txt".to_vec(),
        ]
    );
    assert!(comps[0].is_root());
    assert!(comps[3].is_parent());
    assert!(comps[4].is_normal());
}

#[test]
fn component_roles_are_mutually_exclusive() {
    let unix = TypedPath::new(b"/tmp/./x/../name");
    let windows = TypedPath::new(br"\\?\UNC\srv\share\..\f.txt");
    for path in [unix, windows] {
        for c in path.components() {
            let roles = [
                c.is_prefix(),
                c.is_root(),
                c.is_current(),
                c.is_parent(),
                c.is_normal(),
            ];
            assert_eq!(roles.iter().filter(|r| **r).count(), 1);
            assert_eq!(c.len(), c.as_bytes().len());
            assert!(!c.is_empty());
        }
    }
}

#[test]
fn components_edge_cases() {
    assert_eq!(TypedPath::new(b"").components().len(), 0);
    let dot = TypedPath::new(b".").components();
    assert_eq!(dot.len(), 1);
    assert!(dot[0].is_current());
    let dotdot = TypedPath::new(b"..").components();
    assert_eq!(dotdot.len(), 1);
    assert!(dotdot[0].is_parent());
    let squeezed = TypedPath::new(b"a//b/./c").components();
    let bs: Vec<Vec<u8>> = squeezed.iter().map(|c| c.as_bytes()).collect();
    assert_eq!(bs, vec![b"a".to_vec(), b"b".to_vec(), b"c".to_vec()]);
}

#[test]
fn windows_components_and_prefix() {
    let path = TypedPath::new(br"C:\x\y.txt");
    assert!(path.is_windows());
    let comps = path.components();
    assert_eq!(comps.len(), 4);
    assert!(comps[0].is_prefix());
    assert_eq!(comps[0].as_bytes(), b"C:".to_vec());
    assert!(comps[1].is_root());
    assert_eq!(comps[2].as_bytes(), b"x".to_vec());
    assert!(comps[3].is_normal());
    assert_eq!(comps[3].as_bytes(), b"y.txt".to_vec());
}

#[test]
fn verbatim_unc_prefix_spans_server_and_share() {
    let comps = TypedPath::new(br"\\?\UNC\srv\share\f.txt").components();
    assert_eq!(comps.len(), 3);
    assert!(comps[0].is_prefix());
    assert_eq!(comps[0].as_bytes(), br"\\?\UNC\srv\share".to_vec());
    assert!(comps[1].is_root());
    assert_eq!(comps[2].as_bytes(), b"f.txt".to_vec());
}

#[test]
fn unc_prefix_spans_server_and_share() {
    let comps = TypedPath::new(br"\\server\share\x").components();
    assert_eq!(comps.len(), 3);
    assert!(comps[0].is_prefix());
    assert_eq!(comps[0].as_bytes(), br"\\server\share".to_vec());
    assert!(comps[1].is_root());
    assert_eq!(comps[2].as_bytes(), b"x".to_vec());
}

#[test]
fn device_prefix_spans_device_name() {
    let comps = TypedPath::new(br"\\.\COM1").components();
    assert_eq!(comps.len(), 1);
    assert!(comps[0].is_prefix());
    assert_eq!(comps[0].as_bytes(), br"\\.\COM1".to_vec());
}

#[test]
fn component_to_path_reclassifies_by_its_own_bytes() {
    let path = TypedPath::new(br"C:\dir\file.txt");
    assert!(path.is_windows());
    let comps = path.components();
    let last = &comps[comps.len() - 1];
    assert!(last.is_normal());
    // the plain file name carries no Windows-specific marker, so on its own
    // it reclassifies as Unix even though its parent path was Windows-tagged
    let alone = last.to_path();
    assert!(alone.is_unix());
    assert_eq!(alone.as_bytes(), b"file.txt".as_slice());
    // a prefix component keeps enough bytes to stay Windows on its own
    let prefix_alone = comps[0].to_path();
    assert!(prefix_alone.is_windows());
}

#[test]
fn native_path_wraps_into_typed_forms() {
    let native = NativePathBuf::from("hello.txt");
    let typed = native.as_path().to_typed_path_buf();
    assert!(typed.is_unix());
    assert_eq!(typed.as_bytes(), b"hello.txt".as_slice());
    let borrowed = UnixPath::new(b"hello.txt");
    let typed_ref = borrowed.to_typed_path();
    assert!(typed_ref.is_unix());
    assert_eq!(typed_ref.as_bytes(), b"hello.txt".as_slice());
}

#[test]
fn utf8_native_path_round_trip() {
    let p = Utf8NativePathBuf::from("a/b.txt");
    assert_eq!(p.as_str(), "a/b.txt");
    assert_eq!(p.as_path().as_str(), "a/b.txt");
}
