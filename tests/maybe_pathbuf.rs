use maybe_path::{MaybePath, MaybePathBuf};
use std::borrow::Cow;
use std::collections::hash_map::DefaultHasher;
use std::hash::{Hash, Hasher};
use std::path::{Path, PathBuf};

fn hash_of<T: Hash>(v: &T) -> u64 {
    let mut h = DefaultHasher::new();
    v.hash(&mut h);
    h.finish()
}

#[test]
fn maybe_pathbuf_test_create() {
    let path1 = MaybePathBuf::new_path(Path::new("foo/bar/baz"));
    let path2: MaybePathBuf<'_> = MaybePathBuf::new_str("foo/bar/baz");

    assert!(path1.is_borrowed());
    assert!(path2.is_borrowed());
    assert_eq!(&path1, &path2);
}

#[test]
fn maybe_pathbuf_test_as() {
    let path1 = MaybePathBuf::new_path(Path::new("foo/bar/baz"));
    let path2 = MaybePathBuf::new_str("foo/bar/baz");

    assert_eq!(path1.as_ref(), path2.as_ref());
    assert_eq!(path1.to_owned(), path2.to_owned());
}

#[test]
fn to_mut_promotes_without_touching_the_source() {
    let source = String::from("foo/bar");
    let shared = MaybePath::new_str(&source);
    let mut c = MaybePathBuf::Borrowed(shared);
    c.to_mut().push("baz");
    assert!(!c.is_borrowed());
    assert_eq!(c.as_path(), Path::new("foo/bar/baz"));
    assert_eq!(shared.as_str(), Some("foo/bar"));
    assert_eq!(source, "foo/bar");
}

#[test]
fn to_mut_twice_keeps_the_first_buffer() {
    let mut c = MaybePathBuf::new_str("a");
    c.to_mut().reserve(100);
    let first = c.to_mut().capacity();
    assert!(first >= 101);
    c.to_mut().push("b");
    assert_eq!(c.to_mut().capacity(), first);
    assert_eq!(c.as_path(), Path::new("a/b"));
}

#[test]
fn owned_round_trip_keeps_the_path() {
    let b = MaybePathBuf::new_str("one/two");
    let owned = b.clone().into_owned();
    assert_eq!(owned, PathBuf::from("one/two"));
    let again = MaybePathBuf::new_path(owned.as_path());
    assert_eq!(again, b);
    let wrapped = MaybePathBuf::new_pathbuf(owned.clone());
    assert!(!wrapped.is_borrowed());
    assert_eq!(wrapped.as_path(), b.as_path());
    assert_eq!(wrapped.into_owned(), owned);
}

#[test]
fn borrowed_and_owned_are_different_states() {
    let b = MaybePathBuf::new_str("p/q");
    let o = MaybePathBuf::new_pathbuf(PathBuf::from("p/q"));
    assert!(b != o);
    assert!(b < o);
    assert_eq!(o, MaybePathBuf::new_pathbuf(PathBuf::from("p//q")));
    assert_eq!(hash_of(&b), hash_of(&MaybePathBuf::new_path(Path::new("p/q"))));
}

#[test]
fn into_cow_keeps_the_state() {
    match MaybePathBuf::new_str("s/t").into_cow() {
        Cow::Borrowed(p) => assert_eq!(p, Path::new("s/t")),
        Cow::Owned(_) => panic!("expected a borrowed path"),
    }
    match MaybePathBuf::new_pathbuf(PathBuf::from("u/v")).into_cow() {
        Cow::Owned(p) => assert_eq!(p, PathBuf::from("u/v")),
        Cow::Borrowed(_) => panic!("expected an owned path"),
    }
}

#[test]
fn clone_and_clone_from_copy_the_data() {
    let o = MaybePathBuf::new_pathbuf(PathBuf::from("x/y"));
    let c = o.clone();
    assert!(!c.is_borrowed());
    assert_eq!(c, o);
    let mut dest = MaybePathBuf::new_pathbuf(PathBuf::from("old/longer/path"));
    dest.clone_from(&o);
    assert_eq!(dest.as_path(), Path::new("x/y"));
    let mut dest2 = MaybePathBuf::new_pathbuf(PathBuf::from("z"));
    dest2.clone_from(&MaybePathBuf::new_str("w"));
    assert!(dest2.is_borrowed());
    assert_eq!(dest2.as_path(), Path::new("w"));
}

#[test]
fn default_is_borrowed_and_empty() {
    let d = MaybePathBuf::default();
    assert!(d.is_borrowed());
    assert_eq!(d.as_path(), Path::new(""));
}

#[test]
fn serialized_borrowed_value_comes_back_owned() {
    let b = MaybePathBuf::new_str("foo/bar/baz");
    let text = serde_json::to_string(b.as_path()).unwrap();
    assert_eq!(text, "\"foo/bar/baz\"");
    let back = MaybePathBuf::new_pathbuf(serde_json::from_str::<PathBuf>(&text).unwrap());
    assert!(!back.is_borrowed());
    assert_eq!(back.as_path(), b.as_path());
}
