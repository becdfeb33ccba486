use rofi_mode::String;
use std::cmp::Ordering;

#[test]
fn empty() {
    let s = String::new();
    assert_eq!(s.as_str_nul().as_bytes()[0], b'\0');
    assert_eq!(s.len(), 0);
    assert_eq!(s.len(), 0);
    assert!(s.is_empty());
    assert_eq!(s.capacity(), 0);
    assert_eq!(s.capacity(), 0);
    assert_eq!(s.as_str(), "");
    assert_eq!(s.as_str_nul(), "\0");
}

#[test]
fn into_raw_allocates() {
    let raw = String::new().into_raw();
    assert_eq!(raw, vec![0u8]);
}

#[test]
fn reserve_none() {
    let mut s = String::new();
    s.reserve(0);
    assert!(s.is_empty());
    assert_eq!(s.as_str_nul(), "\0");
    assert_eq!(s.capacity(), 8);
}

#[test]
fn reserve() {
    let mut s = String::new();
    s.reserve(2);

    assert!(s.is_empty());
    assert_eq!(s.as_str_nul(), "\0");
    assert_eq!(s.capacity(), 8);

    s.reserve(7);
    assert_eq!(s.as_str_nul(), "\0");
    assert_eq!(s.capacity(), 8);

    s.reserve(8);
    assert_eq!(s.as_str_nul(), "\0");
    assert_eq!(s.capacity(), 16);
}

#[test]
fn push_str() {
    let mut s = String::new();

    s.push_str("a");
    assert_eq!(s.as_str_nul(), "a\0");
    assert_eq!(s.capacity(), 8);

    s.push_str("bcdefg");
    assert_eq!(s.as_str_nul(), "abcdefg\0");
    assert_eq!(s.capacity(), 8);

    s.push_str("h");
    assert_eq!(s.as_str_nul(), "abcdefgh\0");
    assert_eq!(s.capacity(), 16);
}

#[test]
fn shrink() {
    let mut s = String::new();
    s.shrink_to_fit();
    s.shrink_to(0);
    s.shrink_to(400);
    assert_eq!(s.capacity(), 0);

    s.push_str("foo");

    s.shrink_to(5);
    assert_eq!(s.capacity(), 5);
    assert_eq!(s.as_str_nul(), "foo\0");

    s.shrink_to_fit();
    assert_eq!(s.capacity(), 4);
    assert_eq!(s.as_str_nul(), "foo\0");
}

#[test]
fn clear() {
    let mut s = String::new();
    assert_eq!(s.as_str_nul(), "\0");
    s.clear();
    assert_eq!(s.as_str_nul(), "\0");
    assert_eq!(s.capacity(), 0);

    s.push_str("hello world!");
    s.clear();
    assert_eq!(s.as_str_nul(), "\0");
    assert_eq!(s.capacity(), 13);
}

#[test]
fn formatting() {
    assert_eq!(
        rofi_mode::format(&std::format!("PI = {}", 3)).as_str_nul(),
        "PI = 3\0"
    );
}

#[test]
fn with_capacity_reserves_room() {
    let s = String::with_capacity(20);
    assert!(s.is_empty());
    assert_eq!(s.capacity(), 21);
    let small = String::with_capacity(3);
    assert_eq!(small.capacity(), 8);
}

#[test]
fn reserve_doubles_capacity() {
    let mut s = String::from_str("abcdefghij");
    assert_eq!(s.capacity(), 11);
    s.reserve(1);
    assert_eq!(s.capacity(), 22);
    assert_eq!(s.as_str(), "abcdefghij");
}

#[test]
fn reserve_leaves_room_for_additional_bytes() {
    let mut s = String::from_str("xyz");
    for n in [0usize, 1, 4, 5, 13, 100] {
        s.reserve(n);
        assert!(s.capacity() > s.len() + n);
    }
}

#[test]
fn push_str_empty_does_not_allocate() {
    let mut s = String::new();
    s.push_str("");
    assert_eq!(s.capacity(), 0);
    assert_eq!(s.as_str_nul(), "\0");
}

#[test]
fn push_str_multibyte() {
    let mut s = String::new();
    s.push_str("héllo ✓");
    assert_eq!(s.as_str(), "héllo ✓");
    assert_eq!(s.len(), "héllo ✓".len());
    assert_eq!(s.as_str_nul(), "héllo ✓\0");
}

#[test]
fn shrink_keeps_room_for_terminator() {
    let mut s = String::from_str("hello");
    s.reserve(50);
    s.shrink_to(2);
    assert_eq!(s.capacity(), 6);
    assert_eq!(s.as_str(), "hello");
}

#[test]
fn shrink_to_larger_bound_is_noop() {
    let mut s = String::from_str("hi");
    assert_eq!(s.capacity(), 8);
    s.shrink_to(100);
    assert_eq!(s.capacity(), 8);
}

#[test]
fn from_str_and_format_capacity() {
    let s = String::from_str("");
    assert_eq!(s.capacity(), 0);
    let t = rofi_mode::format("twelve bytes");
    assert_eq!(t.as_str(), "twelve bytes");
    assert_eq!(t.capacity(), 13);
}

#[test]
fn from_raw_parts_round_trip() {
    let s = String::from_raw_parts(b"abc\0".to_vec(), 3, 4);
    assert_eq!(s.as_str(), "abc");
    assert_eq!(s.capacity(), 4);
    assert_eq!(s.into_raw(), b"abc\0".to_vec());
}

#[test]
fn clone_has_fresh_capacity() {
    let mut s = String::from_str("abc");
    s.reserve(40);
    let t = s.clone();
    assert_eq!(t.as_str(), "abc");
    assert_eq!(t.capacity(), 8);
    assert!(t == s);
    let e = String::with_capacity(30).clone();
    assert_eq!(e.capacity(), 0);
}

#[test]
fn equality_ignores_capacity() {
    let a = String::from_str("same");
    let mut b = String::with_capacity(100);
    b.push_str("same");
    assert!(a == b);
    let c = String::from_str("other");
    assert!(a != c);
    assert!(String::from_str("ab") != String::from_str("abc"));
}

#[test]
fn default_is_empty() {
    let s: String = Default::default();
    assert!(s.is_empty());
    assert_eq!(s.capacity(), 0);
}

#[test]
fn order_is_lexicographic_by_bytes() {
    let a = String::from_str("ab");
    let b = String::from_str("abc");
    let c = String::from_str("b");
    assert_eq!(a.partial_cmp(&b), Some(Ordering::Less));
    assert_eq!(b.partial_cmp(&a), Some(Ordering::Greater));
    assert_eq!(b.partial_cmp(&c), Some(Ordering::Less));
    assert!(a < c);
    let mut a2 = String::with_capacity(50);
    a2.push_str("ab");
    assert_eq!(a.partial_cmp(&a2), Some(Ordering::Equal));
    assert_eq!(String::new().partial_cmp(&String::new()), Some(Ordering::Equal));
    assert_eq!("ab".cmp("abc"), Ordering::Less);
}

#[test]
fn push_str_reads_back_as_concatenation() {
    let mut s = String::from_str("grüß ");
    s.push_str("dich");
    assert_eq!(s.as_str(), "grüß dich");
}
