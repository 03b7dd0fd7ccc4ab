use neovim_sys::String;

#[test]
fn test_as_c_str() {
    let subject = String::new(b"things are cool").unwrap();
    assert_eq!(subject.as_c_str(), b"things are cool\0");
}

#[test]
fn test_partial_eq() {
    let lhs = String::new(b"meow meow stuff").unwrap();
    let rhs = String::new(b"meow meow stuff").unwrap();
    assert_eq!(lhs, rhs);

    let lhs = String::new(b"meow meow stuff").unwrap();
    let rhs = String::new(b"meow stuff").unwrap();
    assert_ne!(lhs, rhs);
}

#[test]
fn test_try_from_cstring() {
    let source: Vec<u8> = b"tacos".to_vec();
    let lua_string = String::new(&source).unwrap();

    assert_eq!(lua_string.len(), 6);
    assert_eq!(source.len(), 5);
    assert_eq!(lua_string.len(), source.len() + 1);
    assert_eq!(lua_string.to_bytes(), source.as_slice());
}

#[test]
fn test_cstring_try_from() {
    let lua_string = String::new(b"burritos").unwrap();
    assert_eq!(lua_string.len(), 9);

    let string_size = lua_string.len();
    let bytes = lua_string.into_bytes();

    assert_eq!(bytes.len(), string_size - 1);
    assert_eq!(bytes, b"burritos".to_vec());
}

#[test]
fn string_test_clone() {
    let lua_string = String::new(b"burritos").unwrap();
    let clone = lua_string.clone();
    assert_eq!(clone.as_c_str(), lua_string.as_c_str());

    assert_eq!(lua_string.len(), 9);
    let bytes = lua_string.into_bytes();
    assert_eq!(std::string::String::from_utf8(bytes).unwrap(), "burritos");
}

#[test]
fn terminator_counts_in_len_only() {
    let s = String::new(b"burritos").unwrap();
    assert_eq!(s.len(), 9);
    assert_eq!(s.to_bytes().len(), 8);
    assert_eq!(s.as_c_str().len(), 9);
    assert_eq!(s.as_c_str()[8], 0);
    assert_eq!(s.into_bytes(), b"burritos".to_vec());
}

#[test]
fn empty_content_still_holds_the_terminator() {
    let s = String::new(b"").unwrap();
    assert_eq!(s.len(), 1);
    assert!(s.to_bytes().is_empty());
    assert!(!s.is_empty());
    assert_eq!(s.as_c_str(), b"\0");
}

#[test]
fn interior_nul_is_rejected() {
    let err = String::new(b"ab\0c\0").unwrap_err();
    assert_eq!(err.nul_position(), 2);
    assert_eq!(err.into_vec(), b"ab\0c\0".to_vec());

    let err = String::new(b"\0").unwrap_err();
    assert_eq!(err.nul_position(), 0);
}

#[test]
fn str_compares_with_content() {
    let s = String::new(b"tacos").unwrap();
    assert!(*"tacos" == s);
    assert!(*"taco" != s);
    assert!(*"tacos!" != s);
}

#[test]
fn clone_is_independent() {
    let a = String::new(b"abc").unwrap();
    let b = a.clone();
    drop(a);
    assert_eq!(b.to_bytes(), b"abc");
    assert_eq!(b.len(), 4);
}
