use vignettes::ConstString;

#[test]
fn appends_two_pieces_into_sixteen_bytes() {
    let mut buffer: ConstString<16> = ConstString::new();
    assert_eq!(buffer.push_str("Hello, "), Ok(()));
    assert_eq!(buffer.push_str("World!"), Ok(()));
    assert_eq!(buffer.as_str(), "Hello, World!");
}

#[test]
fn too_long_string_is_refused_and_buffer_kept() {
    let mut overflow: ConstString<5> = ConstString::new();
    assert_eq!(overflow.push_str("Too long"), Err("String too long for buffer"));
    assert_eq!(overflow.as_str(), "");
    assert_eq!(overflow.push_str("abc"), Ok(()));
    assert_eq!(overflow.push_str("def"), Err("String too long for buffer"));
    assert_eq!(overflow.as_str(), "abc");
}

#[test]
fn exact_fit_fills_the_buffer() {
    let mut b: ConstString<4> = ConstString::new();
    assert_eq!(b.push_str("ab"), Ok(()));
    assert_eq!(b.push_str("cd"), Ok(()));
    assert_eq!(b.as_str(), "abcd");
    assert_eq!(b.push_str("e"), Err("String too long for buffer"));
    assert_eq!(b.push_str(""), Ok(()));
    assert_eq!(b.as_str(), "abcd");
}

#[test]
fn zero_capacity_takes_only_empty_strings() {
    let mut b: ConstString<0> = ConstString::new();
    assert_eq!(b.push_str(""), Ok(()));
    assert_eq!(b.push_str("A"), Err("String too long for buffer"));
    assert_eq!(b.as_str(), "");
}

#[test]
fn capacity_counts_bytes_not_characters() {
    let mut b: ConstString<5> = ConstString::new();
    // "é" takes two bytes.
    assert_eq!(b.push_str("héé"), Ok(()));
    assert_eq!(b.as_str(), "héé");
    assert_eq!(b.push_str("é"), Err("String too long for buffer"));
    let mut c: ConstString<4> = ConstString::new();
    assert_eq!(c.push_str("€x"), Ok(()));
    assert_eq!(c.as_str(), "€x");
}

#[test]
fn copies_are_independent() {
    let mut a: ConstString<8> = ConstString::new();
    assert_eq!(a.push_str("one"), Ok(()));
    let mut b = a;
    assert_eq!(b.push_str("two"), Ok(()));
    assert_eq!(a.as_str(), "one");
    assert_eq!(b.as_str(), "onetwo");
}

#[test]
fn two_appends_match_one_append_of_the_concatenation() {
    let mut x: ConstString<12> = ConstString::new();
    let mut y: ConstString<12> = ConstString::new();
    assert_eq!(x.push_str("ab"), Ok(()));
    assert_eq!(y.push_str("ab"), Ok(()));
    assert_eq!(x.push_str("cd"), Ok(()));
    assert_eq!(x.push_str("éf"), Ok(()));
    assert_eq!(y.push_str(&("cd".to_string() + "éf")), Ok(()));
    assert_eq!(x.as_str(), y.as_str());
    assert_eq!(format!("{:?}", x), format!("{:?}", y));
}

#[test]
fn new_buffer_is_zero_filled() {
    let b: ConstString<3> = ConstString::new();
    assert_eq!(format!("{:?}", b), "ConstString { data: [0, 0, 0], len: 0 }");
}

#[test]
fn as_str_has_the_bytes_in_use() {
    let mut b: ConstString<8> = ConstString::new();
    assert_eq!(b.push_str("hé"), Ok(()));
    assert_eq!(b.as_str().as_bytes(), &[104u8, 195, 169][..]);
}
