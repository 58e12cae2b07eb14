use os_str_generic::{NativeString, OsStrElement, OsStrGenericExt};

/// A native string whose units are the bytes of `s`, as a narrow platform
/// would store ASCII text.
fn ns(s: &str) -> NativeString {
    NativeString::from_units(s.bytes().map(|b| b as u16).collect())
}

/// A native string from explicit (possibly wide) code units.
fn nw(units: &[u16]) -> NativeString {
    NativeString::from_units(units.to_vec())
}

fn first_element(s: &NativeString) -> OsStrElement {
    s.elements().next().unwrap()
}

#[test]
fn round_trip_empty() {
    let s = ns("");
    assert_eq!(NativeString::from_elements(s.elements()), s);
}

#[test]
fn round_trip_single_unit() {
    let s = ns("x");
    assert_eq!(NativeString::from_elements(s.elements()), s);
}

#[test]
fn round_trip_multi_unit() {
    let s = ns("hello world");
    assert_eq!(NativeString::from_elements(s.elements()), s);
    // Wide units, including an unpaired surrogate half: still unit-exact.
    let w = nw(&[0xd800, 0x0068, 0xffff, 0x0000]);
    assert_eq!(NativeString::from_elements(w.elements()), w);
}

#[test]
fn length_agreement() {
    for s in [ns(""), ns("a"), ns("hello world"), nw(&[0xd800, 0x68])] {
        let mut count: usize = 0;
        let mut it = s.elements();
        while it.next().is_some() {
            count += 1;
        }
        assert_eq!(count, s.len());
    }
}

#[test]
fn starts_with_reflexive() {
    for s in [ns(""), ns("a"), ns("hello"), nw(&[0xd800, 0x68])] {
        assert!(s.starts_with(&s));
    }
}

#[test]
fn starts_with_over_length_prefix() {
    assert!(!ns("").starts_with(&ns("a")));
    assert!(!ns("hi").starts_with(&ns("hip")));
    assert!(!ns("hi").starts_with(&ns("hi there")));
}

#[test]
fn starts_with_empty_prefix() {
    assert!(ns("").starts_with(&ns("")));
    assert!(ns("anything").starts_with(&ns("")));
}

#[test]
fn strip_inverse() {
    let subject = ns("hello world");
    for prefix in [ns(""), ns("hello"), ns("hello world")] {
        assert!(subject.starts_with(&prefix));
        let rest = subject.without_prefix(&prefix).unwrap();
        let mut rebuilt = prefix.as_units().clone();
        rebuilt.extend_from_slice(rest.as_units());
        assert_eq!(&rebuilt, subject.as_units());
    }
    for prefix in [ns("helli"), ns("hello world "), ns("world")] {
        assert!(!subject.starts_with(&prefix));
        assert_eq!(subject.without_prefix(&prefix), None);
    }
}

#[test]
fn without_prefix_of_whole_string_is_empty() {
    let s = ns("abc");
    assert_eq!(s.without_prefix(&s), Some(ns("")));
}

#[test]
fn element_raw_values() {
    let s = ns("hi");
    let mut v = s.elements();
    assert_eq!(v.next().unwrap().raw(), 0x68);
    assert_eq!(v.next().unwrap().raw(), 0x69);
    assert_eq!(v.next(), None);
}

#[test]
fn element_char_truncates_to_low_byte() {
    // A wide unit whose low byte is 'h': the ASCII-range comparison
    // truncates, so it matches 'h'...
    let wide = first_element(&nw(&[0x0168]));
    assert_eq!(wide, 'h');
    // ...but a non-ASCII character never matches, even on an exact unit.
    let e_grave = first_element(&nw(&[0x00e8]));
    assert!(e_grave != '\u{e8}');
    assert!(e_grave != 'h');
}

#[test]
fn element_byte_guards_high_byte() {
    // The byte comparison, unlike the character one, refuses a wide unit
    // whose high byte is non-zero.
    let wide = first_element(&nw(&[0x0168]));
    assert!(wide != 0x68u8);
    let narrow = first_element(&nw(&[0x0068]));
    assert_eq!(narrow, 0x68u8);
}

#[test]
fn element_vs_native_string_lengths() {
    let h = first_element(&ns("h"));
    let one = ns("h");
    let other = ns("i");
    let two = ns("hh");
    let empty = ns("");
    assert_eq!(h, &one);
    assert!(h != &other);
    // Comparing against a multi-unit or empty string is false, not an error.
    assert!(h != &two);
    assert!(h != &empty);
}

#[test]
fn element_as_os_string() {
    let h = first_element(&ns("h"));
    assert_eq!(h.as_os_string(), ns("h"));
    let wide = first_element(&nw(&[0xd800]));
    assert_eq!(wide.as_os_string(), nw(&[0xd800]));
}

#[test]
fn peek_does_not_advance() {
    let s = ns("ab");
    let mut it = s.elements();
    let peeked = it.peek().unwrap();
    let taken = it.next().unwrap();
    assert_eq!(peeked, taken);
    assert_eq!(it.next().unwrap(), 'b');
    assert_eq!(it.peek(), None);
    assert_eq!(it.next(), None);
}

#[test]
fn native_string_basics() {
    assert_eq!(NativeString::new(), ns(""));
    assert_eq!(NativeString::new().len(), 0);
    assert_eq!(ns("hi").len(), 2);
    assert_eq!(ns("hi").as_units(), &vec![0x68u16, 0x69u16]);
    assert!(ns("hi") != ns("ho"));
    assert!(ns("hi") != ns("hip"));
}

#[test]
fn wide_prefix_operations() {
    let s = nw(&[0xd800, 0xdc00, 0x0041]);
    let p = nw(&[0xd800, 0xdc00]);
    assert!(s.starts_with(&p));
    assert_eq!(s.without_prefix(&p), Some(nw(&[0x0041])));
    // Matching is per unit: half of a surrogate pair is a valid prefix.
    let half = nw(&[0xd800]);
    assert!(s.starts_with(&half));
    assert_eq!(s.without_prefix(&half), Some(nw(&[0xdc00, 0x0041])));
}
