use string_rendezvous::predicate::is_good_strings;

fn bytes(s: &str) -> Vec<u8> {
    s.as_bytes().to_vec()
}

#[test]
fn every_byte_of_first_found_in_second() {
    assert!(is_good_strings(&bytes("aab"), &bytes("bca")));
    assert!(is_good_strings(&bytes("x"), &bytes("xyz")));
    assert!(is_good_strings(&bytes("Zz9"), &bytes("9zZ")));
}

#[test]
fn a_missing_byte_rejects() {
    assert!(!is_good_strings(&bytes("abz"), &bytes("abc")));
    assert!(!is_good_strings(&bytes("q"), &bytes("abc")));
    assert!(!is_good_strings(&bytes("a"), &bytes("A")));
}

#[test]
fn empty_first_is_never_accepted() {
    assert!(!is_good_strings(&bytes(""), &bytes("")));
    assert!(!is_good_strings(&bytes(""), &bytes("abc")));
    assert!(!is_good_strings(&Vec::new(), &bytes("0123456789")));
}

#[test]
fn nonempty_first_against_empty_second_is_rejected() {
    assert!(!is_good_strings(&bytes("a"), &bytes("")));
}

#[test]
fn predicate_is_not_symmetric() {
    assert!(is_good_strings(&bytes("ab"), &bytes("abcd")));
    assert!(!is_good_strings(&bytes("abcd"), &bytes("ab")));
}

#[test]
fn multiplicities_are_ignored() {
    assert!(is_good_strings(&bytes("aaaa"), &bytes("a")));
    assert!(is_good_strings(&bytes("a"), &bytes("aaaa")));
}
