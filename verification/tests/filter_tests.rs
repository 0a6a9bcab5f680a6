use bindump::filter::{bytes_eq, find_member, MemberFilter};

#[test]
fn empty_filter_matches_everything() {
    let mut f = MemberFilter::new(Vec::new());
    assert!(find_member(&mut f, b"anything"));
    assert!(find_member(&mut f, b""));
    assert!(f.entries.is_empty());
}

#[test]
fn exact_byte_match_marks_found() {
    let mut f = MemberFilter::new(vec![b"a.o".to_vec(), b"b.o".to_vec()]);
    assert!(find_member(&mut f, b"b.o"));
    assert!(!f.entries[0].found);
    assert!(f.entries[1].found);
    assert!(!find_member(&mut f, b"c.o"));
    // a repeat of an already-found name still passes
    assert!(find_member(&mut f, b"b.o"));
}

#[test]
fn near_miss_names_do_not_match() {
    let mut f = MemberFilter::new(vec![b"a.o".to_vec()]);
    assert!(!find_member(&mut f, b"a.o "));
    assert!(!find_member(&mut f, b"a."));
    assert!(!f.entries[0].found);
}

#[test]
fn byte_equality_is_exact() {
    assert!(bytes_eq(b"abc", b"abc"));
    assert!(!bytes_eq(b"abc", b"abd"));
    assert!(!bytes_eq(b"abc", b"ab"));
    assert!(bytes_eq(b"", b""));
}
