use peg_runtime::slice::SliceByClone;
use peg_runtime::slice::SliceByRef;
use peg_runtime::Parse;
use peg_runtime::ParseElem;
use peg_runtime::ParseLiteral;
use peg_runtime::ParseSlice;
use peg_runtime::RuleResult;

#[test]
fn bytes_abc_scenario() {
    let input: &[u8] = b"abc";
    assert_eq!(input.start(), 0);
    assert!(!input.is_eof(0));
    assert!(input.is_eof(3));
    assert_eq!(input.parse_elem(0), RuleResult::Matched(1, b'a'));
    assert_eq!(input.parse_elem(3), RuleResult::Failed);
    assert_eq!(input.parse_string_literal(0, "ab"), RuleResult::Matched(2, ()));
    assert_eq!(input.parse_string_literal(0, "ac"), RuleResult::Failed);
    assert_eq!(input.parse_slice(1, 3), &b"bc"[..]);
}

#[test]
fn empty_input_scenario() {
    let input: &[u8] = b"";
    assert_eq!(input.start(), 0);
    assert!(input.is_eof(0));
    assert_eq!(input.parse_elem(0), RuleResult::Failed);
    assert_eq!(input.parse_slice(0, 0), &b""[..]);
}

#[test]
fn is_eof_far_past_the_end() {
    let input: &[u8] = b"abc";
    assert!(input.is_eof(4));
    assert!(input.is_eof(usize::MAX));
    assert!(!input.is_eof(2));
}

#[test]
fn position_repr_is_the_index() {
    let input: &[u8] = b"abc";
    assert_eq!(input.position_repr(0), 0);
    assert_eq!(input.position_repr(2), 2);
    assert_eq!(input.position_repr(7), 7);
}

#[test]
fn element_access_copies_each_item() {
    let values: [u32; 3] = [10, 20, 30];
    let input: &[u32] = &values;
    assert_eq!(input.parse_elem(0), RuleResult::Matched(1, 10));
    assert_eq!(input.parse_elem(1), RuleResult::Matched(2, 20));
    assert_eq!(input.parse_elem(2), RuleResult::Matched(3, 30));
    assert_eq!(input.parse_elem(3), RuleResult::Failed);
}

#[test]
fn literal_match_at_interior_position() {
    let input: &[u8] = b"abc";
    assert_eq!(input.parse_string_literal(1, "bc"), RuleResult::Matched(3, ()));
    assert_eq!(input.parse_string_literal(1, "b"), RuleResult::Matched(2, ()));
    assert_eq!(input.parse_string_literal(1, "c"), RuleResult::Failed);
}

#[test]
fn literal_longer_than_remaining_input_fails() {
    let input: &[u8] = b"abc";
    assert_eq!(input.parse_string_literal(0, "abcd"), RuleResult::Failed);
    assert_eq!(input.parse_string_literal(2, "cd"), RuleResult::Failed);
    assert_eq!(input.parse_string_literal(3, "a"), RuleResult::Failed);
}

#[test]
fn empty_literal_matches_without_advancing() {
    let input: &[u8] = b"abc";
    assert_eq!(input.parse_string_literal(0, ""), RuleResult::Matched(0, ()));
    assert_eq!(input.parse_string_literal(2, ""), RuleResult::Matched(2, ()));
    assert_eq!(input.parse_string_literal(3, ""), RuleResult::Matched(3, ()));
    assert_eq!(input.parse_string_literal(4, ""), RuleResult::Failed);
}

#[test]
fn sub_range_has_expected_length_and_items() {
    let values: [u32; 4] = [1, 2, 3, 4];
    let input: &[u32] = &values;
    let sub: &[u32] = input.parse_slice(1, 3);
    assert_eq!(sub.len(), 2);
    assert_eq!(sub, &values[1..3]);
    assert_eq!(input.parse_slice(0, 4), &values[..]);
    assert_eq!(input.parse_slice(2, 2), &values[0..0]);
}

#[test]
fn by_ref_positions_match_direct_realization() {
    let values = [String::from("hello"), String::from("world")];
    let wrapped = SliceByRef(&values[..]);
    assert_eq!(wrapped.start(), 0);
    assert!(!wrapped.is_eof(1));
    assert!(wrapped.is_eof(2));
    assert_eq!(wrapped.position_repr(1), 1);
}

#[test]
fn by_ref_element_access_returns_references() {
    let values = [String::from("hello"), String::from("world")];
    let wrapped = SliceByRef(&values[..]);
    assert_eq!(wrapped.parse_elem(0), RuleResult::Matched(1, &values[0]));
    assert_eq!(wrapped.parse_elem(1), RuleResult::Matched(2, &values[1]));
    assert_eq!(wrapped.parse_elem(2), RuleResult::Failed);
    match wrapped.parse_elem(0) {
        RuleResult::Matched(next, item) => {
            assert_eq!(next, 1);
            assert_eq!(*item, values[0]);
        }
        RuleResult::Failed => panic!("element access failed at a valid position"),
    }
}

#[test]
fn by_ref_sub_range_matches_direct_realization() {
    let values = [String::from("a"), String::from("b"), String::from("c")];
    let wrapped = SliceByRef(&values[..]);
    assert_eq!(wrapped.parse_slice(1, 3), &values[1..3]);
    assert_eq!(wrapped.parse_slice(0, 0), &values[0..0]);
}

#[test]
fn by_ref_from_wraps_the_slice() {
    let values = [String::from("x")];
    let wrapped = SliceByRef::from(&values[..]);
    assert_eq!(wrapped.0.len(), 1);
    assert_eq!(wrapped.parse_elem(0), RuleResult::Matched(1, &values[0]));
}

#[test]
fn by_clone_element_access_clones_each_item() {
    let values = [String::from("hello"), String::from("world")];
    let wrapped = SliceByClone(&values[..]);
    assert_eq!(wrapped.parse_elem(0), RuleResult::Matched(1, String::from("hello")));
    assert_eq!(wrapped.parse_elem(1), RuleResult::Matched(2, String::from("world")));
    assert_eq!(wrapped.parse_elem(2), RuleResult::Failed);
}

#[test]
fn by_clone_positions_and_sub_ranges() {
    let values = [String::from("a"), String::from("b")];
    let wrapped = SliceByClone(&values[..]);
    assert_eq!(wrapped.start(), 0);
    assert!(wrapped.is_eof(2));
    assert!(!wrapped.is_eof(0));
    assert_eq!(wrapped.position_repr(9), 9);
    assert_eq!(wrapped.parse_slice(0, 2), &values[..]);
}

#[test]
fn empty_input_by_ref_and_by_clone() {
    let values: [u8; 0] = [];
    let by_ref = SliceByRef(&values[..]);
    assert!(by_ref.is_eof(0));
    assert_eq!(by_ref.parse_elem(0), RuleResult::Failed);
    assert_eq!(by_ref.parse_slice(0, 0), &values[..]);
    let by_clone = SliceByClone(&values[..]);
    assert!(by_clone.is_eof(0));
    assert_eq!(by_clone.parse_elem(0), RuleResult::Failed);
}
