use iseq_ir::ExpandArrayFlags;

#[test]
fn expand_array_flags_all_four_patterns() {
    // (raw, rest_args_array, post_arg, reverse)
    let table: Vec<(u32, bool, bool, bool)> = vec![
        (0, false, false, false),
        (1, true, false, true),
        (2, false, true, true),
        (3, true, true, true),
    ];
    for (raw, rest, post, rev) in table {
        let f = ExpandArrayFlags(raw);
        assert_eq!(f.rest_args_array(), rest);
        assert_eq!(f.post_arg(), post);
        assert_eq!(f.reverse(), rev);
    }
}

#[test]
fn reverse_is_disjunction_of_rest_and_post() {
    // The reverse predicate tests the low two bits at once, so over every
    // raw pattern it agrees with the OR of the other two predicates.
    for raw in 0u32..4u32 {
        let f = ExpandArrayFlags(raw);
        assert_eq!(f.reverse(), f.rest_args_array() || f.post_arg());
    }
}

#[test]
fn high_bits_do_not_disturb_the_predicates() {
    let f = ExpandArrayFlags(0xFFFF_FFFC);
    assert!(!f.rest_args_array());
    assert!(!f.post_arg());
    assert!(!f.reverse());
}

#[test]
fn flags_equality_is_by_raw_bits() {
    assert_eq!(ExpandArrayFlags(3), ExpandArrayFlags(3));
    assert_ne!(ExpandArrayFlags(1), ExpandArrayFlags(2));
}
