use iseq_ir::CDHash;
use iseq_ir::Id;
use iseq_ir::Ise;
use iseq_ir::Ivc;
use iseq_ir::Value;

#[test]
fn handles_round_trip_their_raw_index() {
    assert_eq!(Id(7).0, 7);
    assert_eq!(Ivc(7).0, 7);
    assert_eq!(Ise(7).0, 7);
    assert_eq!(Value(7).0, 7);
    assert_eq!(CDHash(7).0, 7);
}

#[test]
fn handle_kinds_are_not_interchangeable() {
    // Two handles of different kinds built from the same raw integer are
    // distinct at the type level: `Id(7) == Value(7)` does not compile, and
    // there is no conversion between kinds. All that can be compared is the
    // raw index each one carries.
    let id = Id(7);
    let value = Value(7);
    assert_eq!(id.0 as usize, value.0);
    assert_eq!(id, Id(7));
    assert_eq!(value, Value(7));
}

#[test]
fn handle_equality_is_within_kind_only() {
    assert_eq!(Ivc(3), Ivc(3));
    assert_ne!(Ivc(3), Ivc(4));
    assert_eq!(Ise(0), Ise(0));
    assert_ne!(CDHash(1), CDHash(2));
}

#[test]
fn handles_order_by_their_index() {
    assert!(Id(1) < Id(2));
    assert!(Value(0) < Value(10));
    assert!(CDHash(5) > CDHash(4));
    assert!(Ivc(2) <= Ivc(2));
    assert!(Ise(9) >= Ise(3));
}
