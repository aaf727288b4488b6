use std::collections::hash_map::DefaultHasher;
use std::hash::{Hash, Hasher};

use ast_names::name::{Ident, Operator, UpperIdent};
use ast_names::validity::{is_valid_candidate, validate, Category, InvalidNameError};

fn hash_of<T: Hash>(value: &T) -> u64 {
    let mut hasher = DefaultHasher::new();
    value.hash(&mut hasher);
    hasher.finish()
}

#[test]
fn empty_is_rejected_everywhere() {
    assert_eq!(Ident::new(""), Err(InvalidNameError::Empty));
    assert_eq!(UpperIdent::new(""), Err(InvalidNameError::Empty));
    assert_eq!(Operator::new(""), Err(InvalidNameError::Empty));
}

#[test]
fn leading_character_is_enforced() {
    assert_eq!(Ident::new("Foo"), Err(InvalidNameError::BadLeadingCharacter));
    assert_eq!(UpperIdent::new("foo"), Err(InvalidNameError::BadLeadingCharacter));
    assert_eq!(Ident::new("_foo"), Err(InvalidNameError::BadLeadingCharacter));
    assert_eq!(Ident::new("1foo"), Err(InvalidNameError::BadLeadingCharacter));
    assert_eq!(Operator::new("a"), Err(InvalidNameError::BadLeadingCharacter));
    assert_eq!(Operator::new("_"), Err(InvalidNameError::BadLeadingCharacter));
}

#[test]
fn leading_check_comes_before_alphabet_check() {
    assert_eq!(Ident::new("Foo bar"), Err(InvalidNameError::BadLeadingCharacter));
    assert_eq!(Ident::new(" foo"), Err(InvalidNameError::BadLeadingCharacter));
}

#[test]
fn illegal_characters_are_reported_with_their_offset() {
    assert_eq!(Ident::new("foo bar"), Err(InvalidNameError::IllegalCharacter(3)));
    assert_eq!(Ident::new("foo.bar"), Err(InvalidNameError::IllegalCharacter(3)));
    assert_eq!(UpperIdent::new("Name,"), Err(InvalidNameError::IllegalCharacter(4)));
    // Digits are outside the operator alphabet.
    assert_eq!(Operator::new("+-1"), Err(InvalidNameError::IllegalCharacter(2)));
    // Non-ASCII characters are rejected, never a panic.
    assert_eq!(Ident::new("fooé"), Err(InvalidNameError::IllegalCharacter(3)));
}

#[test]
fn reserved_operator_rule() {
    assert_eq!(Operator::new("="), Err(InvalidNameError::ReservedOperator));
    assert!(Operator::new("==").is_ok());
    assert!(Operator::new("+").is_ok());
    assert!(Operator::new("*=").is_ok());
}

#[test]
fn accepted_candidates_keep_their_text() {
    let id = Ident::new("foo_bar42").unwrap();
    assert_eq!(id.get(), "foo_bar42");
    let ty = UpperIdent::new("Maybe_2").unwrap();
    assert_eq!(ty.get(), "Maybe_2");
    let op = Operator::new("<=>").unwrap();
    assert_eq!(op.get(), "<=>");
    // The shared alphabet lets identifiers carry digits, uppercase letters
    // and operator characters after the leading one.
    assert_eq!(Ident::new("x+1").unwrap().get(), "x+1");
    assert_eq!(Operator::new("+x").unwrap().get(), "+x");
}

#[test]
fn round_trip_rebuilds_an_equal_instance() {
    let id = Ident::new("foo_bar42").unwrap();
    assert_eq!(Ident::new(id.get()).unwrap(), id);
    let ty = UpperIdent::new("Tree").unwrap();
    assert_eq!(UpperIdent::new(ty.get()).unwrap(), ty);
    let op = Operator::new("*=").unwrap();
    assert_eq!(Operator::new(op.get()).unwrap(), op);
}

#[test]
fn equality_is_text_equality_and_hashing_agrees() {
    let a = Ident::new("same").unwrap();
    let b = Ident::new("same").unwrap();
    let c = Ident::new("other").unwrap();
    assert_eq!(a, b);
    assert_eq!(a.get(), b.get());
    assert_ne!(a, c);
    assert_ne!(a.get(), c.get());
    assert_eq!(hash_of(&a), hash_of(&b));

    let p = Operator::new("<>").unwrap();
    let q = Operator::new("<>").unwrap();
    assert_eq!(p, q);
    assert_eq!(hash_of(&p), hash_of(&q));

    let s = UpperIdent::new("Pair").unwrap();
    let t = UpperIdent::new("Pair").unwrap();
    assert_eq!(s, t);
    assert_eq!(hash_of(&s), hash_of(&t));
}

#[test]
fn accessors_never_change_the_text() {
    let id = Ident::new("stable").unwrap();
    assert_eq!(id.get(), "stable");
    let owned = id.inner();
    assert_eq!(owned, "stable");
    let copy = id.clone();
    assert_eq!(copy.get(), "stable");
    assert_eq!(copy, id);
    // The original is untouched by every operation above.
    assert_eq!(id.get(), "stable");
}

#[test]
fn inner_returns_an_independent_copy() {
    let id = Ident::new("kept").unwrap();
    let mut owned = id.inner();
    owned.push('!');
    assert_eq!(id.get(), "kept");
}

#[test]
fn at_most_one_category_accepts_any_candidate() {
    let candidates = [
        "", "foo", "Foo", "_foo", "+", "=", "==", "x+1", "Maybe_2", "1st", "<=>", "a b", "é", "~",
        "z9?", "Z",
    ];
    for candidate in candidates {
        let mut accepted = 0;
        if is_valid_candidate(Category::Identifier, candidate) {
            accepted += 1;
        }
        if is_valid_candidate(Category::TypeName, candidate) {
            accepted += 1;
        }
        if is_valid_candidate(Category::Operator, candidate) {
            accepted += 1;
        }
        assert!(accepted <= 1, "{candidate:?} accepted by {accepted} categories");
    }
}

#[test]
fn validate_agrees_with_the_constructors() {
    assert_eq!(validate(Category::Identifier, "foo"), None);
    assert_eq!(validate(Category::TypeName, "foo"), Some(InvalidNameError::BadLeadingCharacter));
    assert_eq!(validate(Category::Operator, "="), Some(InvalidNameError::ReservedOperator));
    assert_eq!(validate(Category::Operator, ""), Some(InvalidNameError::Empty));
}

#[test]
fn generators_only_produce_valid_values() {
    let mut plus_seen = false;
    let mut star_seen = false;
    for round in 0..100 {
        let id = Ident::minimal();
        assert!(is_valid_candidate(Category::Identifier, id.get()));
        assert_eq!(id.get(), "v");

        let ty = UpperIdent::minimal();
        assert!(is_valid_candidate(Category::TypeName, ty.get()));
        assert_eq!(ty.get(), "T");

        let op = Operator::minimal(round % 2 == 0);
        assert!(is_valid_candidate(Category::Operator, op.get()));
        assert_ne!(op.get(), "=");
        match op.get() {
            "+" => plus_seen = true,
            "*" => star_seen = true,
            other => panic!("unexpected operator {other:?}"),
        }
    }
    assert!(plus_seen && star_seen);
}

#[test]
fn generator_draws_can_come_from_unstructured_bytes() {
    // Drive the operator generator's choice the way a fuzzing harness
    // would, from raw bytes.
    let data: Vec<u8> = (0u8..100).collect();
    let mut u = arbitrary::Unstructured::new(&data);
    for _ in 0..100 {
        let plus: bool = u.arbitrary().unwrap_or(true);
        let op = Operator::minimal(plus);
        assert!(is_valid_candidate(Category::Operator, op.get()));
        assert_ne!(op.get(), "=");
    }
}
