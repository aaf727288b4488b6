//! Laws that hold of the name categories and their types as a whole,
//! proved once for all inputs.

use vstd::prelude::*;
use vstd::std_specs::cmp::PartialEqSpec;

use crate::name::{Ident, Operator, UpperIdent};
use crate::validity::{check_error, is_valid, lemma_check_error_none_iff_valid, Category};

verus! {

/// Category disjointness: no candidate is a valid member of two
/// categories at once, since the leading-character sets of the three
/// categories are pairwise disjoint.
pub proof fn lemma_category_disjointness(s: Seq<char>)
    ensures
        !(is_valid(Category::Identifier, s) && is_valid(Category::TypeName, s)),
        !(is_valid(Category::Identifier, s) && is_valid(Category::Operator, s)),
        !(is_valid(Category::TypeName, s) && is_valid(Category::Operator, s)),
{
}

/// Equality of identifiers is text equality: `a == b` holds exactly when
/// the two stored texts are identical.
pub proof fn lemma_eq_is_text_eq_ident(a: &Ident, b: &Ident)
    ensures
        a.eq_spec(b) <==> a@ == b@,
{
}

/// Equality of operators is text equality: `a == b` holds exactly when
/// the two stored texts are identical.
pub proof fn lemma_eq_is_text_eq_operator(a: &Operator, b: &Operator)
    ensures
        a.eq_spec(b) <==> a@ == b@,
{
}

/// Equality of type names is text equality: `a == b` holds exactly when
/// the two stored texts are identical.
pub proof fn lemma_eq_is_text_eq_upper_ident(a: &UpperIdent, b: &UpperIdent)
    ensures
        a.eq_spec(b) <==> a@ == b@,
{
}

/// Round trip for identifiers: the text of a live instance is itself a
/// valid candidate, so `Ident::new` accepts it again, and any instance
/// carrying that text is equal to the original.
pub proof fn lemma_round_trip_ident(v: &Ident, w: &Ident)
    requires
        v.wf(),
        w@ == v@,
    ensures
        is_valid(Category::Identifier, v@),
        check_error(Category::Identifier, v@) is None,
        v.eq_spec(w),
{
    lemma_check_error_none_iff_valid(Category::Identifier, v@);
}

/// Round trip for operators: the text of a live instance is itself a
/// valid candidate, so `Operator::new` accepts it again, and any instance
/// carrying that text is equal to the original.
pub proof fn lemma_round_trip_operator(v: &Operator, w: &Operator)
    requires
        v.wf(),
        w@ == v@,
    ensures
        is_valid(Category::Operator, v@),
        check_error(Category::Operator, v@) is None,
        v.eq_spec(w),
{
    lemma_check_error_none_iff_valid(Category::Operator, v@);
}

/// Round trip for type names: the text of a live instance is itself a
/// valid candidate, so `UpperIdent::new` accepts it again, and any
/// instance carrying that text is equal to the original.
pub proof fn lemma_round_trip_upper_ident(v: &UpperIdent, w: &UpperIdent)
    requires
        v.wf(),
        w@ == v@,
    ensures
        is_valid(Category::TypeName, v@),
        check_error(Category::TypeName, v@) is None,
        v.eq_spec(w),
{
    lemma_check_error_none_iff_valid(Category::TypeName, v@);
}

} // verus!
