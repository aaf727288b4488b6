//! The shared validity predicate set: one parameterized checker that
//! decides whether a candidate string is a member of a name category,
//! and if not, why.

use vstd::prelude::*;

verus! {

/// The three categories of name tokens.
#[derive(Clone, Copy, PartialEq, Eq, Structural, Debug)]
pub enum Category {
    /// Lowercase-leading identifiers (variables, fields, functions).
    Identifier,
    /// Uppercase-leading names (types, constructors, modules).
    TypeName,
    /// Symbol-leading operator names.
    Operator,
}

/// Why a candidate was rejected.
#[derive(Clone, Copy, PartialEq, Eq, Structural, Debug)]
pub enum InvalidNameError {
    /// The candidate is empty.
    Empty,
    /// The first character is outside the category's leading set.
    BadLeadingCharacter,
    /// A character outside the category's alphabet, at this character offset.
    IllegalCharacter(usize),
    /// The candidate is exactly the single character `=`, which is not a
    /// valid operator.
    ReservedOperator,
}

/// `a` through `z`.
pub open spec fn is_lowercase_letter(c: char) -> bool {
    'a' <= c && c <= 'z'
}

/// `A` through `Z`.
pub open spec fn is_uppercase_letter(c: char) -> bool {
    'A' <= c && c <= 'Z'
}

/// `0` through `9`.
pub open spec fn is_digit_char(c: char) -> bool {
    '0' <= c && c <= '9'
}

/// One of the operator characters `+ - * / % ~ < > = ? !`.
pub open spec fn is_operator_char(c: char) -> bool {
    c == '+' || c == '-' || c == '*' || c == '/' || c == '%' || c == '~' || c == '<' || c == '>'
        || c == '=' || c == '?' || c == '!'
}

/// The alphabet shared by `Identifier` and `TypeName`: letters, digits,
/// underscore and operator characters.
pub open spec fn is_name_char(c: char) -> bool {
    is_lowercase_letter(c) || is_uppercase_letter(c) || is_digit_char(c) || c == '_'
        || is_operator_char(c)
}

/// The `Operator` alphabet: letters, underscore and operator characters,
/// with no digits.
pub open spec fn is_operator_name_char(c: char) -> bool {
    is_lowercase_letter(c) || is_uppercase_letter(c) || c == '_' || is_operator_char(c)
}

/// The full alphabet of a category.
pub open spec fn in_alphabet(cat: Category, c: char) -> bool {
    match cat {
        Category::Identifier => is_name_char(c),
        Category::TypeName => is_name_char(c),
        Category::Operator => is_operator_name_char(c),
    }
}

/// The leading-character set of a category.
pub open spec fn is_leading(cat: Category, c: char) -> bool {
    match cat {
        Category::Identifier => is_lowercase_letter(c),
        Category::TypeName => is_uppercase_letter(c),
        Category::Operator => is_operator_char(c),
    }
}

/// Membership of a candidate in a category: non-empty, leading character
/// in the leading set, every character in the alphabet, and never the
/// bare `=` as an operator.
pub open spec fn is_valid(cat: Category, s: Seq<char>) -> bool {
    &&& s.len() > 0
    &&& is_leading(cat, s[0])
    &&& forall|i: int| 0 <= i < s.len() ==> in_alphabet(cat, #[trigger] s[i])
    &&& !(cat is Operator && s.len() == 1 && s[0] == '=')
}

/// The position of the first character at or after `i` that falls outside
/// the category's alphabet, if any.
pub open spec fn first_illegal_at(cat: Category, s: Seq<char>, i: int) -> Option<int>
    decreases s.len() - i,
{
    if i < 0 || i >= s.len() {
        None
    } else if !in_alphabet(cat, s[i]) {
        Some(i)
    } else {
        first_illegal_at(cat, s, i + 1)
    }
}

/// The rejection reason a candidate earns in a category, or `None` when it
/// is accepted: emptiness first, then the leading character, then the
/// first out-of-alphabet character after it, then the reserved `=`.
pub open spec fn check_error(cat: Category, s: Seq<char>) -> Option<InvalidNameError> {
    if s.len() == 0 {
        Some(InvalidNameError::Empty)
    } else if !is_leading(cat, s[0]) {
        Some(InvalidNameError::BadLeadingCharacter)
    } else {
        match first_illegal_at(cat, s, 1) {
            Some(k) => Some(InvalidNameError::IllegalCharacter(k as usize)),
            None => {
                if cat is Operator && s.len() == 1 && s[0] == '=' {
                    Some(InvalidNameError::ReservedOperator)
                } else {
                    None
                }
            },
        }
    }
}

/// `first_illegal_at` finds exactly the first out-of-alphabet character at
/// or after `i`, and `None` means there is none.
pub proof fn lemma_first_illegal_at(cat: Category, s: Seq<char>, i: int)
    requires
        0 <= i <= s.len(),
    ensures
        match first_illegal_at(cat, s, i) {
            None => forall|j: int| i <= j < s.len() ==> in_alphabet(cat, #[trigger] s[j]),
            Some(k) => i <= k < s.len() && !in_alphabet(cat, s[k]) && forall|j: int|
                i <= j < k ==> in_alphabet(cat, #[trigger] s[j]),
        },
    decreases s.len() - i,
{
    if i < s.len() && in_alphabet(cat, s[i]) {
        lemma_first_illegal_at(cat, s, i + 1);
    }
}

/// A candidate is accepted (no rejection reason) exactly when it is a
/// valid member of the category.
pub proof fn lemma_check_error_none_iff_valid(cat: Category, s: Seq<char>)
    ensures
        check_error(cat, s) is None <==> is_valid(cat, s),
{
    if s.len() > 0 && is_leading(cat, s[0]) {
        lemma_first_illegal_at(cat, s, 1);
    }
}

fn is_operator_char_exec(c: char) -> (b: bool)
    ensures
        b == is_operator_char(c),
{
    c == '+' || c == '-' || c == '*' || c == '/' || c == '%' || c == '~' || c == '<' || c == '>'
        || c == '=' || c == '?' || c == '!'
}

fn in_alphabet_exec(cat: Category, c: char) -> (b: bool)
    ensures
        b == in_alphabet(cat, c),
{
    let letter_or_underscore = ('a' <= c && c <= 'z') || ('A' <= c && c <= 'Z') || c == '_';
    match cat {
        Category::Operator => letter_or_underscore || is_operator_char_exec(c),
        _ => letter_or_underscore || ('0' <= c && c <= '9') || is_operator_char_exec(c),
    }
}

fn is_leading_exec(cat: Category, c: char) -> (b: bool)
    ensures
        b == is_leading(cat, c),
{
    match cat {
        Category::Identifier => 'a' <= c && c <= 'z',
        Category::TypeName => 'A' <= c && c <= 'Z',
        Category::Operator => is_operator_char_exec(c),
    }
}

/// Decide membership of `candidate` in `cat`: `None` on acceptance,
/// otherwise exactly the rejection reason `check_error` assigns.
pub fn validate(cat: Category, candidate: &str) -> (r: Option<InvalidNameError>)
    ensures
        r == check_error(cat, candidate@),
        r is None <==> is_valid(cat, candidate@),
{
    proof {
        lemma_check_error_none_iff_valid(cat, candidate@);
    }
    let n: usize = candidate.unicode_len();
    if n == 0 {
        return Some(InvalidNameError::Empty);
    }
    let first = candidate.get_char(0);
    if !is_leading_exec(cat, first) {
        return Some(InvalidNameError::BadLeadingCharacter);
    }
    let mut i: usize = 1;
    while i < n
        invariant
            1 <= i <= n,
            n == candidate@.len(),
            is_leading(cat, candidate@[0]),
            forall|j: int| 1 <= j < i ==> in_alphabet(cat, #[trigger] candidate@[j]),
        decreases n - i,
    {
        let c = candidate.get_char(i);
        if !in_alphabet_exec(cat, c) {
            proof {
                lemma_first_illegal_at(cat, candidate@, 1);
            }
            return Some(InvalidNameError::IllegalCharacter(i));
        }
        i += 1;
    }
    proof {
        lemma_first_illegal_at(cat, candidate@, 1);
    }
    if cat == Category::Operator && n == 1 && first == '=' {
        return Some(InvalidNameError::ReservedOperator);
    }
    None
}

/// Decide bare membership of `candidate` in `cat`, with no reason.
pub fn is_valid_candidate(cat: Category, candidate: &str) -> (b: bool)
    ensures
        b == is_valid(cat, candidate@),
{
    validate(cat, candidate).is_none()
}

} // verus!
