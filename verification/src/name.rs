//! The three name token types: validating construction, read-only
//! accessors, equality, and the minimal-value generators used by fuzzing
//! harnesses.

use vstd::prelude::*;

use crate::validity::{check_error, is_valid, validate, Category, InvalidNameError};

verus! {

/// An identifier. Every live instance satisfies these criteria:
///
/// * ASCII-only
/// * It contains only letters (`a-z`, `A-Z`), digits (`0-9`), underscores
///   (`_`) and operator characters (`+-*/%~<>=?!`)
/// * It starts with a lowercase letter (`a-z`)
#[derive(Debug, Hash)]
pub struct Ident {
    text: String,
}

/// An operator. Every live instance satisfies these criteria:
///
/// * ASCII-only
/// * It contains only letters (`a-z`, `A-Z`), underscores (`_`) and
///   operator characters (`+-*/%~<>=?!`)
/// * It starts with an operator character (`+-*/%~<>=?!`)
/// * It is never the single equality sign (`=`)
#[derive(Debug, Hash)]
pub struct Operator {
    text: String,
}

/// A type name. Every live instance satisfies these criteria:
///
/// * ASCII-only
/// * It contains only letters (`a-z`, `A-Z`), digits (`0-9`), underscores
///   (`_`) and operator characters (`+-*/%~<>=?!`)
/// * It starts with an uppercase letter (`A-Z`)
#[derive(Debug, Hash)]
pub struct UpperIdent {
    text: String,
}

impl View for Ident {
    type V = Seq<char>;

    closed spec fn view(&self) -> Seq<char> {
        self.text@
    }
}

impl View for Operator {
    type V = Seq<char>;

    closed spec fn view(&self) -> Seq<char> {
        self.text@
    }
}

impl View for UpperIdent {
    type V = Seq<char>;

    closed spec fn view(&self) -> Seq<char> {
        self.text@
    }
}

impl Ident {
    /// Well-formedness: the stored text is a valid identifier. This holds
    /// of every live instance.
    #[verifier::type_invariant]
    pub open spec fn wf(&self) -> bool {
        is_valid(Category::Identifier, self@)
    }

    /// Validate `candidate` as an identifier; on acceptance the new value
    /// stores exactly the candidate's text, on rejection the error is
    /// exactly the reason `check_error` assigns.
    pub fn new(candidate: &str) -> (r: Result<Self, InvalidNameError>)
        ensures
            r is Ok <==> is_valid(Category::Identifier, candidate@),
            r matches Ok(v) ==> v@ == candidate@,
            r matches Err(e) ==> check_error(Category::Identifier, candidate@) == Some(e),
    {
        match validate(Category::Identifier, candidate) {
            None => Ok(Ident { text: candidate.to_owned() }),
            Some(e) => Err(e),
        }
    }

    /// A read-only view of the stored text.
    pub fn get(&self) -> (r: &str)
        ensures
            r@ == self@,
    {
        self.text.as_str()
    }

    /// An independent owned copy of the stored text.
    pub fn inner(&self) -> (r: String)
        ensures
            r@ == self@,
    {
        self.text.clone()
    }

    /// Minimal-value generator: the fixed smallest valid identifier.
    pub fn minimal() -> (r: Self)
        ensures
            r@ == "v"@,
            r.wf(),
    {
        proof {
            reveal_strlit("v");
        }
        Ident { text: "v".to_owned() }
    }
}

impl Operator {
    /// Well-formedness: the stored text is a valid operator. This holds
    /// of every live instance.
    #[verifier::type_invariant]
    pub open spec fn wf(&self) -> bool {
        is_valid(Category::Operator, self@)
    }

    /// Validate `candidate` as an operator; on acceptance the new value
    /// stores exactly the candidate's text, on rejection the error is
    /// exactly the reason `check_error` assigns.
    pub fn new(candidate: &str) -> (r: Result<Self, InvalidNameError>)
        ensures
            r is Ok <==> is_valid(Category::Operator, candidate@),
            r matches Ok(v) ==> v@ == candidate@,
            r matches Err(e) ==> check_error(Category::Operator, candidate@) == Some(e),
    {
        match validate(Category::Operator, candidate) {
            None => Ok(Operator { text: candidate.to_owned() }),
            Some(e) => Err(e),
        }
    }

    /// A read-only view of the stored text.
    pub fn get(&self) -> (r: &str)
        ensures
            r@ == self@,
    {
        self.text.as_str()
    }

    /// An independent owned copy of the stored text.
    pub fn inner(&self) -> (r: String)
        ensures
            r@ == self@,
    {
        self.text.clone()
    }

    /// Minimal-value generator: one of the two smallest valid operators,
    /// chosen by `plus`; it never produces the reserved `=`.
    pub fn minimal(plus: bool) -> (r: Self)
        ensures
            r@ == (if plus { "+"@ } else { "*"@ }),
            r.wf(),
    {
        proof {
            reveal_strlit("+");
            reveal_strlit("*");
        }
        if plus {
            Operator { text: "+".to_owned() }
        } else {
            Operator { text: "*".to_owned() }
        }
    }
}

impl UpperIdent {
    /// Well-formedness: the stored text is a valid type name. This holds
    /// of every live instance.
    #[verifier::type_invariant]
    pub open spec fn wf(&self) -> bool {
        is_valid(Category::TypeName, self@)
    }

    /// Validate `candidate` as a type name; on acceptance the new value
    /// stores exactly the candidate's text, on rejection the error is
    /// exactly the reason `check_error` assigns.
    pub fn new(candidate: &str) -> (r: Result<Self, InvalidNameError>)
        ensures
            r is Ok <==> is_valid(Category::TypeName, candidate@),
            r matches Ok(v) ==> v@ == candidate@,
            r matches Err(e) ==> check_error(Category::TypeName, candidate@) == Some(e),
    {
        match validate(Category::TypeName, candidate) {
            None => Ok(UpperIdent { text: candidate.to_owned() }),
            Some(e) => Err(e),
        }
    }

    /// A read-only view of the stored text.
    pub fn get(&self) -> (r: &str)
        ensures
            r@ == self@,
    {
        self.text.as_str()
    }

    /// An independent owned copy of the stored text.
    pub fn inner(&self) -> (r: String)
        ensures
            r@ == self@,
    {
        self.text.clone()
    }

    /// Minimal-value generator: the fixed smallest valid type name.
    pub fn minimal() -> (r: Self)
        ensures
            r@ == "T"@,
            r.wf(),
    {
        proof {
            reveal_strlit("T");
        }
        UpperIdent { text: "T".to_owned() }
    }
}

impl Clone for Ident {
    /// Cloning keeps the stored text.
    fn clone(&self) -> (r: Self)
        ensures
            r@ == self@,
    {
        proof {
            use_type_invariant(self);
        }
        Ident { text: self.text.clone() }
    }
}

impl Clone for Operator {
    /// Cloning keeps the stored text.
    fn clone(&self) -> (r: Self)
        ensures
            r@ == self@,
    {
        proof {
            use_type_invariant(self);
        }
        Operator { text: self.text.clone() }
    }
}

impl Clone for UpperIdent {
    /// Cloning keeps the stored text.
    fn clone(&self) -> (r: Self)
        ensures
            r@ == self@,
    {
        proof {
            use_type_invariant(self);
        }
        UpperIdent { text: self.text.clone() }
    }
}

impl PartialEq for Ident {
    /// Instances are equal exactly when their texts are byte-identical.
    fn eq(&self, other: &Self) -> (r: bool) {
        self.text == other.text
    }
}

impl Eq for Ident {}

impl vstd::std_specs::cmp::PartialEqSpecImpl for Ident {
    open spec fn obeys_eq_spec() -> bool {
        true
    }

    open spec fn eq_spec(&self, other: &Self) -> bool {
        self@ == other@
    }
}

impl PartialEq for Operator {
    /// Instances are equal exactly when their texts are byte-identical.
    fn eq(&self, other: &Self) -> (r: bool) {
        self.text == other.text
    }
}

impl Eq for Operator {}

impl vstd::std_specs::cmp::PartialEqSpecImpl for Operator {
    open spec fn obeys_eq_spec() -> bool {
        true
    }

    open spec fn eq_spec(&self, other: &Self) -> bool {
        self@ == other@
    }
}

impl PartialEq for UpperIdent {
    /// Instances are equal exactly when their texts are byte-identical.
    fn eq(&self, other: &Self) -> (r: bool) {
        self.text == other.text
    }
}

impl Eq for UpperIdent {}

impl vstd::std_specs::cmp::PartialEqSpecImpl for UpperIdent {
    open spec fn obeys_eq_spec() -> bool {
        true
    }

    open spec fn eq_spec(&self, other: &Self) -> bool {
        self@ == other@
    }
}

} // verus!
