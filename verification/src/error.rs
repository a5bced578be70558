//! Generation-time failures. Every stage of the generator reports its fatal
//! conditions through [`GenError`]; the driver surfaces the first failure as a
//! diagnostic and emits nothing for the failed group.

use vstd::prelude::*;

use crate::text::{contains_seq, lemma_concat_contains_middle};

verus! {

/// A fatal generation-time failure.
#[derive(Debug)]
pub enum GenError {
    /// The `impl` block's self type is not a named path type.
    UnsupportedSelfType,
    /// An annotated block contained no constructor- or method-classified
    /// declaration: either none is implemented, or the annotation was renamed
    /// at import and is no longer recognized.
    NoQualifyingDeclarations { struct_name: String },
    /// Two declarations in one group are classified as constructors; both are
    /// named so the caller can remove one.
    MultipleConstructors { existing: String, duplicate: String },
    /// An annotation carried a modifier outside the recognized vocabulary.
    InvalidModifier { token: String },
    /// The annotation's role does not fit the kind of item it decorates.
    InputMismatch,
}

/// The diagnostic text of each failure.
pub open spec fn spec_message(e: GenError) -> Seq<char> {
    match e {
        GenError::UnsupportedSelfType => "No struct_name for impl block"@,
        GenError::NoQualifyingDeclarations { struct_name } =>
            "Found an 'impl_block' argument for struct "@ + struct_name@
            + " but no constructor or methods were found.\nThis could be because:\n  1. none are implemented, in which case the 'impl_block' decoration can be removed.\n  2. the 'neon_class' macro was renamed to something else. This is currently not supported."@,
        GenError::MultipleConstructors { existing, duplicate } =>
            "There is already a method annotated as constructor with the name '"@ + existing@
            + "'.\nWith neon we can only export one value so the method '"@ + duplicate@
            + "' is not allowed.\nTo fix it, choose one of the two."@,
        GenError::InvalidModifier { token } => "Invalid arg "@ + token@,
        GenError::InputMismatch => "the annotation role does not fit the annotated item"@,
    }
}

/// Law: the duplicate-constructor failure's message contains both the name of
/// the constructor already kept and the name of the conflicting one.
pub proof fn lemma_multiple_ctor_message_names_both(existing: String, duplicate: String)
    ensures
        contains_seq(
            spec_message(GenError::MultipleConstructors { existing, duplicate }),
            existing@,
        ),
        contains_seq(
            spec_message(GenError::MultipleConstructors { existing, duplicate }),
            duplicate@,
        ),
{
    let m = spec_message(GenError::MultipleConstructors { existing, duplicate });
    let a = "There is already a method annotated as constructor with the name '"@;
    let b = "'.\nWith neon we can only export one value so the method '"@;
    let c = "' is not allowed.\nTo fix it, choose one of the two."@;
    assert(m =~= a + existing@ + (b + duplicate@ + c));
    lemma_concat_contains_middle(a, existing@, b + duplicate@ + c);
    assert(a + existing@ + (b + duplicate@ + c) =~= m);
    assert(m =~= (a + existing@ + b) + duplicate@ + c);
    lemma_concat_contains_middle(a + existing@ + b, duplicate@, c);
}

impl GenError {
    /// Renders the diagnostic text of this failure.
    pub fn message(&self) -> (r: String)
        ensures
            r@ == spec_message(*self),
    {
        match self {
            GenError::UnsupportedSelfType => String::from_str("No struct_name for impl block"),
            GenError::NoQualifyingDeclarations { struct_name } => {
                let mut s = String::from_str("Found an 'impl_block' argument for struct ");
                s.append(struct_name.as_str());
                s.append(
                    " but no constructor or methods were found.\nThis could be because:\n  1. none are implemented, in which case the 'impl_block' decoration can be removed.\n  2. the 'neon_class' macro was renamed to something else. This is currently not supported.",
                );
                s
            },
            GenError::MultipleConstructors { existing, duplicate } => {
                let mut s = String::from_str(
                    "There is already a method annotated as constructor with the name '",
                );
                s.append(existing.as_str());
                s.append("'.\nWith neon we can only export one value so the method '");
                s.append(duplicate.as_str());
                s.append("' is not allowed.\nTo fix it, choose one of the two.");
                s
            },
            GenError::InvalidModifier { token } => {
                let mut s = String::from_str("Invalid arg ");
                s.append(token.as_str());
                s
            },
            GenError::InputMismatch => String::from_str(
                "the annotation role does not fit the annotated item",
            ),
        }
    }
}

} // verus!
