//! The top of the generator for one annotated `impl` block: classify every
//! associated-function declaration, build the impl group, and synthesize the
//! registration table — the hidden-field marker, the prototype entries (each
//! adapter under its host-visible mixedCase name), and, when a constructor is
//! exposed, the registration routine that creates the host constructor,
//! populates the prototype and exports the constructor under the type's name.
//!
//! A second routine that wraps an existing native value as a host object uses
//! the same prototype entries and skips constructor exposure; it is part of
//! every successful expansion.

use vstd::prelude::*;

use crate::ast::{ImplBlock, MethodDecl, TypeDesc};
use crate::classify::{lemma_recognized_count_zero, spec_has_bad_modifier, spec_main,
    spec_recognized, spec_recognized_count, spec_valid_modifier, NeonMacrosAttrs};
use crate::emit::{get_gen_method_name, spec_gen_name};
use crate::error::GenError;
use crate::group::{spec_ctors, spec_methods, ImplTree};
use crate::names::{mixed_case_of, to_mixed_case};
use crate::seqs::{lemma_prefix_full, lemma_prefix_step};

verus! {

/// Whether the generator recognizes at least one annotation on a declaration.
pub open spec fn spec_item_recognized(m: MethodDecl, expected: Seq<char>) -> bool {
    spec_recognized_count(m.attrs@, expected) > 0
}

/// The role a declaration is classified under.
pub open spec fn spec_item_main(m: MethodDecl, expected: Seq<char>) -> Seq<char> {
    spec_main(m.attrs@, expected)
}

/// Whether a declaration carries a modifier outside the vocabulary.
pub open spec fn spec_item_bad(m: MethodDecl, expected: Seq<char>) -> bool {
    spec_has_bad_modifier(m.attrs@, expected)
}

/// Whether any declaration of the block carries such a modifier.
pub open spec fn spec_any_bad(items: Seq<MethodDecl>, expected: Seq<char>) -> bool {
    exists|i: int| 0 <= i < items.len() && spec_item_bad(#[trigger] items[i], expected)
}

/// Whether `token` is an out-of-vocabulary modifier of the declaration.
pub open spec fn spec_item_bad_token(m: MethodDecl, expected: Seq<char>, token: Seq<char>)
    -> bool {
    exists|a: int, k: int|
        0 <= a < m.attrs@.len() && spec_recognized(m.attrs@[a], expected) && 1 <= k
            < m.attrs@[a].args@.len() && !spec_valid_modifier(#[trigger] m.attrs@[a].args@[k]@)
            && token == m.attrs@[a].args@[k]@
}

/// Whether `token` is an out-of-vocabulary modifier somewhere in the block.
pub open spec fn spec_token_bad_in(items: Seq<MethodDecl>, expected: Seq<char>, token: Seq<char>)
    -> bool {
    exists|i: int|
        0 <= i < items.len() && spec_item_bad_token(#[trigger] items[i], expected, token)
}

/// How many declarations of the block the generator classifies.
pub open spec fn spec_classified_count(items: Seq<MethodDecl>, expected: Seq<char>) -> nat
    decreases items.len(),
{
    if items.len() == 0 {
        0
    } else {
        spec_classified_count(items.drop_last(), expected) + if spec_item_recognized(
            items.last(),
            expected,
        ) {
            1nat
        } else {
            0nat
        }
    }
}

/// The declarations classified under the constructor role, in order.
pub open spec fn spec_ctor_decls(items: Seq<MethodDecl>, expected: Seq<char>) -> Seq<MethodDecl>
    decreases items.len(),
{
    if items.len() == 0 {
        Seq::empty()
    } else if spec_item_recognized(items.last(), expected) && spec_item_main(
        items.last(),
        expected,
    ) == "constructor"@ {
        spec_ctor_decls(items.drop_last(), expected).push(items.last())
    } else {
        spec_ctor_decls(items.drop_last(), expected)
    }
}

/// The declarations classified under the method role, in order.
pub open spec fn spec_method_decls(items: Seq<MethodDecl>, expected: Seq<char>) -> Seq<MethodDecl>
    decreases items.len(),
{
    if items.len() == 0 {
        Seq::empty()
    } else if spec_item_recognized(items.last(), expected) && spec_item_main(
        items.last(),
        expected,
    ) == "method"@ {
        spec_method_decls(items.drop_last(), expected).push(items.last())
    } else {
        spec_method_decls(items.drop_last(), expected)
    }
}

/// One prototype installation: a generated adapter under the host-visible
/// converted name.
pub struct PrototypeEntry {
    /// The declared name converted to the host runtime's mixedCase convention.
    pub js_name: String,
    /// The generated adapter installed under that name.
    pub adapter: String,
}

/// The registration routine emitted for a group with an exposed constructor.
pub struct RegistrationFn {
    /// The routine's name: `register_` plus the constructor's declared name.
    pub name: String,
    /// The constructor adapter the host constructor function is created from.
    pub ctor_adapter: String,
    /// The name the constructor is exported under: the type's own name.
    pub export_name: String,
}

/// The expansion emitted for one annotated `impl` block.
pub struct BlockExpansion {
    /// The name of the type the block implements.
    pub struct_name: String,
    /// The hidden property under which a constructed host object keeps the
    /// boxed native value; stable across all adapters of one type.
    pub this_field: String,
    /// The prototype entries, one per method-role declaration, in declaration
    /// order. Shared by the registration routine and by the routine that
    /// wraps an existing native value as a host object.
    pub prototype: Vec<PrototypeEntry>,
    /// The registration routine, when the group exposes a constructor.
    pub registration: Option<RegistrationFn>,
}

/// The conditions under which expanding a block succeeds: a named self type,
/// no out-of-vocabulary modifier, at least one classified declaration, at
/// most one constructor.
pub open spec fn spec_block_good(block: ImplBlock, expected: Seq<char>) -> bool {
    &&& block.self_ty.spec_name() is Some
    &&& !spec_any_bad(block.items@, expected)
    &&& spec_classified_count(block.items@, expected) > 0
    &&& spec_ctor_decls(block.items@, expected).len() <= 1
}

/// What a successful block expansion holds: every part of it is determined by
/// the block's declarations.
pub open spec fn spec_block_ok(b: BlockExpansion, block: ImplBlock, expected: Seq<char>) -> bool {
    let methods = spec_method_decls(block.items@, expected);
    let ctors = spec_ctor_decls(block.items@, expected);
    &&& b.struct_name@ == block.self_ty.spec_name()->Some_0
    &&& b.this_field@ == "__this_obj"@
    &&& b.prototype@.len() == methods.len()
    &&& forall|j: int|
        0 <= j < methods.len() ==> (#[trigger] b.prototype@[j]).adapter@ == spec_gen_name(
            methods[j].name@,
        ) && b.prototype@[j].js_name@ == mixed_case_of(methods[j].name@)
    &&& match b.registration {
        None => ctors.len() == 0,
        Some(reg) => ctors.len() == 1 && reg.name@ == "register_"@ + ctors[0].name@
            && reg.ctor_adapter@ == spec_gen_name(ctors[0].name@) && reg.export_name@
            == block.self_ty.spec_name()->Some_0,
    }
}

/// Which failure an unexpandable block reports, and on exactly which blocks
/// each failure comes.
pub open spec fn spec_block_err(e: GenError, block: ImplBlock, expected: Seq<char>) -> bool {
    match e {
        GenError::UnsupportedSelfType => block.self_ty.spec_name() is None,
        GenError::InvalidModifier { token } => block.self_ty.spec_name() is Some
            && spec_token_bad_in(block.items@, expected, token@),
        GenError::NoQualifyingDeclarations { struct_name } => block.self_ty.spec_name() is Some
            && !spec_any_bad(block.items@, expected) && spec_classified_count(
            block.items@,
            expected,
        ) == 0 && struct_name@ == block.self_ty.spec_name()->Some_0,
        GenError::MultipleConstructors { existing, duplicate } => {
            let ctors = spec_ctor_decls(block.items@, expected);
            block.self_ty.spec_name() is Some && !spec_any_bad(block.items@, expected)
                && ctors.len() >= 2 && existing@ == ctors[0].name@ && duplicate@ == ctors[1].name@
        },
        GenError::InputMismatch => false,
    }
}

/// Expands one annotated `impl` block, or reports the first generation-time
/// failure: an unsupported self type; an out-of-vocabulary modifier; a block
/// in which nothing is classified (none implemented, or the annotation was
/// renamed at import); or a second constructor.
#[verifier::loop_isolation(false)]
pub fn impl_block(block: ImplBlock, expected: &str) -> (r: Result<BlockExpansion, GenError>)
    ensures
        spec_block_good(block, expected@) <==> r is Ok,
        match r {
            Ok(b) => spec_block_ok(b, block, expected@),
            Err(e) => spec_block_err(e, block, expected@),
        },
{
    let ImplBlock { self_ty, items } = block;
    let struct_name = match self_ty {
        TypeDesc::Ident(n) => n,
        TypeDesc::Generic { name, .. } => name,
        TypeDesc::Other(_) => {
            return Err(GenError::UnsupportedSelfType);
        },
    };
    let ghost all = items@;
    let mut rest = items;
    let mut cl: Vec<NeonMacrosAttrs> = Vec::new();
    while rest.len() > 0
        invariant
            rest@.len() <= all.len(),
            rest@ == all.subrange(all.len() - rest@.len(), all.len() as int),
            cl@.len() == spec_classified_count(
                all.subrange(0, all.len() - rest@.len()),
                expected@,
            ),
            spec_ctors(cl@) == spec_ctor_decls(
                all.subrange(0, all.len() - rest@.len()),
                expected@,
            ),
            spec_methods(cl@) == spec_method_decls(
                all.subrange(0, all.len() - rest@.len()),
                expected@,
            ),
            forall|p: int|
                0 <= p < all.len() - rest@.len() ==> !spec_item_bad(
                    #[trigger] all[p],
                    expected@,
                ),
        decreases rest@.len(),
    {
        let ghost i = all.len() - rest@.len();
        proof {
            lemma_prefix_step(all, i as int);
            assert(rest@[0] == all[i as int]);
        }
        let m = rest.remove(0);
        proof {
            assert(rest@ =~= all.subrange(all.len() - rest@.len(), all.len() as int));
        }
        match NeonMacrosAttrs::new(m, expected) {
            Ok(None) => {
                proof {
                    lemma_recognized_count_zero(all[i as int].attrs@, expected@);
                    assert(!spec_item_bad(all[i as int], expected@));
                    assert(!spec_item_recognized(all[i as int], expected@));
                }
            },
            Ok(Some(a)) => {
                proof {
                    assert(a.main@ == spec_item_main(all[i as int], expected@));
                    assert(a.method == all[i as int]);
                }
                let ghost cl_pre = cl@;
                cl.push(a);
                proof {
                    assert(cl@.drop_last() =~= cl_pre);
                    assert(cl@.last() == a);
                }
            },
            Err(e) => {
                proof {
                    match &e {
                        GenError::InvalidModifier { token } => {
                            assert(spec_item_bad_token(all[i as int], expected@, token@));
                            assert(spec_token_bad_in(all, expected@, token@));
                        },
                        _ => {},
                    }
                }
                return Err(e);
            },
        }
    }
    proof {
        lemma_prefix_full(all);
    }
    if cl.len() == 0 {
        return Err(GenError::NoQualifyingDeclarations { struct_name });
    }
    let ghost clv = cl@;
    let tree = match ImplTree::new(cl) {
        Ok(t) => t,
        Err(e) => {
            return Err(e);
        },
    };
    let mut prototype: Vec<PrototypeEntry> = Vec::new();
    let mut j: usize = 0;
    while j < tree.methods.len()
        invariant
            0 <= j <= tree.methods@.len(),
            prototype@.len() == j,
            forall|k: int|
                0 <= k < j ==> (#[trigger] prototype@[k]).adapter@ == spec_gen_name(
                    tree.methods@[k].name@,
                ) && prototype@[k].js_name@ == mixed_case_of(tree.methods@[k].name@),
        decreases tree.methods@.len() - j,
    {
        let nm = &tree.methods[j].name;
        let js_name = to_mixed_case(nm.as_str());
        let adapter = get_gen_method_name(nm.as_str());
        prototype.push(PrototypeEntry { js_name, adapter });
        j = j + 1;
    }
    let registration = match tree.constructor {
        Some(c) => {
            let mut reg_name = String::from_str("register_");
            reg_name.append(c.name.as_str());
            let ctor_adapter = get_gen_method_name(c.name.as_str());
            Some(
                RegistrationFn {
                    name: reg_name,
                    ctor_adapter,
                    export_name: struct_name.clone(),
                },
            )
        },
        None => None,
    };
    Ok(
        BlockExpansion {
            struct_name,
            this_field: String::from_str("__this_obj"),
            prototype,
            registration,
        },
    )
}

/// Law: when every annotation in a block was imported under some name other
/// than the generator's expected one, no declaration is classified and none
/// carries a recognized (hence possibly invalid) modifier — so expanding the
/// block reports the no-qualifying-declarations failure rather than silently
/// doing nothing.
pub proof fn lemma_renamed_annotation_excludes_all(items: Seq<MethodDecl>, expected: Seq<char>)
    requires
        forall|i: int, a: int|
            0 <= i < items.len() && 0 <= a < items[i].attrs@.len() ==> (
            #[trigger] items[i].attrs@[a]).namespace@ != expected,
    ensures
        spec_classified_count(items, expected) == 0,
        !spec_any_bad(items, expected),
    decreases items.len(),
{
    if items.len() > 0 {
        let pre = items.drop_last();
        assert(forall|i: int, a: int|
            0 <= i < pre.len() && 0 <= a < pre[i].attrs@.len() ==> (#[trigger] pre[i].attrs@[a])
                == items[i].attrs@[a]);
        lemma_renamed_annotation_excludes_all(pre, expected);
        lemma_count_zero_from_all_unrecognized(items.last().attrs@, expected);
        assert(!spec_item_recognized(items.last(), expected));
        assert(!spec_item_bad(items.last(), expected));
        assert forall|i: int| 0 <= i < items.len() implies !spec_item_bad(
            #[trigger] items[i],
            expected,
        ) by {
            if i < items.len() - 1 {
                assert(items[i] == pre[i]);
            }
        }
    }
}

/// A list of annotations none of which matches the expected namespace has a
/// recognized count of zero and no recognized modifier at all.
pub proof fn lemma_count_zero_from_all_unrecognized(
    attrs: Seq<crate::ast::Attr>,
    expected: Seq<char>,
)
    requires
        forall|a: int|
            0 <= a < attrs.len() ==> (#[trigger] attrs[a]).namespace@ != expected,
    ensures
        spec_recognized_count(attrs, expected) == 0,
        !spec_has_bad_modifier(attrs, expected),
    decreases attrs.len(),
{
    if attrs.len() > 0 {
        let pre = attrs.drop_last();
        assert(forall|a: int| 0 <= a < pre.len() ==> #[trigger] pre[a] == attrs[a]);
        lemma_count_zero_from_all_unrecognized(pre, expected);
    }
}

} // verus!
