//! The impl-group builder: folds the classified declarations of one type into
//! at most one constructor and an ordered list of methods, enforcing the
//! single-constructor invariant of the embedding boundary (only one value can
//! be exported under the type's name).

use vstd::prelude::*;

use crate::ast::MethodDecl;
use crate::classify::NeonMacrosAttrs;
use crate::error::GenError;
use crate::seqs::{lemma_prefix_full, lemma_prefix_step};

verus! {

/// Whether a classified declaration has the constructor role.
pub open spec fn spec_ctor_role(a: NeonMacrosAttrs) -> bool {
    a.main@ == "constructor"@
}

/// Whether a classified declaration has the method role.
pub open spec fn spec_method_role(a: NeonMacrosAttrs) -> bool {
    a.main@ == "method"@
}

/// The constructor-role declarations of a classified group, in order.
pub open spec fn spec_ctors(ms: Seq<NeonMacrosAttrs>) -> Seq<MethodDecl>
    decreases ms.len(),
{
    if ms.len() == 0 {
        Seq::empty()
    } else if spec_ctor_role(ms.last()) {
        spec_ctors(ms.drop_last()).push(ms.last().method)
    } else {
        spec_ctors(ms.drop_last())
    }
}

/// The method-role declarations of a classified group, in order.
pub open spec fn spec_methods(ms: Seq<NeonMacrosAttrs>) -> Seq<MethodDecl>
    decreases ms.len(),
{
    if ms.len() == 0 {
        Seq::empty()
    } else if spec_method_role(ms.last()) {
        spec_methods(ms.drop_last()).push(ms.last().method)
    } else {
        spec_methods(ms.drop_last())
    }
}

/// The constructor-role declarations of a prefix come first among those of the
/// whole group.
pub proof fn lemma_ctors_prefix(ms: Seq<NeonMacrosAttrs>, j: int)
    requires
        0 <= j <= ms.len(),
    ensures
        spec_ctors(ms.subrange(0, j)).is_prefix_of(spec_ctors(ms)),
    decreases ms.len() - j,
{
    if j == ms.len() {
        lemma_prefix_full(ms);
        assert(spec_ctors(ms.subrange(0, j)).is_prefix_of(spec_ctors(ms)));
    } else {
        lemma_prefix_step(ms, j);
        lemma_ctors_prefix(ms, j + 1);
        assert(spec_ctors(ms.subrange(0, j)).is_prefix_of(spec_ctors(ms.subrange(0, j + 1))));
    }
}

/// One aggregated declaration group: at most one constructor, and the ordered
/// methods to install on the constructed value's prototype.
pub struct ImplTree {
    /// The group's constructor, when one declaration is classified as such.
    /// Only one is allowed, since only one value can be exported under the
    /// type's name.
    pub constructor: Option<MethodDecl>,
    /// The method-role declarations, in their declaration order.
    pub methods: Vec<MethodDecl>,
}

impl ImplTree {
    /// Folds a group of classified declarations into one `ImplTree`.
    ///
    /// Succeeds exactly when at most one declaration has the constructor role;
    /// on a second one it fails, naming both the declaration already kept and
    /// the new one so the caller can remove one of the two.
    #[verifier::loop_isolation(false)]
    pub fn new(methods: Vec<NeonMacrosAttrs>) -> (r: Result<ImplTree, GenError>)
        ensures
            spec_ctors(methods@).len() <= 1 ==> r is Ok,
            spec_ctors(methods@).len() >= 2 ==> r is Err,
            match r {
                Ok(t) => spec_ctors(methods@).len() <= 1 && t.methods@ == spec_methods(methods@)
                    && match t.constructor {
                    None => spec_ctors(methods@).len() == 0,
                    Some(c) => spec_ctors(methods@).len() == 1 && c == spec_ctors(methods@)[0],
                },
                Err(e) => spec_ctors(methods@).len() >= 2 && match e {
                    GenError::MultipleConstructors { existing, duplicate } => existing@
                        == spec_ctors(methods@)[0].name@ && duplicate@ == spec_ctors(
                        methods@,
                    )[1].name@,
                    _ => false,
                },
            },
    {
        let ghost all = methods@;
        let mut rest = methods;
        let mut constructor: Option<MethodDecl> = None;
        let mut kept: Vec<MethodDecl> = Vec::new();
        while rest.len() > 0
            invariant
                rest@.len() <= all.len(),
                rest@ == all.subrange(all.len() - rest@.len(), all.len() as int),
                match constructor {
                    None => spec_ctors(all.subrange(0, all.len() - rest@.len())).len() == 0,
                    Some(c) => spec_ctors(all.subrange(0, all.len() - rest@.len())).len() == 1 && c
                        == spec_ctors(all.subrange(0, all.len() - rest@.len()))[0],
                },
                kept@ == spec_methods(all.subrange(0, all.len() - rest@.len())),
            decreases rest@.len(),
        {
            let ghost i = all.len() - rest@.len();
            proof {
                lemma_prefix_step(all, i as int);
                assert(rest@[0] == all[i as int]);
                reveal_strlit("constructor");
                reveal_strlit("method");
                assert("constructor"@.len() == 11);
                assert("method"@.len() == 6);
                assert("constructor"@ != "method"@);
            }
            let m = rest.remove(0);
            proof {
                assert(rest@ =~= all.subrange(all.len() - rest@.len(), all.len() as int));
            }
            if m.is_constructor() {
                match constructor {
                    None => {
                        constructor = Some(m.method);
                    },
                    Some(c) => {
                        let existing = c.name.clone();
                        let duplicate = m.method.name.clone();
                        proof {
                            assert(spec_ctors(all.subrange(0, i + 1)) == spec_ctors(
                                all.subrange(0, i as int),
                            ).push(all[i as int].method));
                            lemma_ctors_prefix(all, i + 1);
                            let two = spec_ctors(all.subrange(0, i + 1));
                            assert(two.len() == 2);
                            assert(spec_ctors(all).len() >= 2);
                            assert(two =~= spec_ctors(all).subrange(0, 2));
                            assert(spec_ctors(all)[0] == two[0]);
                            assert(spec_ctors(all)[1] == two[1]);
                            assert(two[0] == c && two[1] == all[i as int].method);
                        }
                        return Err(GenError::MultipleConstructors { existing, duplicate });
                    },
                }
            } else if m.is_method() {
                kept.push(m.method);
            }
        }
        proof {
            lemma_prefix_full(all);
        }
        Ok(ImplTree { constructor, methods: kept })
    }
}

} // verus!
