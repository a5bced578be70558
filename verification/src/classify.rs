//! The annotation classifier: reads the annotations attached to one scanned
//! declaration and either ignores the declaration (no annotation of the
//! generator's namespace is present), classifies it under a role with a set of
//! recognized modifiers, or fails on a modifier outside the vocabulary.

use vstd::prelude::*;

use crate::ast::{strings_view, Attr, MethodDecl};
use crate::error::GenError;
use crate::seqs::{lemma_prefix_full, lemma_prefix_step};
use crate::text::str_eq;

verus! {

/// The annotation namespace this generator answers to.
pub open spec fn spec_expected_namespace() -> Seq<char> {
    "neon_class"@
}

/// The annotation namespace this generator answers to.
pub fn expected_namespace() -> (r: &'static str)
    ensures
        r@ == spec_expected_namespace(),
{
    "neon_class"
}

/// The closed vocabulary of recognized modifiers.
pub open spec fn spec_valid_modifier(t: Seq<char>) -> bool {
    t == "throw_on_err"@
}

/// Whether one annotation belongs to the generator: its namespace, as written
/// at the use site, must match the expected one exactly. A renamed import
/// therefore never matches.
pub open spec fn spec_recognized(a: Attr, expected: Seq<char>) -> bool {
    a.namespace@ == expected
}

/// How many of the declaration's annotations the generator recognizes.
pub open spec fn spec_recognized_count(attrs: Seq<Attr>, expected: Seq<char>) -> nat
    decreases attrs.len(),
{
    if attrs.len() == 0 {
        0
    } else {
        spec_recognized_count(attrs.drop_last(), expected) + if spec_recognized(
            attrs.last(),
            expected,
        ) {
            1nat
        } else {
            0nat
        }
    }
}

/// When no annotation is recognized, none is recognized at any position.
pub proof fn lemma_recognized_count_zero(attrs: Seq<Attr>, expected: Seq<char>)
    requires
        spec_recognized_count(attrs, expected) == 0,
    ensures
        forall|i: int| 0 <= i < attrs.len() ==> !spec_recognized(#[trigger] attrs[i], expected),
    decreases attrs.len(),
{
    if attrs.len() > 0 {
        lemma_recognized_count_zero(attrs.drop_last(), expected);
        assert(forall|i: int|
            0 <= i < attrs.len() - 1 ==> attrs.drop_last()[i] == #[trigger] attrs[i]);
    }
}

/// The role one annotation names: its first argument, or, for a bare
/// annotation, the annotation's own name.
pub open spec fn spec_attr_role(a: Attr) -> Seq<char> {
    if a.args@.len() > 0 {
        a.args@[0]@
    } else {
        a.namespace@
    }
}

/// The modifiers one annotation carries: every argument after the role.
pub open spec fn spec_attr_modifiers(a: Attr) -> Seq<Seq<char>> {
    if a.args@.len() >= 1 {
        strings_view(a.args@).subrange(1, a.args@.len() as int)
    } else {
        Seq::empty()
    }
}

/// The role the declaration ends up classified under: that of the last
/// recognized annotation, or empty when none is recognized.
pub open spec fn spec_main(attrs: Seq<Attr>, expected: Seq<char>) -> Seq<char>
    decreases attrs.len(),
{
    if attrs.len() == 0 {
        Seq::empty()
    } else if spec_recognized(attrs.last(), expected) {
        spec_attr_role(attrs.last())
    } else {
        spec_main(attrs.drop_last(), expected)
    }
}

/// All modifiers of all recognized annotations, in scan order.
pub open spec fn spec_modifiers(attrs: Seq<Attr>, expected: Seq<char>) -> Seq<Seq<char>>
    decreases attrs.len(),
{
    if attrs.len() == 0 {
        Seq::empty()
    } else {
        spec_modifiers(attrs.drop_last(), expected) + if spec_recognized(attrs.last(), expected) {
            spec_attr_modifiers(attrs.last())
        } else {
            Seq::empty()
        }
    }
}

/// Whether some recognized annotation carries a modifier outside the
/// vocabulary.
pub open spec fn spec_has_bad_modifier(attrs: Seq<Attr>, expected: Seq<char>) -> bool {
    exists|i: int, k: int|
        0 <= i < attrs.len() && spec_recognized(attrs[i], expected) && 1 <= k
            < attrs[i].args@.len() && !spec_valid_modifier(#[trigger] attrs[i].args@[k]@)
}

/// A declaration classified by the generator, together with the annotation
/// findings that later stages act on.
pub struct NeonMacrosAttrs {
    /// The classified declaration itself.
    pub method: MethodDecl,
    /// The role the declaration is classified under, e.g. `"constructor"` or
    /// `"method"`.
    pub main: String,
    /// The recognized modifiers given to the annotation, in order, e.g.
    /// `["throw_on_err"]`.
    pub args: Vec<String>,
}

impl NeonMacrosAttrs {
    /// Classifies one scanned declaration against the expected annotation
    /// namespace.
    ///
    /// Returns `Ok(None)` exactly when no annotation of that namespace is
    /// attached (the declaration is no business of this generator — possibly
    /// because the annotation was renamed at import); `Ok(Some(..))` exactly
    /// when one is attached and every modifier belongs to the vocabulary; and
    /// the unrecognized-modifier failure, naming the offending token,
    /// otherwise.
    pub fn new(method: MethodDecl, expected: &str) -> (r: Result<
        Option<NeonMacrosAttrs>,
        GenError,
    >)
        ensures
            match r {
                Ok(None) => spec_recognized_count(method.attrs@, expected@) == 0,
                Ok(Some(a)) => spec_recognized_count(method.attrs@, expected@) > 0
                    && !spec_has_bad_modifier(method.attrs@, expected@) && a.main@ == spec_main(
                    method.attrs@,
                    expected@,
                ) && strings_view(a.args@) == spec_modifiers(method.attrs@, expected@) && a.method
                    == method,
                Err(e) => spec_has_bad_modifier(method.attrs@, expected@) && match e {
                    GenError::InvalidModifier { token } => exists|i: int, k: int|
                        0 <= i < method.attrs@.len() && spec_recognized(
                            method.attrs@[i],
                            expected@,
                        ) && 1 <= k < method.attrs@[i].args@.len() && !spec_valid_modifier(
                            #[trigger] method.attrs@[i].args@[k]@,
                        ) && token@ == method.attrs@[i].args@[k]@,
                    _ => false,
                },
            },
    {
        let ghost attrs = method.attrs@;
        let mut found = false;
        let mut main = String::new();
        let mut mods: Vec<String> = Vec::new();
        let mut i: usize = 0;
        while i < method.attrs.len()
            invariant
                0 <= i <= attrs.len(),
                attrs == method.attrs@,
                found == (spec_recognized_count(attrs.subrange(0, i as int), expected@) > 0),
                found ==> main@ == spec_main(attrs.subrange(0, i as int), expected@),
                strings_view(mods@) == spec_modifiers(attrs.subrange(0, i as int), expected@),
                forall|p: int, k: int|
                    0 <= p < i && spec_recognized(attrs[p], expected@) && 1 <= k
                        < attrs[p].args@.len() ==> spec_valid_modifier(
                        #[trigger] attrs[p].args@[k]@,
                    ),
            decreases attrs.len() - i,
        {
            proof {
                lemma_prefix_step(attrs, i as int);
            }
            let a = &method.attrs[i];
            if str_eq(a.namespace.as_str(), expected) {
                found = true;
                if a.args.len() > 0 {
                    main = a.args[0].clone();
                } else {
                    main = a.namespace.clone();
                }
                let ghost mods_before = mods@;
                let mut k: usize = 1;
                while k < a.args.len()
                    invariant
                        1 <= k <= a.args@.len() || (a.args@.len() == 0 && k == 1),
                        a == method.attrs@[i as int],
                        0 <= i < attrs.len(),
                        attrs == method.attrs@,
                        spec_recognized(attrs[i as int], expected@),
                        strings_view(mods@) == strings_view(mods_before) + spec_attr_modifiers(
                            *a,
                        ).subrange(0, k - 1),
                        forall|t: int|
                            1 <= t < k ==> spec_valid_modifier(#[trigger] a.args@[t]@),
                    decreases a.args@.len() - k,
                {
                    if str_eq(a.args[k].as_str(), "throw_on_err") {
                        let ghost pre = mods@;
                        mods.push(a.args[k].clone());
                        proof {
                            let lhs = strings_view(mods@);
                            let rhs = strings_view(mods_before) + spec_attr_modifiers(*a).subrange(
                                0,
                                k as int,
                            );
                            assert(spec_attr_modifiers(*a).len() == a.args@.len() - 1);
                            assert(strings_view(pre).len() == pre.len());
                            assert(lhs.len() == rhs.len());
                            assert forall|j: int| 0 <= j < lhs.len() implies lhs[j] == rhs[j] by {
                                assert(lhs[j] == mods@[j]@);
                                if j < mods_before.len() {
                                    assert(strings_view(pre)[j] == pre[j]@);
                                } else if j < pre.len() {
                                    assert(strings_view(pre)[j] == pre[j]@);
                                    assert(rhs[j] == spec_attr_modifiers(*a).subrange(0, k as int)[
                                        j - mods_before.len()]);
                                    assert(spec_attr_modifiers(*a).subrange(0, k as int)[j
                                        - mods_before.len()] == spec_attr_modifiers(*a)[j
                                        - mods_before.len()]);
                                } else {
                                    assert(mods@[j]@ == a.args@[k as int]@);
                                    assert(rhs[j] == spec_attr_modifiers(*a).subrange(0, k as int)[
                                        j - mods_before.len()]);
                                    assert(spec_attr_modifiers(*a)[k - 1] == strings_view(
                                        a.args@,
                                    ).subrange(1, a.args@.len() as int)[k - 1]);
                                    assert(spec_attr_modifiers(*a)[k - 1] == a.args@[k as int]@);
                                }
                            }
                            assert(lhs =~= rhs);
                        }
                    } else {
                        let token = a.args[k].clone();
                        proof {
                            assert(spec_recognized(attrs[i as int], expected@)
                                && !spec_valid_modifier(attrs[i as int].args@[k as int]@));
                        }
                        return Err(GenError::InvalidModifier { token });
                    }
                    k = k + 1;
                }
                proof {
                    assert(spec_attr_modifiers(*a).subrange(
                        0,
                        spec_attr_modifiers(*a).len() as int,
                    ) =~= spec_attr_modifiers(*a));
                    if a.args@.len() == 0 {
                        assert(spec_attr_modifiers(*a) =~= Seq::<Seq<char>>::empty());
                        assert(strings_view(mods@) =~= strings_view(mods_before));
                    }
                    assert(strings_view(mods@) =~= spec_modifiers(
                        attrs.subrange(0, i + 1),
                        expected@,
                    ));
                }
            } else {
                proof {
                    assert(strings_view(mods@) =~= spec_modifiers(
                        attrs.subrange(0, i + 1),
                        expected@,
                    ));
                }
            }
            i = i + 1;
        }
        proof {
            lemma_prefix_full(attrs);
        }
        if found {
            Ok(Some(NeonMacrosAttrs { method, main, args: mods }))
        } else {
            Ok(None)
        }
    }

    /// Whether this declaration is classified as the group's constructor.
    pub fn is_constructor(&self) -> (r: bool)
        ensures
            r == (self.main@ == "constructor"@),
    {
        str_eq(self.main.as_str(), "constructor")
    }

    /// Whether this declaration is classified as an exposed method.
    pub fn is_method(&self) -> (r: bool)
        ensures
            r == (self.main@ == "method"@),
    {
        str_eq(self.main.as_str(), "method")
    }
}

/// Whether an annotation's argument list carries the throw-on-failure
/// modifier.
pub open spec fn spec_throws_on_err(args: Seq<Seq<char>>) -> bool {
    exists|i: int| 0 <= i < args.len() && #[trigger] args[i] == "throw_on_err"@
}

/// Reads the throw-on-failure modifier off an annotation's argument list.
pub fn throws_on_err(attrs: &Vec<String>) -> (r: bool)
    ensures
        r == spec_throws_on_err(strings_view(attrs@)),
{
    let mut i: usize = 0;
    while i < attrs.len()
        invariant
            0 <= i <= attrs@.len(),
            forall|j: int| 0 <= j < i ==> #[trigger] attrs@[j]@ != "throw_on_err"@,
        decreases attrs@.len() - i,
    {
        if str_eq(attrs[i].as_str(), "throw_on_err") {
            assert(strings_view(attrs@)[i as int] == "throw_on_err"@);
            return true;
        }
        i = i + 1;
    }
    false
}

} // verus!
