//! The generator's model of the declarations it scans: types, parameters,
//! annotations, function declarations and `impl` blocks.
//!
//! The scanner that feeds this model walks a structured parse tree of the host
//! language; here each declaration is recorded as plain values, so that every
//! later stage (classification, grouping, marshaling, emission) is a pure
//! function of this data.

use vstd::prelude::*;

use crate::text::str_eq;

verus! {

/// A type reference, reduced to what the generator reads off it.
pub enum TypeDesc {
    /// A bare single-segment path without generic arguments: `u32`, `String`, `MapLike`.
    Ident(String),
    /// A path type, recorded by its last segment's identifier and, when the first
    /// generic argument of that segment is a lifetime, that lifetime's name
    /// (without the apostrophe): `JsResult<'ctx, JsString>` gives
    /// `name == "JsResult"`, `lifetime == Some("ctx")`.
    Generic { name: String, lifetime: Option<String> },
    /// Any other type (a reference, a tuple, ...), carried as opaque text.
    Other(String),
}

impl TypeDesc {
    /// The identifier this type goes by, when it is a path type.
    pub open spec fn spec_name(self) -> Option<Seq<char>> {
        match self {
            TypeDesc::Ident(n) => Some(n@),
            TypeDesc::Generic { name, .. } => Some(name@),
            TypeDesc::Other(_) => None,
        }
    }

    /// The lifetime carried by the type's first generic argument, if any.
    pub open spec fn spec_lifetime(self) -> Option<Seq<char>> {
        match self {
            TypeDesc::Generic { lifetime: Some(l), .. } => Some(l@),
            _ => None,
        }
    }

    /// A value-preserving copy.
    pub fn duplicate(&self) -> (r: TypeDesc)
        ensures
            r == *self,
    {
        match self {
            TypeDesc::Ident(n) => TypeDesc::Ident(n.clone()),
            TypeDesc::Generic { name, lifetime } => TypeDesc::Generic {
                name: name.clone(),
                lifetime: match lifetime {
                    Some(l) => Some(l.clone()),
                    None => None,
                },
            },
            TypeDesc::Other(t) => TypeDesc::Other(t.clone()),
        }
    }
}

/// The position a parameter occupies in the adapter's view of a declaration.
#[derive(PartialEq, Eq, Structural)]
pub enum ParamRole {
    /// The `self` / `&self` / `&mut self` receiver.
    Receiver,
    /// The host-context capability parameter, recognized by its conventional name.
    HostContext,
    /// An ordinary argument, passed by the host-side caller.
    Normal,
}

/// One parameter of a scanned declaration.
pub enum FnParam {
    /// The receiver, in any of its forms.
    Receiver,
    /// A named, typed parameter.
    Typed { name: String, ty: TypeDesc },
}

impl FnParam {
    /// The role the marshaling compiler assigns to this parameter. The
    /// host-context parameter is recognized by its conventional names
    /// `cx` and `_cx`.
    pub open spec fn spec_role(self) -> ParamRole {
        match self {
            FnParam::Receiver => ParamRole::Receiver,
            FnParam::Typed { name, .. } => if name@ == "cx"@ || name@ == "_cx"@ {
                ParamRole::HostContext
            } else {
                ParamRole::Normal
            },
        }
    }

    /// Computes the parameter's role.
    pub fn role(&self) -> (r: ParamRole)
        ensures
            r == self.spec_role(),
    {
        match self {
            FnParam::Receiver => ParamRole::Receiver,
            FnParam::Typed { name, .. } => {
                if str_eq(name.as_str(), "cx") || str_eq(name.as_str(), "_cx") {
                    ParamRole::HostContext
                } else {
                    ParamRole::Normal
                }
            },
        }
    }
}

/// One annotation attached to a declaration, recorded as the identifier it was
/// imported under and the identifiers of its parenthesized arguments, in order.
///
/// `#[neon_class(method, throw_on_err)]` is recorded as
/// `namespace == "neon_class"`, `args == ["method", "throw_on_err"]`.
pub struct Attr {
    /// The first path segment of the annotation as written at its use site.
    pub namespace: String,
    /// The argument identifiers, in order.
    pub args: Vec<String>,
}

/// One scanned associated-function declaration.
pub struct MethodDecl {
    /// The declared function name.
    pub name: String,
    /// The ordered parameter list.
    pub params: Vec<FnParam>,
    /// The declared return type; `None` when the declaration returns nothing.
    pub output: Option<TypeDesc>,
    /// The annotations attached to the declaration, in order.
    pub attrs: Vec<Attr>,
}

/// One scanned `impl` block: the type it is for and its associated functions.
pub struct ImplBlock {
    /// The type the block implements.
    pub self_ty: TypeDesc,
    /// The associated-function declarations, in order.
    pub items: Vec<MethodDecl>,
}

/// The view of a list of strings as a sequence of character sequences.
pub open spec fn strings_view(v: Seq<String>) -> Seq<Seq<char>> {
    v.map(|i: int, s: String| s@)
}

} // verus!
