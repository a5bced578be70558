//! An annotation-driven adapter generator for exposing native classes to an
//! embedded scripting runtime.
//!
//! Given a model of a hand-written `impl` block whose associated functions are
//! tagged with role annotations (one constructor, any number of methods), the
//! generator classifies each declaration, enforces the single-constructor
//! invariant, compiles argument-marshaling plans, selects return-value
//! transforms and synthesizes one adapter description per declaration, plus a
//! registration routine that installs the adapters on the constructed value's
//! prototype.

use vstd::prelude::*;

pub mod args;
pub mod ast;
pub mod block;
pub mod classify;
pub mod emit;
pub mod error;
pub mod group;
pub mod names;
pub mod ret;
pub mod sample;
pub mod semantics;
pub mod seqs;
pub mod text;
pub mod value;

use crate::ast::{ImplBlock, MethodDecl};
use crate::block::{impl_block, spec_block_err, spec_block_good, spec_block_ok, BlockExpansion};
use crate::classify::expected_namespace;
use crate::emit::{constructor, method, spec_constructor_adapter, spec_method_adapter, AdapterFn};
use crate::error::GenError;
use crate::text::str_eq;

verus! {

/// What the generator is asked to expand: a single annotated associated
/// function, or a whole annotated `impl` block.
pub enum MacroInput {
    /// One associated-function declaration.
    Fn(MethodDecl),
    /// One `impl` block with its associated functions.
    Block(ImplBlock),
}

/// What an expansion adds beside the original item.
pub enum Expansion {
    /// One generated adapter function.
    Adapter(AdapterFn),
    /// The block expansion: hidden-field marker, prototype table,
    /// registration routine.
    Block(BlockExpansion),
    /// Nothing: the annotation's first argument names no role of this
    /// generator.
    Empty,
}

/// The generator's entry: reads the role named by the annotation's first
/// argument and runs the matching stage on the annotated item. An argument
/// list that names no role expands to nothing; a role applied to the wrong
/// kind of item is a generation-time failure.
pub fn neon_class(args: &Vec<String>, input: MacroInput) -> (r: Result<Expansion, GenError>)
    ensures
        ({
            let first: Option<Seq<char>> = if args@.len() > 0 {
                Some(args@[0]@)
            } else {
                None::<Seq<char>>
            };
            if first == Some("method"@) {
                match input {
                    MacroInput::Fn(d) => r matches Ok(Expansion::Adapter(a))
                        && spec_method_adapter(a, crate::ast::strings_view(args@), d),
                    MacroInput::Block(_) => r == Err::<Expansion, GenError>(
                        GenError::InputMismatch,
                    ),
                }
            } else if first == Some("constructor"@) {
                match input {
                    MacroInput::Fn(d) => r matches Ok(Expansion::Adapter(a))
                        && spec_constructor_adapter(a, d),
                    MacroInput::Block(_) => r == Err::<Expansion, GenError>(
                        GenError::InputMismatch,
                    ),
                }
            } else if first == Some("impl_block"@) {
                match input {
                    MacroInput::Block(b) => (spec_block_good(b, "neon_class"@) <==> r matches Ok(
                        Expansion::Block(_),
                    )) && match r {
                        Ok(Expansion::Block(be)) => spec_block_ok(be, b, "neon_class"@),
                        Err(e) => spec_block_err(e, b, "neon_class"@),
                        _ => false,
                    },
                    MacroInput::Fn(_) => r == Err::<Expansion, GenError>(GenError::InputMismatch),
                }
            } else {
                r == Ok::<Expansion, GenError>(Expansion::Empty)
            }
        }),
{
    if args.len() > 0 && str_eq(args[0].as_str(), "method") {
        match input {
            MacroInput::Fn(d) => Ok(Expansion::Adapter(method(args, &d))),
            MacroInput::Block(_) => Err(GenError::InputMismatch),
        }
    } else if args.len() > 0 && str_eq(args[0].as_str(), "constructor") {
        match input {
            MacroInput::Fn(d) => Ok(Expansion::Adapter(constructor(&d))),
            MacroInput::Block(_) => Err(GenError::InputMismatch),
        }
    } else if args.len() > 0 && str_eq(args[0].as_str(), "impl_block") {
        match input {
            MacroInput::Block(b) => match impl_block(b, expected_namespace()) {
                Ok(be) => Ok(Expansion::Block(be)),
                Err(e) => Err(e),
            },
            MacroInput::Fn(_) => Err(GenError::InputMismatch),
        }
    } else {
        Ok(Expansion::Empty)
    }
}

} // verus!
