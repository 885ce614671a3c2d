//! Closure-capture rewriting: a directive parser with error recovery, a
//! change planner that builds the let-bindings placed around a closure, and a
//! hygiene cleaner that renames closure-local identifiers while tracking
//! lexical shadowing.
//!
//! An invocation is a comma-separated list of capture directives followed by
//! a closure expression: `clone x` captures a clone of `x`, `with x = expr`
//! captures a computed value under the name `x`, `ref [mut] x` captures a
//! reference, and `all x` forces the whole variable `x` to be captured
//! without affecting how. The expansion is a block holding one `let` per
//! assigned directive, in order, and then the closure, promoted to `move`
//! capture whenever a `clone` or `with` directive was supplied. In `only`
//! mode the closure body additionally has its identifier hygiene rewritten
//! so that only directive-listed variables can be captured.
//!
//! The crate works on its own token and syntax-tree model: identifiers carry
//! a hygiene tag and are interned to integer symbols, token trees are
//! modelled by [`token::Tok`], and the closure body by [`clean::Expr`]. The
//! host-side glue reads real token streams into this model, parses the
//! trailing closure with a general expression parser, and prints the results
//! back out; everything between — the directive grammar, the diagnostics,
//! the planned statements, the hygiene rewrite — is decided here.

pub mod token;
pub mod clean;
pub mod parse;
pub mod changes;
pub mod laws;

use vstd::prelude::*;
use crate::token::{List, Tok};
use crate::clean::{clean, clean_s, Expr};
use crate::changes::{Changes, exterior_toks, interior_toks, exempt_idents};
use crate::parse::Input;

verus! {

/// Everything the host needs to print the expansion: the exterior
/// statements, the closure shell (prefix tokens, move marker, signature
/// tokens), the interior marker statements, and the rewritten body.
pub struct Output {
    pub exterior: List<Tok>,
    pub prefix: List<Tok>,
    pub is_move: bool,
    pub signature: List<Tok>,
    pub interior: List<Tok>,
    pub body: Expr,
}

/// Plans and applies the changes for a well-formed input: the exterior and
/// interior statements come from the planner, the closure shell passes
/// through, and in `only` mode the body's hygiene is cleaned with the `all`
/// targets exempt. Assembly rejects attributes on the closure, so an
/// assembled input never carries any.
pub fn expand(input: Input, only: bool) -> (r: Output)
    requires
        !input.closure.has_attrs,
    ensures
        r.exterior == exterior_toks(input.assigned, only),
        r.interior == interior_toks(input.all),
        r.prefix == input.closure.prefix,
        r.is_move == input.closure.is_move,
        r.signature == input.closure.signature,
        r.body == if only {
            clean_s(input.closure.body, exempt_idents(input.all))
        } else {
            input.closure.body
        },
{
    let ch = Changes::from_input(&input, only);
    let Changes { exterior, interior, exempt } = ch;
    let body = if only {
        clean(input.closure.body, &exempt)
    } else {
        input.closure.body
    };
    Output {
        exterior,
        prefix: input.closure.prefix,
        is_move: input.closure.is_move,
        signature: input.closure.signature,
        interior,
        body,
    }
}

} // verus!
