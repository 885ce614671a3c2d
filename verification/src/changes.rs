//! The change planner.
//!
//! From a parsed [`Input`] the planner builds, purely, the three outputs the
//! expansion needs: the exterior statements placed before the closure (one
//! `let` per assigned directive, in the original order), the interior marker
//! statements placed at the head of the closure body (one per `all`
//! directive: a discarded shared borrow of the whole variable), and the list
//! of identifiers exempt from hygiene cleaning (the `all` targets, in
//! encounter order).
//!
//! The planned expansion has this shape:
//!
//! ```text
//! {
//!     let x = ::core::clone::Clone::clone(&x);  // for `clone x`
//!     let y = &mut y;                           // for `ref mut y`
//!     let w = expr;                             // for `with w = expr`
//!     |old_signature| {
//!         let _ = &b;                           // for `all b`
//!         old_body
//!     }
//! }
//! ```

use vstd::prelude::*;
use crate::token::{Delim, Hygiene, Ident, List, Tok, single, SYM_MUT, SYM_LET, SYM_UNDERSCORE,
    SYM_CORE, SYM_CLONE, SYM_CLONE_TRAIT};
use crate::parse::{AllDirective, AssignedDirective, DirectiveType, Input};

verus! {

/// An identifier token with call-site hygiene: scaffolding the expansion
/// emits resolves like tokens written at the invocation site.
pub open spec fn cs_ident_tok(sym: u64) -> Tok {
    Tok::IdentTok(Ident { sym, hyg: Hygiene::CallSite })
}

/// A punctuation token with call-site hygiene.
pub open spec fn cs_punct_tok(ch: char) -> Tok {
    Tok::PunctTok { ch, hyg: Hygiene::CallSite }
}

fn cs_ident(sym: u64) -> (t: Tok)
    ensures
        t == cs_ident_tok(sym),
{
    Tok::IdentTok(Ident { sym, hyg: Hygiene::CallSite })
}

fn cs_punct(ch: char) -> (t: Tok)
    ensures
        t == cs_punct_tok(ch),
{
    Tok::PunctTok { ch, hyg: Hygiene::CallSite }
}

fn one_tok(t: Tok) -> (r: List<Tok>)
    ensures
        r == single(t),
{
    List::Cons(t, Box::new(List::Nil))
}

/// The binding identifier on the left of an exterior `let`. In `only` mode
/// it moves to the mixed hygiene domain, so the invocation site cannot see
/// it; otherwise it keeps the captured variable's own hygiene and merges
/// with the surrounding scope. The right-hand reference to the outer
/// variable always keeps the variable's own hygiene.
pub open spec fn lhs_ident(upvar: Ident, only: bool) -> Ident {
    Ident { sym: upvar.sym, hyg: if only { Hygiene::Mixed } else { upvar.hyg } }
}

/// A `::` path separator.
pub open spec fn colon2_toks() -> List<Tok> {
    single(cs_punct_tok(':')).app(single(cs_punct_tok(':')))
}

fn colon2() -> (r: List<Tok>)
    ensures
        r == colon2_toks(),
{
    one_tok(cs_punct(':')).append(one_tok(cs_punct(':')))
}

/// The parenthesised argument of the clone call: `(&x)`.
pub open spec fn clone_arg_tok(upvar: Ident) -> Tok {
    Tok::GroupTok {
        delim: Delim::Paren,
        inner: Box::new(single(cs_punct_tok('&')).app(single(Tok::IdentTok(upvar)))),
        hyg: Hygiene::CallSite,
    }
}

/// The tokens of `::core::clone::Clone::clone(&x)`.
pub open spec fn clone_call_toks(upvar: Ident) -> List<Tok> {
    colon2_toks().app(single(cs_ident_tok(SYM_CORE))).app(colon2_toks()).app(
        single(cs_ident_tok(SYM_CLONE)),
    ).app(colon2_toks()).app(single(cs_ident_tok(SYM_CLONE_TRAIT))).app(colon2_toks()).app(
        single(cs_ident_tok(SYM_CLONE)),
    ).app(single(clone_arg_tok(upvar)))
}

fn clone_call(upvar: Ident) -> (r: List<Tok>)
    ensures
        r == clone_call_toks(upvar),
{
    let arg = Tok::GroupTok {
        delim: Delim::Paren,
        inner: Box::new(one_tok(cs_punct('&')).append(one_tok(Tok::IdentTok(upvar)))),
        hyg: Hygiene::CallSite,
    };
    colon2().append(one_tok(cs_ident(SYM_CORE))).append(colon2()).append(
        one_tok(cs_ident(SYM_CLONE)),
    ).append(colon2()).append(one_tok(cs_ident(SYM_CLONE_TRAIT))).append(colon2()).append(
        one_tok(cs_ident(SYM_CLONE)),
    ).append(one_tok(arg))
}

/// The right-hand side an assigned directive computes: a clone call, the
/// `with` expression's own tokens, or a reference to the outer variable,
/// honoring the reference's inner mutability.
pub open spec fn kind_toks(d: AssignedDirective) -> List<Tok> {
    match d.ty {
        DirectiveType::RefDir { mutable } => {
            let m = if mutable {
                single(cs_ident_tok(SYM_MUT))
            } else {
                List::Nil
            };
            single(cs_punct_tok('&')).app(m).app(single(Tok::IdentTok(d.upvar)))
        },
        DirectiveType::CloneDir => clone_call_toks(d.upvar),
        DirectiveType::WithDir { expr } => expr,
    }
}

/// One exterior statement: `let [mut] x = <computed>;`.
pub open spec fn ext_stmt_toks(d: AssignedDirective, only: bool) -> List<Tok> {
    let m = if d.mu {
        single(cs_ident_tok(SYM_MUT))
    } else {
        List::Nil
    };
    single(cs_ident_tok(SYM_LET)).app(m).app(single(Tok::IdentTok(lhs_ident(d.upvar, only)))).app(
        single(cs_punct_tok('=')),
    ).app(kind_toks(d)).app(single(cs_punct_tok(';')))
}

/// All exterior statements, one per assigned directive, in original order.
pub open spec fn exterior_toks(l: List<AssignedDirective>, only: bool) -> List<Tok>
    decreases l,
{
    match l {
        List::Nil => List::Nil,
        List::Cons(d, tail) => ext_stmt_toks(d, only).app(exterior_toks(*tail, only)),
    }
}

/// One interior marker statement: `let _ = &x;` — a pure shared borrow of
/// the whole variable, discarded. It forces the closure to capture all of
/// `x` without affecting whether the capture is by value or by reference.
pub open spec fn marker_toks(a: AllDirective) -> List<Tok> {
    single(cs_ident_tok(SYM_LET)).app(single(cs_ident_tok(SYM_UNDERSCORE))).app(
        single(cs_punct_tok('=')),
    ).app(single(cs_punct_tok('&'))).app(single(Tok::IdentTok(a.upvar))).app(
        single(cs_punct_tok(';')),
    )
}

/// All interior marker statements, one per `all` directive, in order.
pub open spec fn interior_toks(l: List<AllDirective>) -> List<Tok>
    decreases l,
{
    match l {
        List::Nil => List::Nil,
        List::Cons(a, tail) => marker_toks(a).app(interior_toks(*tail)),
    }
}

/// The `all` targets, in encounter order: these stay exempt from hygiene
/// cleaning so they keep resolving to the outer variables.
pub open spec fn exempt_idents(l: List<AllDirective>) -> List<Ident>
    decreases l,
{
    match l {
        List::Nil => List::Nil,
        List::Cons(a, tail) => List::Cons(a.upvar, Box::new(exempt_idents(*tail))),
    }
}

/// A verified deep copy of a token.
fn copy_tok(t: &Tok) -> (r: Tok)
    ensures
        r == *t,
    decreases *t,
{
    match t {
        Tok::IdentTok(id) => Tok::IdentTok(*id),
        Tok::PunctTok { ch, hyg } => Tok::PunctTok { ch: *ch, hyg: *hyg },
        Tok::LitTok { sym, hyg } => Tok::LitTok { sym: *sym, hyg: *hyg },
        Tok::GroupTok { delim, inner, hyg } => Tok::GroupTok {
            delim: *delim,
            inner: Box::new(copy_toks(inner)),
            hyg: *hyg,
        },
    }
}

/// A verified deep copy of a token list.
pub fn copy_toks(l: &List<Tok>) -> (r: List<Tok>)
    ensures
        r == *l,
    decreases *l,
{
    match l {
        List::Nil => List::Nil,
        List::Cons(head, tail) => List::Cons(copy_tok(head), Box::new(copy_toks(tail))),
    }
}

fn kind_toks_exec(d: &AssignedDirective) -> (r: List<Tok>)
    ensures
        r == kind_toks(*d),
{
    match &d.ty {
        DirectiveType::RefDir { mutable } => {
            let m = if *mutable {
                one_tok(cs_ident(SYM_MUT))
            } else {
                List::Nil
            };
            one_tok(cs_punct('&')).append(m).append(one_tok(Tok::IdentTok(d.upvar)))
        },
        DirectiveType::CloneDir => clone_call(d.upvar),
        DirectiveType::WithDir { expr } => copy_toks(expr),
    }
}

fn ext_stmt_exec(d: &AssignedDirective, only: bool) -> (r: List<Tok>)
    ensures
        r == ext_stmt_toks(*d, only),
{
    let lhs = Tok::IdentTok(Ident {
        sym: d.upvar.sym,
        hyg: if only { Hygiene::Mixed } else { d.upvar.hyg },
    });
    let m = if d.mu {
        one_tok(cs_ident(SYM_MUT))
    } else {
        List::Nil
    };
    let kind = kind_toks_exec(d);
    one_tok(cs_ident(SYM_LET)).append(m).append(one_tok(lhs)).append(one_tok(cs_punct('='))).append(
        kind,
    ).append(one_tok(cs_punct(';')))
}

fn exterior_exec(l: &List<AssignedDirective>, only: bool) -> (r: List<Tok>)
    ensures
        r == exterior_toks(*l, only),
    decreases *l,
{
    match l {
        List::Nil => List::Nil,
        List::Cons(d, tail) => ext_stmt_exec(d, only).append(exterior_exec(tail, only)),
    }
}

fn interior_exec(l: &List<AllDirective>) -> (r: List<Tok>)
    ensures
        r == interior_toks(*l),
    decreases *l,
{
    match l {
        List::Nil => List::Nil,
        List::Cons(a, tail) => {
            let marker = one_tok(cs_ident(SYM_LET)).append(one_tok(cs_ident(SYM_UNDERSCORE)))
                .append(one_tok(cs_punct('='))).append(one_tok(cs_punct('&'))).append(
                one_tok(Tok::IdentTok(a.upvar)),
            ).append(one_tok(cs_punct(';')));
            marker.append(interior_exec(tail))
        },
    }
}

fn exempt_exec(l: &List<AllDirective>) -> (r: List<Ident>)
    ensures
        r == exempt_idents(*l),
    decreases *l,
{
    match l {
        List::Nil => List::Nil,
        List::Cons(a, tail) => List::Cons(a.upvar, Box::new(exempt_exec(tail))),
    }
}

/// The planner's output: what goes before the closure, what goes at the head
/// of its body, and which identifiers the cleaner must leave alone.
pub struct Changes {
    pub exterior: List<Tok>,
    pub interior: List<Tok>,
    pub exempt: List<Ident>,
}

impl Changes {
    /// Plans the changes for a parsed input: one exterior `let` per assigned
    /// directive in original order, each using its kind's computed form; one
    /// interior marker and one exempt entry per `all` directive, in
    /// encounter order. `all` directives contribute no exterior statement,
    /// and nothing here raises a diagnostic: validation happened during
    /// parsing.
    pub fn from_input(input: &Input, only: bool) -> (r: Changes)
        ensures
            r.exterior == exterior_toks(input.assigned, only),
            r.interior == interior_toks(input.all),
            r.exempt == exempt_idents(input.all),
    {
        let exterior = exterior_exec(&input.assigned, only);
        let interior = interior_exec(&input.all);
        let exempt = exempt_exec(&input.all);
        Changes { exterior, interior, exempt }
    }
}

} // verus!
