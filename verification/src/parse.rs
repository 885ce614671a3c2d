//! The directive parser.
//!
//! The input to an invocation is a token sequence of the shape
//! `(directive ,)* closure`. This module parses the directive list with
//! error recovery: a malformed directive is recorded as a diagnostic, the
//! stream is skipped up to and including the next top-level comma, and
//! parsing resumes, so one invocation reports every malformed directive at
//! once. The trailing closure itself is read by the host's general
//! expression parser; [`assemble_input`] then joins its outcome with the
//! directive outcome, promotes the closure to `move` capture when a `clone`
//! or `with` directive demands it, and rejects `ref` directives on non-move
//! closures, attributes on the closure, and trailing tokens.

use vstd::prelude::*;
use crate::token::{Ident, List, Tok, single, contains_sym, SYM_REF, SYM_MUT, SYM_MOVE, SYM_ASYNC,
    SYM_STATIC, SYM_CLONE, SYM_WITH, SYM_ALL, is_keyword_sym, keyword_sym};
use crate::clean::Expr;

verus! {

/// How one directive computes the value bound in place of the captured
/// variable.
pub enum DirectiveType {
    /// `ref [mut] x`: bind a reference to the outer variable.
    RefDir { mutable: bool },
    /// `clone x`: bind a clone of the outer variable.
    CloneDir,
    /// `with x = expr`: bind the given expression, kept as its token run.
    WithDir { expr: List<Tok> },
}

/// A directive that binds a new value under the captured name.
pub struct AssignedDirective {
    /// The name used outside the closure for the source value, and rebound
    /// inside to the computed value.
    pub upvar: Ident,
    /// Whether the new binding itself is mutable.
    pub mu: bool,
    pub ty: DirectiveType,
}

/// An `all x` directive: force capture of the whole variable, leaving the
/// by-value-or-by-reference decision alone.
pub struct AllDirective {
    pub upvar: Ident,
}

/// Any single directive.
pub enum Directive {
    Assigned(AssignedDirective),
    All(AllDirective),
}

/// One diagnostic. A whole invocation accumulates a list of these rather
/// than stopping at the first.
#[derive(Clone, Copy, PartialEq, Eq, Structural, Debug)]
pub enum Diag {
    /// The tokens at hand begin no known directive.
    ExpectedDirective,
    /// `mut` was written on an `all` directive.
    MutWithAll,
    /// A directive head was not followed by a plain identifier.
    ExpectedIdent,
    /// A `with` directive lacked its `=`.
    ExpectedEq,
    /// A `with` directive's right-hand expression was empty.
    MalformedWithExpr,
    /// Two directives name the same variable.
    DuplicateDirective { upvar: Ident },
    /// A directive was not followed by a comma.
    ExpectedComma,
    /// The trailing closure did not parse.
    MalformedClosure,
    /// A `ref` directive on a closure that does not capture by move.
    RefNeedsMove,
    /// The closure carries attributes.
    AttrsForbidden,
    /// Tokens remain after the closure.
    ExpectedEnd,
}

/// The closure expression, as far as this crate reads or rewrites it. The
/// parameter list, return type and any `async`/`static` markers pass through
/// untouched as token runs.
pub struct Closure {
    /// Whether the literal carried attributes; those are rejected.
    pub has_attrs: bool,
    /// `async` / `static` markers, verbatim.
    pub prefix: List<Tok>,
    /// Whether the closure captures by move.
    pub is_move: bool,
    /// The tokens from the first `|` through the return type, verbatim.
    pub signature: List<Tok>,
    /// The closure body.
    pub body: Expr,
}

/// The entire parsed input to one invocation.
pub struct Input {
    pub assigned: List<AssignedDirective>,
    pub all: List<AllDirective>,
    pub closure: Closure,
}

/// True of a punctuation token with the given character.
pub open spec fn is_punct(t: Tok, c: char) -> bool {
    match t {
        Tok::PunctTok { ch, hyg: _ } => ch == c,
        _ => false,
    }
}

/// True of an identifier token with the given symbol.
pub open spec fn is_ident_sym(t: Tok, sym: u64) -> bool {
    match t {
        Tok::IdentTok(id) => id.sym == sym,
        _ => false,
    }
}

/// True when the sequence begins with the given punctuation.
pub open spec fn head_is_punct(toks: List<Tok>, c: char) -> bool {
    match toks {
        List::Cons(t, _) => is_punct(t, c),
        List::Nil => false,
    }
}

/// Whether the upcoming tokens look like the start of the closure
/// expression rather than another directive: an attribute marker, `async`,
/// `static`, a `|`, or `move` immediately followed by `|`.
pub open spec fn closure_start(toks: List<Tok>) -> bool {
    match toks {
        List::Nil => false,
        List::Cons(t, rest) => is_punct(t, '#') || is_punct(t, '|') || is_ident_sym(t, SYM_ASYNC)
            || is_ident_sym(t, SYM_STATIC) || (is_ident_sym(t, SYM_MOVE) && head_is_punct(
            *rest,
            '|',
        )),
    }
}

/// Exec mirror of [`is_punct`], on a borrowed token.
fn tok_is_punct(t: &Tok, c: char) -> (r: bool)
    ensures
        r == is_punct(*t, c),
{
    match t {
        Tok::PunctTok { ch, hyg: _ } => *ch == c,
        _ => false,
    }
}

/// Exec mirror of [`is_ident_sym`], on a borrowed token.
fn tok_is_ident_sym(t: &Tok, sym: u64) -> (r: bool)
    ensures
        r == is_ident_sym(*t, sym),
{
    match t {
        Tok::IdentTok(id) => id.sym == sym,
        _ => false,
    }
}

/// Exec mirror of [`closure_start`].
pub fn closure_start_exec(toks: &List<Tok>) -> (r: bool)
    ensures
        r == closure_start(*toks),
{
    match toks {
        List::Nil => false,
        List::Cons(t, rest) => tok_is_punct(t, '#') || tok_is_punct(t, '|') || tok_is_ident_sym(
            t,
            SYM_ASYNC,
        ) || tok_is_ident_sym(t, SYM_STATIC) || (tok_is_ident_sym(t, SYM_MOVE) && match &**rest {
            List::Cons(t2, _) => tok_is_punct(t2, '|'),
            List::Nil => false,
        }),
    }
}

/// Taking an optional `mut` off the front of the stream.
pub open spec fn take_mut_s(toks: List<Tok>) -> (bool, List<Tok>) {
    match toks {
        List::Cons(t, rest) => if is_ident_sym(t, SYM_MUT) {
            (true, *rest)
        } else {
            (false, toks)
        },
        List::Nil => (false, toks),
    }
}

fn take_mut(toks: List<Tok>) -> (r: (bool, List<Tok>))
    ensures
        r == take_mut_s(toks),
{
    match toks {
        List::Cons(t, rest) => if tok_is_ident_sym(&t, SYM_MUT) {
            (true, *rest)
        } else {
            (false, List::Cons(t, rest))
        },
        List::Nil => (false, List::Nil),
    }
}

/// The outcome of trying to take a plain (non-keyword) identifier off the
/// front of the stream.
pub enum IdentTaken {
    Got { id: Ident, rest: List<Tok> },
    NotIdent { rest: List<Tok> },
}

/// A directive's target must be a plain identifier: a keyword of the host
/// language cannot name a variable.
pub open spec fn take_ident_s(toks: List<Tok>) -> IdentTaken {
    match toks {
        List::Cons(t, rest) => match t {
            Tok::IdentTok(id) => if is_keyword_sym(id.sym) {
                IdentTaken::NotIdent { rest: toks }
            } else {
                IdentTaken::Got { id, rest: *rest }
            },
            _ => IdentTaken::NotIdent { rest: toks },
        },
        List::Nil => IdentTaken::NotIdent { rest: toks },
    }
}

fn take_ident(toks: List<Tok>) -> (r: IdentTaken)
    ensures
        r == take_ident_s(toks),
{
    match toks {
        List::Cons(t, rest) => match t {
            Tok::IdentTok(id) => if keyword_sym(id.sym) {
                IdentTaken::NotIdent { rest: List::Cons(Tok::IdentTok(id), rest) }
            } else {
                IdentTaken::Got { id, rest: *rest }
            },
            other => IdentTaken::NotIdent { rest: List::Cons(other, rest) },
        },
        List::Nil => IdentTaken::NotIdent { rest: List::Nil },
    }
}

/// The outcome of trying to take one expected punctuation token.
pub enum PunctTaken {
    Took { rest: List<Tok> },
    NotThere { rest: List<Tok> },
}

pub open spec fn take_punct_s(toks: List<Tok>, c: char) -> PunctTaken {
    match toks {
        List::Cons(t, rest) => if is_punct(t, c) {
            PunctTaken::Took { rest: *rest }
        } else {
            PunctTaken::NotThere { rest: toks }
        },
        List::Nil => PunctTaken::NotThere { rest: toks },
    }
}

fn take_punct(toks: List<Tok>, c: char) -> (r: PunctTaken)
    ensures
        r == take_punct_s(toks, c),
{
    match toks {
        List::Cons(t, rest) => if tok_is_punct(&t, c) {
            PunctTaken::Took { rest: *rest }
        } else {
            PunctTaken::NotThere { rest: List::Cons(t, rest) }
        },
        List::Nil => PunctTaken::NotThere { rest: List::Nil },
    }
}

/// Splits the stream at the next top-level comma: the prefix before it, and
/// the rest beginning with that comma (or empty, if there is none). Tokens
/// inside groups are opaque units, so commas nested in delimiters do not
/// count.
pub open spec fn split_at_comma_s(toks: List<Tok>) -> (List<Tok>, List<Tok>)
    decreases toks,
{
    match toks {
        List::Nil => (List::Nil, List::Nil),
        List::Cons(t, rest) => if is_punct(t, ',') {
            (List::Nil, List::Cons(t, rest))
        } else {
            let (pre, post) = split_at_comma_s(*rest);
            (List::Cons(t, Box::new(pre)), post)
        },
    }
}

fn split_at_comma(toks: List<Tok>) -> (r: (List<Tok>, List<Tok>))
    ensures
        r == split_at_comma_s(toks),
    decreases toks,
{
    match toks {
        List::Nil => (List::Nil, List::Nil),
        List::Cons(t, rest) => if tok_is_punct(&t, ',') {
            (List::Nil, List::Cons(t, rest))
        } else {
            let (pre, post) = split_at_comma(*rest);
            (List::Cons(t, Box::new(pre)), post)
        },
    }
}

/// Consumes tokens up to and including the next top-level comma. This is the
/// recovery step after a malformed directive.
pub open spec fn skip_past_comma_s(toks: List<Tok>) -> List<Tok>
    decreases toks,
{
    match toks {
        List::Nil => List::Nil,
        List::Cons(t, rest) => if is_punct(t, ',') {
            *rest
        } else {
            skip_past_comma_s(*rest)
        },
    }
}

pub fn skip_past_comma(toks: List<Tok>) -> (r: List<Tok>)
    ensures
        r == skip_past_comma_s(toks),
    decreases toks,
{
    match toks {
        List::Nil => List::Nil,
        List::Cons(t, rest) => if tok_is_punct(&t, ',') {
            *rest
        } else {
            skip_past_comma(*rest)
        },
    }
}

/// The outcome of parsing one directive: the directive and the rest of the
/// stream, or a diagnostic and the stream at the point of failure.
pub enum DirectiveResult {
    Parsed { dir: Directive, rest: List<Tok> },
    Failed { diag: Diag, rest: List<Tok> },
}

/// One directive, by its leading keyword-like identifier: `ref [mut] x`,
/// `clone [mut] x`, `with [mut] x = expr`, `all x`; anything else fails with
/// [`Diag::ExpectedDirective`]. A `with` expression runs to the next
/// top-level comma; a bare multi-parameter closure on its right-hand side,
/// whose own commas sit at top level, is a known limitation of that rule and
/// is not handled.
pub open spec fn parse_directive_s(toks: List<Tok>) -> DirectiveResult {
    match toks {
        List::Nil => DirectiveResult::Failed { diag: Diag::ExpectedDirective, rest: toks },
        List::Cons(t, rest) => match t {
            Tok::IdentTok(head) => if head.sym == SYM_REF {
                let (rmut, r2) = take_mut_s(*rest);
                match take_ident_s(r2) {
                    IdentTaken::Got { id, rest: r3 } => DirectiveResult::Parsed {
                        dir: Directive::Assigned(
                            AssignedDirective {
                                upvar: id,
                                mu: false,
                                ty: DirectiveType::RefDir { mutable: rmut },
                            },
                        ),
                        rest: r3,
                    },
                    IdentTaken::NotIdent { rest: r3 } => DirectiveResult::Failed {
                        diag: Diag::ExpectedIdent,
                        rest: r3,
                    },
                }
            } else if is_keyword_sym(head.sym) {
                DirectiveResult::Failed { diag: Diag::ExpectedDirective, rest: toks }
            } else {
                let (mu, r2) = take_mut_s(*rest);
                if head.sym == SYM_CLONE {
                    match take_ident_s(r2) {
                        IdentTaken::Got { id, rest: r3 } => DirectiveResult::Parsed {
                            dir: Directive::Assigned(
                                AssignedDirective { upvar: id, mu, ty: DirectiveType::CloneDir },
                            ),
                            rest: r3,
                        },
                        IdentTaken::NotIdent { rest: r3 } => DirectiveResult::Failed {
                            diag: Diag::ExpectedIdent,
                            rest: r3,
                        },
                    }
                } else if head.sym == SYM_WITH {
                    match take_ident_s(r2) {
                        IdentTaken::Got { id, rest: r3 } => match take_punct_s(r3, '=') {
                            PunctTaken::Took { rest: r4 } => {
                                let (etoks, r5) = split_at_comma_s(r4);
                                if etoks.len() == 0 {
                                    DirectiveResult::Failed {
                                        diag: Diag::MalformedWithExpr,
                                        rest: r5,
                                    }
                                } else {
                                    DirectiveResult::Parsed {
                                        dir: Directive::Assigned(
                                            AssignedDirective {
                                                upvar: id,
                                                mu,
                                                ty: DirectiveType::WithDir { expr: etoks },
                                            },
                                        ),
                                        rest: r5,
                                    }
                                }
                            },
                            PunctTaken::NotThere { rest: r4 } => DirectiveResult::Failed {
                                diag: Diag::ExpectedEq,
                                rest: r4,
                            },
                        },
                        IdentTaken::NotIdent { rest: r3 } => DirectiveResult::Failed {
                            diag: Diag::ExpectedIdent,
                            rest: r3,
                        },
                    }
                } else if head.sym == SYM_ALL {
                    if mu {
                        DirectiveResult::Failed { diag: Diag::MutWithAll, rest: r2 }
                    } else {
                        match take_ident_s(r2) {
                            IdentTaken::Got { id, rest: r3 } => DirectiveResult::Parsed {
                                dir: Directive::All(AllDirective { upvar: id }),
                                rest: r3,
                            },
                            IdentTaken::NotIdent { rest: r3 } => DirectiveResult::Failed {
                                diag: Diag::ExpectedIdent,
                                rest: r3,
                            },
                        }
                    }
                } else {
                    DirectiveResult::Failed { diag: Diag::ExpectedDirective, rest: r2 }
                }
            },
            _ => DirectiveResult::Failed { diag: Diag::ExpectedDirective, rest: toks },
        },
    }
}

/// Exec mirror of [`parse_directive_s`].
pub fn parse_directive(toks: List<Tok>) -> (r: DirectiveResult)
    ensures
        r == parse_directive_s(toks),
{
    match toks {
        List::Nil => DirectiveResult::Failed { diag: Diag::ExpectedDirective, rest: List::Nil },
        List::Cons(t, rest) => match t {
            Tok::IdentTok(head) => if head.sym == SYM_REF {
                let (rmut, r2) = take_mut(*rest);
                match take_ident(r2) {
                    IdentTaken::Got { id, rest: r3 } => DirectiveResult::Parsed {
                        dir: Directive::Assigned(
                            AssignedDirective {
                                upvar: id,
                                mu: false,
                                ty: DirectiveType::RefDir { mutable: rmut },
                            },
                        ),
                        rest: r3,
                    },
                    IdentTaken::NotIdent { rest: r3 } => DirectiveResult::Failed {
                        diag: Diag::ExpectedIdent,
                        rest: r3,
                    },
                }
            } else if keyword_sym(head.sym) {
                DirectiveResult::Failed {
                    diag: Diag::ExpectedDirective,
                    rest: List::Cons(Tok::IdentTok(head), rest),
                }
            } else {
                let (mu, r2) = take_mut(*rest);
                if head.sym == SYM_CLONE {
                    match take_ident(r2) {
                        IdentTaken::Got { id, rest: r3 } => DirectiveResult::Parsed {
                            dir: Directive::Assigned(
                                AssignedDirective { upvar: id, mu, ty: DirectiveType::CloneDir },
                            ),
                            rest: r3,
                        },
                        IdentTaken::NotIdent { rest: r3 } => DirectiveResult::Failed {
                            diag: Diag::ExpectedIdent,
                            rest: r3,
                        },
                    }
                } else if head.sym == SYM_WITH {
                    match take_ident(r2) {
                        IdentTaken::Got { id, rest: r3 } => match take_punct(r3, '=') {
                            PunctTaken::Took { rest: r4 } => {
                                let (etoks, r5) = split_at_comma(r4);
                                match etoks {
                                    List::Nil => DirectiveResult::Failed {
                                        diag: Diag::MalformedWithExpr,
                                        rest: r5,
                                    },
                                    _ => DirectiveResult::Parsed {
                                        dir: Directive::Assigned(
                                            AssignedDirective {
                                                upvar: id,
                                                mu,
                                                ty: DirectiveType::WithDir { expr: etoks },
                                            },
                                        ),
                                        rest: r5,
                                    },
                                }
                            },
                            PunctTaken::NotThere { rest: r4 } => DirectiveResult::Failed {
                                diag: Diag::ExpectedEq,
                                rest: r4,
                            },
                        },
                        IdentTaken::NotIdent { rest: r3 } => DirectiveResult::Failed {
                            diag: Diag::ExpectedIdent,
                            rest: r3,
                        },
                    }
                } else if head.sym == SYM_ALL {
                    if mu {
                        DirectiveResult::Failed { diag: Diag::MutWithAll, rest: r2 }
                    } else {
                        match take_ident(r2) {
                            IdentTaken::Got { id, rest: r3 } => DirectiveResult::Parsed {
                                dir: Directive::All(AllDirective { upvar: id }),
                                rest: r3,
                            },
                            IdentTaken::NotIdent { rest: r3 } => DirectiveResult::Failed {
                                diag: Diag::ExpectedIdent,
                                rest: r3,
                            },
                        }
                    }
                } else {
                    DirectiveResult::Failed { diag: Diag::ExpectedDirective, rest: r2 }
                }
            },
            other => DirectiveResult::Failed {
                diag: Diag::ExpectedDirective,
                rest: List::Cons(other, rest),
            },
        },
    }
}

/// The remainder after splitting at a comma is no longer than the input.
pub proof fn lemma_split_at_comma_len(toks: List<Tok>)
    ensures
        split_at_comma_s(toks).1.len() <= toks.len(),
    decreases toks,
{
    match toks {
        List::Nil => {},
        List::Cons(_, rest) => {
            lemma_split_at_comma_len(*rest);
        },
    }
}

/// Skipping past a comma consumes at least one token of a non-empty stream.
pub proof fn lemma_skip_past_comma_len(toks: List<Tok>)
    ensures
        skip_past_comma_s(toks).len() <= toks.len(),
        toks matches List::Cons(_, _) ==> skip_past_comma_s(toks).len() < toks.len(),
    decreases toks,
{
    match toks {
        List::Nil => {},
        List::Cons(_, rest) => {
            lemma_skip_past_comma_len(*rest);
        },
    }
}

proof fn lemma_take_mut_len(toks: List<Tok>)
    ensures
        take_mut_s(toks).1.len() <= toks.len(),
{
    match toks {
        List::Nil => {},
        List::Cons(_, _) => {},
    }
}

proof fn lemma_take_ident_len(toks: List<Tok>)
    ensures
        take_ident_s(toks) matches IdentTaken::Got { id, rest } ==> rest.len() < toks.len(),
        take_ident_s(toks) matches IdentTaken::NotIdent { rest } ==> rest.len() <= toks.len(),
{
    match toks {
        List::Nil => {},
        List::Cons(_, _) => {},
    }
}

proof fn lemma_take_punct_len(toks: List<Tok>, c: char)
    ensures
        take_punct_s(toks, c) matches PunctTaken::Took { rest } ==> rest.len() < toks.len(),
        take_punct_s(toks, c) matches PunctTaken::NotThere { rest } ==> rest.len() <= toks.len(),
{
    match toks {
        List::Nil => {},
        List::Cons(_, _) => {},
    }
}

/// A parsed directive consumes at least one token; a failed parse never
/// grows the stream.
pub proof fn lemma_parse_directive_len(toks: List<Tok>)
    ensures
        parse_directive_s(toks) matches DirectiveResult::Parsed { dir, rest } ==> rest.len()
            < toks.len(),
        parse_directive_s(toks) matches DirectiveResult::Failed { diag, rest } ==> rest.len()
            <= toks.len(),
{
    match toks {
        List::Nil => {},
        List::Cons(t, tail) => {
            assert(toks.len() == 1 + tail.len());
            match t {
                Tok::IdentTok(head) => {
                    lemma_take_mut_len(*tail);
                    let (_, r2) = take_mut_s(*tail);
                    lemma_take_ident_len(r2);
                    match take_ident_s(r2) {
                        IdentTaken::Got { id, rest: r3 } => {
                            lemma_take_punct_len(r3, '=');
                            match take_punct_s(r3, '=') {
                                PunctTaken::Took { rest: r4 } => {
                                    lemma_split_at_comma_len(r4);
                                },
                                PunctTaken::NotThere { .. } => {},
                            }
                        },
                        IdentTaken::NotIdent { .. } => {},
                    }
                },
                _ => {},
            }
        },
    }
}

/// What the directive loop accumulates: the directives in encounter order,
/// the diagnostics in the order they arose, whether some directive forces
/// move capture, and the unconsumed rest of the stream, which begins the
/// closure expression.
pub struct DirectivesOutcome {
    pub assigned: List<AssignedDirective>,
    pub all: List<AllDirective>,
    pub diags: List<Diag>,
    pub needs_move: bool,
    pub rest: List<Tok>,
}

/// The variable a directive names.
pub open spec fn dir_upvar(dir: Directive) -> Ident {
    match dir {
        Directive::Assigned(a) => a.upvar,
        Directive::All(a) => a.upvar,
    }
}

/// True of the assigned directives that compute a fresh owned value, and so
/// force the closure to capture by move.
pub open spec fn forces_move(dir: Directive) -> bool {
    match dir {
        Directive::Assigned(a) => match a.ty {
            DirectiveType::RefDir { .. } => false,
            DirectiveType::CloneDir => true,
            DirectiveType::WithDir { .. } => true,
        },
        Directive::All(_) => false,
    }
}

fn dir_upvar_exec(dir: &Directive) -> (r: Ident)
    ensures
        r == dir_upvar(*dir),
{
    match dir {
        Directive::Assigned(a) => a.upvar,
        Directive::All(a) => a.upvar,
    }
}

fn forces_move_exec(dir: &Directive) -> (r: bool)
    ensures
        r == forces_move(*dir),
{
    match dir {
        Directive::Assigned(a) => match a.ty {
            DirectiveType::RefDir { .. } => false,
            DirectiveType::CloneDir => true,
            DirectiveType::WithDir { .. } => true,
        },
        Directive::All(_) => false,
    }
}

/// The directive loop. Before each round it decides whether the upcoming
/// tokens begin the closure; otherwise it parses one directive, records a
/// duplicate-target diagnostic when the name was already seen (comparing
/// names only, not hygiene), and expects a separating comma. On a failed
/// directive it records the diagnostic and skips past the next top-level
/// comma, so that every malformed directive of one invocation is reported.
pub open spec fn parse_loop_s(
    toks: List<Tok>,
    acc_assigned: List<AssignedDirective>,
    acc_all: List<AllDirective>,
    seen: List<u64>,
    diags: List<Diag>,
    needs_move: bool,
) -> DirectivesOutcome
    decreases toks.len(),
    via parse_loop_s_dec
{
    if toks matches List::Nil || closure_start(toks) {
        DirectivesOutcome { assigned: acc_assigned, all: acc_all, diags, needs_move, rest: toks }
    } else {
        match parse_directive_s(toks) {
            DirectiveResult::Parsed { dir, rest } => {
                let id = dir_upvar(dir);
                let nm2 = needs_move || forces_move(dir);
                let dup = seen.contains_elem(id.sym);
                let diags2 = if dup {
                    diags.app(single(Diag::DuplicateDirective { upvar: id }))
                } else {
                    diags
                };
                let seen2 = if dup {
                    seen
                } else {
                    seen.app(single(id.sym))
                };
                let acc_a2 = match dir {
                    Directive::Assigned(a) => acc_assigned.app(single(a)),
                    Directive::All(_) => acc_assigned,
                };
                let acc_all2 = match dir {
                    Directive::Assigned(_) => acc_all,
                    Directive::All(a) => acc_all.app(single(a)),
                };
                match take_punct_s(rest, ',') {
                    PunctTaken::Took { rest: r2 } => parse_loop_s(
                        r2,
                        acc_a2,
                        acc_all2,
                        seen2,
                        diags2,
                        nm2,
                    ),
                    PunctTaken::NotThere { rest: r2 } => parse_loop_s(
                        r2,
                        acc_a2,
                        acc_all2,
                        seen2,
                        diags2.app(single(Diag::ExpectedComma)),
                        nm2,
                    ),
                }
            },
            DirectiveResult::Failed { diag, rest } => parse_loop_s(
                skip_past_comma_s(rest),
                acc_assigned,
                acc_all,
                seen,
                diags.app(single(diag)),
                needs_move,
            ),
        }
    }
}

#[via_fn]
proof fn parse_loop_s_dec(
    toks: List<Tok>,
    acc_assigned: List<AssignedDirective>,
    acc_all: List<AllDirective>,
    seen: List<u64>,
    diags: List<Diag>,
    needs_move: bool,
) {
    if !(toks matches List::Nil) && !closure_start(toks) {
        lemma_parse_directive_len(toks);
        match parse_directive_s(toks) {
            DirectiveResult::Parsed { dir, rest } => {},
            DirectiveResult::Failed { diag, rest } => {
                lemma_skip_past_comma_len(rest);
            },
        }
    }
}

/// Exec mirror of [`parse_loop_s`].
fn parse_loop(
    toks: List<Tok>,
    acc_assigned: List<AssignedDirective>,
    acc_all: List<AllDirective>,
    seen: List<u64>,
    diags: List<Diag>,
    needs_move: bool,
) -> (r: DirectivesOutcome)
    ensures
        r == parse_loop_s(toks, acc_assigned, acc_all, seen, diags, needs_move),
    decreases toks.len(),
{
    let ghost toks0 = toks;
    if matches!(toks, List::Nil) || closure_start_exec(&toks) {
        DirectivesOutcome { assigned: acc_assigned, all: acc_all, diags, needs_move, rest: toks }
    } else {
        proof {
            lemma_parse_directive_len(toks0);
        }
        match parse_directive(toks) {
            DirectiveResult::Parsed { dir, rest } => {
                let id = dir_upvar_exec(&dir);
                let fm = forces_move_exec(&dir);
                let nm2 = needs_move || fm;
                let dup = contains_sym(&seen, id.sym);
                let diags2 = if dup {
                    diags.snoc(Diag::DuplicateDirective { upvar: id })
                } else {
                    diags
                };
                let seen2 = if dup {
                    seen
                } else {
                    seen.snoc(id.sym)
                };
                let (acc_a2, acc_all2) = match dir {
                    Directive::Assigned(a) => (acc_assigned.snoc(a), acc_all),
                    Directive::All(a) => (acc_assigned, acc_all.snoc(a)),
                };
                match take_punct(rest, ',') {
                    PunctTaken::Took { rest: r2 } => parse_loop(
                        r2,
                        acc_a2,
                        acc_all2,
                        seen2,
                        diags2,
                        nm2,
                    ),
                    PunctTaken::NotThere { rest: r2 } => parse_loop(
                        r2,
                        acc_a2,
                        acc_all2,
                        seen2,
                        diags2.snoc(Diag::ExpectedComma),
                        nm2,
                    ),
                }
            },
            DirectiveResult::Failed { diag, rest } => {
                proof {
                    lemma_skip_past_comma_len(rest);
                }
                let r2 = skip_past_comma(rest);
                parse_loop(r2, acc_assigned, acc_all, seen, diags.snoc(diag), needs_move)
            },
        }
    }
}

/// Parses the directive list off the front of an invocation's tokens.
pub open spec fn parse_directives_s(toks: List<Tok>) -> DirectivesOutcome {
    parse_loop_s(toks, List::Nil, List::Nil, List::Nil, List::Nil, false)
}

/// Exec mirror of [`parse_directives_s`]: the verified entry into the
/// directive parser. The returned `rest` is where the closure expression
/// begins; the host parses it and hands the result to [`assemble_input`].
pub fn parse_directives(toks: List<Tok>) -> (r: DirectivesOutcome)
    ensures
        r == parse_directives_s(toks),
{
    parse_loop(toks, List::Nil, List::Nil, List::Nil, List::Nil, false)
}

/// True of directives that bind a reference.
pub open spec fn is_ref_dir(a: AssignedDirective) -> bool {
    a.ty matches DirectiveType::RefDir { .. }
}

/// True when some assigned directive binds a reference.
pub open spec fn has_ref_dir(l: List<AssignedDirective>) -> bool
    decreases l,
{
    match l {
        List::Nil => false,
        List::Cons(a, tail) => is_ref_dir(a) || has_ref_dir(*tail),
    }
}

/// True when some assigned directive forces move capture (a `clone` or a
/// `with`).
pub open spec fn has_clone_or_with(l: List<AssignedDirective>) -> bool
    decreases l,
{
    match l {
        List::Nil => false,
        List::Cons(a, tail) => !is_ref_dir(a) || has_clone_or_with(*tail),
    }
}

/// One [`Diag::RefNeedsMove`] for each `ref` directive in the list.
pub open spec fn ref_diags(l: List<AssignedDirective>) -> List<Diag>
    decreases l,
{
    match l {
        List::Nil => List::Nil,
        List::Cons(a, tail) => if is_ref_dir(a) {
            List::Cons(Diag::RefNeedsMove, Box::new(ref_diags(*tail)))
        } else {
            ref_diags(*tail)
        },
    }
}

fn ref_diags_exec(l: &List<AssignedDirective>) -> (r: List<Diag>)
    ensures
        r == ref_diags(*l),
    decreases *l,
{
    match l {
        List::Nil => List::Nil,
        List::Cons(a, tail) => match a.ty {
            DirectiveType::RefDir { .. } => List::Cons(
                Diag::RefNeedsMove,
                Box::new(ref_diags_exec(tail)),
            ),
            _ => ref_diags_exec(tail),
        },
    }
}

/// There are no `ref` diagnostics exactly when there is no `ref` directive.
pub proof fn lemma_ref_diags_empty(l: List<AssignedDirective>)
    ensures
        (ref_diags(l) matches List::Nil) <==> !has_ref_dir(l),
    decreases l,
{
    match l {
        List::Nil => {},
        List::Cons(_, tail) => {
            lemma_ref_diags_empty(*tail);
        },
    }
}

/// The diagnostics that joining the closure onto a directive outcome adds:
/// `ref` directives on a closure that still does not capture by move, then
/// attributes on the closure, then trailing tokens after it.
pub open spec fn final_diags(o: DirectivesOutcome, c: Closure, trailing_empty: bool) -> List<
    Diag,
> {
    let d1 = if !(c.is_move || o.needs_move) {
        o.diags.app(ref_diags(o.assigned))
    } else {
        o.diags
    };
    let d2 = if c.has_attrs {
        d1.app(single(Diag::AttrsForbidden))
    } else {
        d1
    };
    if !trailing_empty {
        d2.app(single(Diag::ExpectedEnd))
    } else {
        d2
    }
}

/// Joins the directive outcome with the closure the host's expression
/// parser produced (`None` when that parse failed, which ends the
/// invocation with the accumulated diagnostics). On success the closure is
/// promoted to move capture whenever a `clone` or `with` directive was
/// present. `trailing_empty` says whether the closure consumed the stream
/// to its end.
pub open spec fn assemble_input_s(
    o: DirectivesOutcome,
    closure: Option<Closure>,
    trailing_empty: bool,
) -> Result<Input, List<Diag>> {
    match closure {
        Option::None => Result::Err(o.diags.app(single(Diag::MalformedClosure))),
        Option::Some(c) => {
            let fd = final_diags(o, c, trailing_empty);
            if fd matches List::Cons(_, _) {
                Result::Err(fd)
            } else {
                Result::Ok(
                    Input {
                        assigned: o.assigned,
                        all: o.all,
                        closure: Closure {
                            has_attrs: c.has_attrs,
                            prefix: c.prefix,
                            is_move: c.is_move || o.needs_move,
                            signature: c.signature,
                            body: c.body,
                        },
                    },
                )
            }
        },
    }
}

/// Exec mirror of [`assemble_input_s`]. Success comes exactly when the
/// directive list parsed cleanly, the closure parsed, no `ref` directive
/// sits on a closure left without move capture, the closure carries no
/// attributes, and nothing trails it.
pub fn assemble_input(o: DirectivesOutcome, closure: Option<Closure>, trailing_empty: bool) -> (r:
    Result<Input, List<Diag>>)
    ensures
        r == assemble_input_s(o, closure, trailing_empty),
        r matches Result::Ok(inp) ==> {
            &&& closure matches Option::Some(c) && inp.closure.is_move == (c.is_move
                || o.needs_move)
            &&& inp.assigned == o.assigned
            &&& inp.all == o.all
        },
{
    match closure {
        Option::None => Result::Err(o.diags.snoc(Diag::MalformedClosure)),
        Option::Some(c) => {
            let is_move2 = c.is_move || o.needs_move;
            let d1 = if !is_move2 {
                let rd = ref_diags_exec(&o.assigned);
                o.diags.append(rd)
            } else {
                o.diags
            };
            let d2 = if c.has_attrs {
                d1.snoc(Diag::AttrsForbidden)
            } else {
                d1
            };
            let fd = if !trailing_empty {
                d2.snoc(Diag::ExpectedEnd)
            } else {
                d2
            };
            match fd {
                List::Cons(h, t) => Result::Err(List::Cons(h, t)),
                List::Nil => Result::Ok(
                    Input {
                        assigned: o.assigned,
                        all: o.all,
                        closure: Closure {
                            has_attrs: c.has_attrs,
                            prefix: c.prefix,
                            is_move: is_move2,
                            signature: c.signature,
                            body: c.body,
                        },
                    },
                ),
            }
        },
    }
}

} // verus!
