// Tests for the directive parser: the grammar, error recovery, duplicate
// detection, move promotion, and input assembly.

use captures::token::{Hygiene, Ident, List, Tok, SYM_ALL, SYM_CLONE, SYM_MOVE, SYM_MUT, SYM_REF,
    SYM_WITH};
use captures::parse::{assemble_input, parse_directives, AssignedDirective, Closure, Diag,
    DirectiveType, DirectivesOutcome};
use captures::clean::Expr;

const A: u64 = 100;
const B: u64 = 101;
const C: u64 = 102;
const X: u64 = 103;
const BOGUS: u64 = 110;
const LIT_ONE: u64 = 900;
const LIT_TEN: u64 = 901;

fn id(sym: u64) -> Tok {
    Tok::IdentTok(Ident { sym, hyg: Hygiene::CallSite })
}

fn pu(ch: char) -> Tok {
    Tok::PunctTok { ch, hyg: Hygiene::CallSite }
}

fn lit(sym: u64) -> Tok {
    Tok::LitTok { sym, hyg: Hygiene::CallSite }
}

fn toks(v: Vec<Tok>) -> List<Tok> {
    let mut out = List::Nil;
    for t in v.into_iter().rev() {
        out = List::Cons(t, Box::new(out));
    }
    out
}

fn list_len<T>(mut l: &List<T>) -> usize {
    let mut n = 0;
    while let List::Cons(_, tail) = l {
        n += 1;
        l = tail;
    }
    n
}

fn nth_assigned<'a>(mut l: &'a List<AssignedDirective>, mut n: usize) -> &'a AssignedDirective {
    loop {
        match l {
            List::Cons(d, tail) => {
                if n == 0 {
                    return d;
                }
                n -= 1;
                l = tail;
            }
            List::Nil => panic!("index out of range"),
        }
    }
}

fn diags_vec(mut l: &List<Diag>) -> Vec<Diag> {
    let mut out = Vec::new();
    while let List::Cons(d, tail) = l {
        out.push(*d);
        l = tail;
    }
    out
}

fn plain_closure(is_move: bool) -> Closure {
    Closure {
        has_attrs: false,
        prefix: List::Nil,
        is_move,
        signature: toks(vec![pu('|'), pu('|')]),
        body: Expr::Seg(Ident { sym: A, hyg: Hygiene::CallSite }),
    }
}

fn parse(v: Vec<Tok>) -> DirectivesOutcome {
    parse_directives(toks(v))
}

fn ok_of(r: Result<captures::parse::Input, List<Diag>>) -> captures::parse::Input {
    match r {
        Ok(inp) => inp,
        Err(_) => panic!("expected success"),
    }
}

fn err_of(r: Result<captures::parse::Input, List<Diag>>) -> List<Diag> {
    match r {
        Ok(_) => panic!("expected failure"),
        Err(ds) => ds,
    }
}

#[test]
fn clone_directive_parses() {
    let o = parse(vec![id(SYM_CLONE), id(A), pu(','), id(SYM_MOVE), pu('|'), pu('|'), id(A)]);
    assert_eq!(list_len(&o.assigned), 1);
    assert_eq!(list_len(&o.all), 0);
    assert_eq!(list_len(&o.diags), 0);
    assert!(o.needs_move);
    let d = nth_assigned(&o.assigned, 0);
    assert_eq!(d.upvar.sym, A);
    assert!(!d.mu);
    assert!(matches!(d.ty, DirectiveType::CloneDir));
    // The rest begins at `move |`.
    assert_eq!(list_len(&o.rest), 4);
}

#[test]
fn clone_mut_directive_parses() {
    let o = parse(vec![id(SYM_CLONE), id(SYM_MUT), id(A), pu(','), pu('|'), pu('|')]);
    let d = nth_assigned(&o.assigned, 0);
    assert!(d.mu);
    assert!(matches!(d.ty, DirectiveType::CloneDir));
}

#[test]
fn ref_directives_parse() {
    let o = parse(vec![
        id(SYM_REF), id(SYM_MUT), id(A), pu(','),
        id(SYM_REF), id(B), pu(','),
        id(SYM_MOVE), pu('|'), pu('|'),
    ]);
    assert_eq!(list_len(&o.assigned), 2);
    assert_eq!(list_len(&o.diags), 0);
    assert!(!o.needs_move);
    let d0 = nth_assigned(&o.assigned, 0);
    // `ref mut` makes the reference mutable, never the binding itself.
    assert!(!d0.mu);
    assert!(matches!(d0.ty, DirectiveType::RefDir { mutable: true }));
    let d1 = nth_assigned(&o.assigned, 1);
    assert!(matches!(d1.ty, DirectiveType::RefDir { mutable: false }));
}

#[test]
fn with_directive_takes_tokens_to_comma() {
    let o = parse(vec![
        id(SYM_WITH), id(SYM_MUT), id(C), pu('='), lit(LIT_TEN), pu('+'), lit(LIT_ONE), pu(','),
        pu('|'), pu('|'),
    ]);
    assert_eq!(list_len(&o.diags), 0);
    assert!(o.needs_move);
    let d = nth_assigned(&o.assigned, 0);
    assert_eq!(d.upvar.sym, C);
    assert!(d.mu);
    match &d.ty {
        DirectiveType::WithDir { expr } => assert_eq!(list_len(expr), 3),
        _ => panic!("expected a with directive"),
    }
}

#[test]
fn all_directive_parses() {
    let o = parse(vec![id(SYM_ALL), id(A), pu(','), pu('|'), pu('|')]);
    assert_eq!(list_len(&o.assigned), 0);
    assert_eq!(list_len(&o.all), 1);
    assert!(!o.needs_move);
}

#[test]
fn all_with_mut_is_an_error() {
    let o = parse(vec![id(SYM_ALL), id(SYM_MUT), id(A), pu(','), pu('|'), pu('|')]);
    let ds = diags_vec(&o.diags);
    assert!(ds.contains(&Diag::MutWithAll));
}

#[test]
fn unknown_directive_head_is_an_error() {
    let o = parse(vec![id(BOGUS), id(A), pu(','), pu('|'), pu('|')]);
    let ds = diags_vec(&o.diags);
    assert_eq!(ds, vec![Diag::ExpectedDirective]);
    assert_eq!(list_len(&o.assigned), 0);
}

#[test]
fn directive_head_without_ident_is_an_error() {
    let o = parse(vec![id(SYM_CLONE), lit(LIT_ONE), pu(','), pu('|'), pu('|')]);
    assert!(diags_vec(&o.diags).contains(&Diag::ExpectedIdent));
}

#[test]
fn with_without_eq_is_an_error() {
    let o = parse(vec![id(SYM_WITH), id(C), lit(LIT_TEN), pu(','), pu('|'), pu('|')]);
    assert!(diags_vec(&o.diags).contains(&Diag::ExpectedEq));
}

#[test]
fn with_empty_expression_is_an_error() {
    let o = parse(vec![id(SYM_WITH), id(C), pu('='), pu(','), pu('|'), pu('|')]);
    assert!(diags_vec(&o.diags).contains(&Diag::MalformedWithExpr));
}

#[test]
fn missing_comma_is_reported_and_parsing_goes_on() {
    let o = parse(vec![id(SYM_CLONE), id(A), id(SYM_CLONE), id(B), pu(','), pu('|'), pu('|')]);
    assert!(diags_vec(&o.diags).contains(&Diag::ExpectedComma));
    assert_eq!(list_len(&o.assigned), 2);
}

// An invocation with several distinct malformed directives reports them
// all in one combined listing, not just the first.
#[test]
fn errors_accumulate_across_directives() {
    let o = parse(vec![
        id(BOGUS), id(A), pu(','),
        id(SYM_CLONE), lit(LIT_ONE), pu(','),
        id(SYM_ALL), id(SYM_MUT), id(B), pu(','),
        pu('|'), pu('|'),
    ]);
    let ds = diags_vec(&o.diags);
    assert_eq!(ds.len(), 3);
    assert!(ds.contains(&Diag::ExpectedDirective));
    assert!(ds.contains(&Diag::ExpectedIdent));
    assert!(ds.contains(&Diag::MutWithAll));
}

// Recovery skips commas hidden inside groups: they do not end the skip.
#[test]
fn recovery_skips_groups_as_opaque_units() {
    let group = Tok::GroupTok {
        delim: captures::token::Delim::Paren,
        inner: Box::new(toks(vec![lit(LIT_ONE), pu(','), lit(LIT_TEN)])),
        hyg: Hygiene::CallSite,
    };
    let o = parse(vec![
        id(BOGUS), group, pu(','),
        id(SYM_CLONE), id(B), pu(','),
        pu('|'), pu('|'),
    ]);
    assert_eq!(diags_vec(&o.diags), vec![Diag::ExpectedDirective]);
    assert_eq!(list_len(&o.assigned), 1);
    assert_eq!(nth_assigned(&o.assigned, 0).upvar.sym, B);
}

// Two directives for one name: the duplicate is reported by name, and
// parsing still proceeds to examine the rest of the invocation.
#[test]
fn duplicate_directive_target_is_reported() {
    let o = parse(vec![
        id(SYM_CLONE), id(A), pu(','),
        id(SYM_WITH), id(A), pu('='), lit(LIT_ONE), pu(','),
        pu('|'), pu('|'),
    ]);
    let ds = diags_vec(&o.diags);
    assert_eq!(ds.len(), 1);
    assert!(matches!(ds[0], Diag::DuplicateDirective { upvar } if upvar.sym == A));
    // Both directives were still parsed.
    assert_eq!(list_len(&o.assigned), 2);
    let r = assemble_input(o, Some(plain_closure(false)), true);
    assert!(r.is_err());
}

#[test]
fn duplicate_then_further_errors_both_surface() {
    let o = parse(vec![
        id(SYM_CLONE), id(A), pu(','),
        id(SYM_CLONE), id(A), pu(','),
        id(BOGUS), pu(','),
        pu('|'), pu('|'),
    ]);
    let ds = diags_vec(&o.diags);
    assert_eq!(ds.len(), 2);
    assert!(matches!(ds[0], Diag::DuplicateDirective { upvar } if upvar.sym == A));
    assert_eq!(ds[1], Diag::ExpectedDirective);
}

// A clone or with directive promotes a non-move closure to move capture.
#[test]
fn clone_promotes_to_move() {
    let o = parse(vec![id(SYM_CLONE), id(A), pu(','), pu('|'), pu('|')]);
    let r = assemble_input(o, Some(plain_closure(false)), true);
    let inp = ok_of(r);
    assert!(inp.closure.is_move);
}

// Only `all` directives never force move capture.
#[test]
fn all_never_promotes_to_move() {
    let o = parse(vec![id(SYM_ALL), id(A), pu(','), pu('|'), pu('|')]);
    assert!(!o.needs_move);
    let r = assemble_input(o, Some(plain_closure(false)), true);
    let inp = ok_of(r);
    assert!(!inp.closure.is_move);
}

#[test]
fn ref_on_non_move_closure_is_an_error() {
    let o = parse(vec![id(SYM_REF), id(A), pu(','), pu('|'), pu('|')]);
    let r = assemble_input(o, Some(plain_closure(false)), true);
    let ds = diags_vec(&err_of(r));
    assert_eq!(ds, vec![Diag::RefNeedsMove]);
}

#[test]
fn ref_on_move_closure_is_accepted() {
    let o = parse(vec![id(SYM_REF), id(A), pu(','), id(SYM_MOVE), pu('|'), pu('|'), id(X)]);
    let r = assemble_input(o, Some(plain_closure(true)), true);
    assert!(r.is_ok());
}

#[test]
fn closure_attributes_are_rejected() {
    let o = parse(vec![id(SYM_ALL), id(A), pu(','), pu('|'), pu('|')]);
    let mut c = plain_closure(false);
    c.has_attrs = true;
    let ds = diags_vec(&err_of(assemble_input(o, Some(c), true)));
    assert_eq!(ds, vec![Diag::AttrsForbidden]);
}

#[test]
fn trailing_tokens_are_rejected() {
    let o = parse(vec![id(SYM_ALL), id(A), pu(','), pu('|'), pu('|')]);
    let ds = diags_vec(&err_of(assemble_input(o, Some(plain_closure(false)), false)));
    assert_eq!(ds, vec![Diag::ExpectedEnd]);
}

#[test]
fn failed_closure_parse_combines_with_earlier_diags() {
    let o = parse(vec![id(BOGUS), pu(','), pu('|'), pu('|')]);
    let ds = diags_vec(&err_of(assemble_input(o, None, true)));
    assert_eq!(ds, vec![Diag::ExpectedDirective, Diag::MalformedClosure]);
}

// Keywords of the host language cannot name a captured variable.
#[test]
fn keyword_upvar_is_rejected() {
    let o = parse(vec![id(SYM_CLONE), id(SYM_MOVE), pu(','), pu('|'), pu('|')]);
    assert!(diags_vec(&o.diags).contains(&Diag::ExpectedIdent));
}

#[test]
fn all_four_directive_kinds_together() {
    let o = parse(vec![
        id(SYM_REF), id(SYM_MUT), id(A), pu(','),
        id(SYM_CLONE), id(SYM_MUT), id(B), pu(','),
        id(SYM_WITH), id(C), pu('='), lit(LIT_TEN), pu(','),
        id(SYM_ALL), id(X), pu(','),
        id(SYM_MOVE), pu('|'), pu('|'), id(A),
    ]);
    assert_eq!(list_len(&o.assigned), 3);
    assert_eq!(list_len(&o.all), 1);
    assert_eq!(list_len(&o.diags), 0);
    assert!(o.needs_move);
    assert_eq!(nth_assigned(&o.assigned, 0).upvar.sym, A);
    assert_eq!(nth_assigned(&o.assigned, 1).upvar.sym, B);
    assert_eq!(nth_assigned(&o.assigned, 2).upvar.sym, C);
}

// A bare closure with no directives parses to an empty outcome, with the
// whole stream left for the closure parser.
#[test]
fn no_directives_at_all() {
    let o = parse(vec![pu('|'), pu('|'), id(X)]);
    assert_eq!(list_len(&o.assigned), 0);
    assert_eq!(list_len(&o.all), 0);
    assert_eq!(list_len(&o.diags), 0);
    assert!(!o.needs_move);
    assert_eq!(list_len(&o.rest), 3);
}

// The lookahead stops the directive loop at every closure-start form.
#[test]
fn lookahead_stops_at_closure_starts() {
    let async_head = parse(vec![id(SYM_CLONE), id(A), pu(','), id(captures::token::SYM_ASYNC),
        id(SYM_MOVE), pu('|'), pu('|')]);
    assert_eq!(list_len(&async_head.rest), 4);
    let static_head = parse(vec![id(captures::token::SYM_STATIC), pu('|'), pu('|')]);
    assert_eq!(list_len(&static_head.rest), 3);
    let attr_head = parse(vec![pu('#'), pu('|'), pu('|')]);
    assert_eq!(list_len(&attr_head.rest), 3);
    // A bare `move` not followed by `|` is no closure start; it fails as a
    // directive instead.
    let bare_move = parse(vec![id(SYM_MOVE), id(A), pu(','), pu('|'), pu('|')]);
    assert!(diags_vec(&bare_move.diags).contains(&Diag::ExpectedDirective));
}

// One directive taken directly off the stream.
#[test]
fn single_directive_parses_directly() {
    match captures::parse::parse_directive(toks(vec![id(SYM_ALL), id(A), pu(','), pu('|')])) {
        captures::parse::DirectiveResult::Parsed { dir, rest } => {
            match dir {
                captures::parse::Directive::All(a) => assert_eq!(a.upvar.sym, A),
                _ => panic!("expected an all directive"),
            }
            assert_eq!(list_len(&rest), 2);
        }
        _ => panic!("expected a parsed directive"),
    }
}

// Recovery consumes up to and including the next top-level comma.
#[test]
fn skip_past_comma_consumes_the_comma() {
    let rest = captures::parse::skip_past_comma(toks(vec![id(A), lit(LIT_ONE), pu(','), id(B)]));
    assert_eq!(list_len(&rest), 1);
    let none = captures::parse::skip_past_comma(toks(vec![id(A), id(B)]));
    assert_eq!(list_len(&none), 0);
}

#[test]
fn empty_input_fails_at_the_closure() {
    let o = parse(vec![]);
    assert_eq!(list_len(&o.diags), 0);
    let r = assemble_input(o, None, true);
    assert_eq!(diags_vec(&err_of(r)), vec![Diag::MalformedClosure]);
}
