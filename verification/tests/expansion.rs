// Tests for the planner and the hygiene cleaner: the exact shape of the
// generated statements, and the shadow-tracking rewrite of closure bodies.

use captures::token::{Delim, Hygiene, Ident, List, Tok, SYM_ALL, SYM_CLONE, SYM_CLONE_TRAIT,
    SYM_CORE, SYM_LET, SYM_MUT, SYM_REF, SYM_UNDERSCORE, SYM_WITH};
use captures::parse::{assemble_input, parse_directives, Closure, Diag};
use captures::clean::{clean, make_stream_mixed, Arm, Expr, Pat, Stmt};
use captures::expand;

const A: u64 = 100;
const B: u64 = 101;
const C: u64 = 102;
const M: u64 = 120;
const LIT_TEN: u64 = 901;

fn id(sym: u64) -> Tok {
    Tok::IdentTok(Ident { sym, hyg: Hygiene::CallSite })
}

fn pu(ch: char) -> Tok {
    Tok::PunctTok { ch, hyg: Hygiene::CallSite }
}

fn lit(sym: u64) -> Tok {
    Tok::LitTok { sym, hyg: Hygiene::CallSite }
}

fn toks(v: Vec<Tok>) -> List<Tok> {
    let mut out = List::Nil;
    for t in v.into_iter().rev() {
        out = List::Cons(t, Box::new(out));
    }
    out
}

fn group(delim: Delim, v: Vec<Tok>) -> Tok {
    Tok::GroupTok { delim, inner: Box::new(toks(v)), hyg: Hygiene::CallSite }
}

fn tok_eq(a: &Tok, b: &Tok) -> bool {
    match (a, b) {
        (Tok::IdentTok(x), Tok::IdentTok(y)) => x == y,
        (Tok::PunctTok { ch: c1, hyg: h1 }, Tok::PunctTok { ch: c2, hyg: h2 }) => {
            c1 == c2 && h1 == h2
        }
        (Tok::LitTok { sym: s1, hyg: h1 }, Tok::LitTok { sym: s2, hyg: h2 }) => {
            s1 == s2 && h1 == h2
        }
        (
            Tok::GroupTok { delim: d1, inner: i1, hyg: h1 },
            Tok::GroupTok { delim: d2, inner: i2, hyg: h2 },
        ) => d1 == d2 && h1 == h2 && toks_eq(i1, i2),
        _ => false,
    }
}

fn toks_eq(a: &List<Tok>, b: &List<Tok>) -> bool {
    match (a, b) {
        (List::Nil, List::Nil) => true,
        (List::Cons(x, xs), List::Cons(y, ys)) => tok_eq(x, y) && toks_eq(xs, ys),
        _ => false,
    }
}

fn assert_toks(actual: &List<Tok>, expected: Vec<Tok>) {
    assert!(toks_eq(actual, &toks(expected)));
}

fn clone_call(sym: u64) -> Vec<Tok> {
    vec![
        pu(':'), pu(':'), id(SYM_CORE),
        pu(':'), pu(':'), id(SYM_CLONE),
        pu(':'), pu(':'), id(SYM_CLONE_TRAIT),
        pu(':'), pu(':'), id(SYM_CLONE),
        group(Delim::Paren, vec![pu('&'), id(sym)]),
    ]
}

fn clone_stmt(sym: u64, mu: bool, only: bool) -> Vec<Tok> {
    let mut v = vec![id(SYM_LET)];
    if mu {
        v.push(id(SYM_MUT));
    }
    v.push(Tok::IdentTok(Ident {
        sym,
        hyg: if only { Hygiene::Mixed } else { Hygiene::CallSite },
    }));
    v.push(pu('='));
    v.extend(clone_call(sym));
    v.push(pu(';'));
    v
}

fn ref_stmt(sym: u64, mutable: bool) -> Vec<Tok> {
    let mut v = vec![id(SYM_LET), id(sym), pu('='), pu('&')];
    if mutable {
        v.push(id(SYM_MUT));
    }
    v.push(id(sym));
    v.push(pu(';'));
    v
}

fn marker(sym: u64) -> Vec<Tok> {
    vec![id(SYM_LET), id(SYM_UNDERSCORE), pu('='), pu('&'), id(sym), pu(';')]
}

fn cs(sym: u64) -> Ident {
    Ident { sym, hyg: Hygiene::CallSite }
}

fn mixed(sym: u64) -> Ident {
    Ident { sym, hyg: Hygiene::Mixed }
}

fn closure_with_body(is_move: bool, body: Expr) -> Closure {
    Closure {
        has_attrs: false,
        prefix: List::Nil,
        is_move,
        signature: toks(vec![pu('|'), pu('|')]),
        body,
    }
}

fn assemble_ok(v: Vec<Tok>, c: Closure) -> captures::parse::Input {
    let o = parse_directives(toks(v));
    match assemble_input(o, Some(c), true) {
        Ok(inp) => inp,
        Err(_) => panic!("expected the invocation to assemble"),
    }
}

// `capture!(clone a, move || a)`: the expansion is equivalent to
// `{ let a = Clone::clone(&a); move || a }`.
#[test]
fn scenario_clone_then_move_closure() {
    let inp = assemble_ok(
        vec![id(SYM_CLONE), id(A), pu(',')],
        closure_with_body(true, Expr::Seg(cs(A))),
    );
    let out = expand(inp, false);
    assert_toks(&out.exterior, clone_stmt(A, false, false));
    assert_toks(&out.interior, vec![]);
    assert!(out.is_move);
    assert!(matches!(out.body, Expr::Seg(x) if x == cs(A)));
    // The hand expansion behaves as claimed: the closure returns the clone
    // and the outer value stays.
    let a = 1;
    let f = {
        let a = Clone::clone(&a);
        move || a
    };
    assert_eq!(f(), 1);
    assert_eq!(a, 1);
}

// `capture!(with mut c = 10, clone a, clone b, || { c += a + b; c })` with
// outer `a = 0, b = 3`: three exterior statements in order, and the closure
// is move-promoted although no `move` was written.
#[test]
fn scenario_with_and_clones_promote_move() {
    let body = Expr::BlockE(Box::new(toks_stmts(vec![
        Stmt::ExprStmt(Expr::Compound(Box::new(toks_exprs(vec![
            Expr::Seg(cs(C)),
            Expr::Seg(cs(A)),
            Expr::Seg(cs(B)),
        ])))),
        Stmt::ExprStmt(Expr::Seg(cs(C))),
    ])));
    let inp = assemble_ok(
        vec![
            id(SYM_WITH), id(SYM_MUT), id(C), pu('='), lit(LIT_TEN), pu(','),
            id(SYM_CLONE), id(A), pu(','),
            id(SYM_CLONE), id(B), pu(','),
        ],
        closure_with_body(false, body),
    );
    assert!(inp.closure.is_move);
    let out = expand(inp, false);
    let mut expected = vec![id(SYM_LET), id(SYM_MUT), id(C), pu('='), lit(LIT_TEN), pu(';')];
    expected.extend(clone_stmt(A, false, false));
    expected.extend(clone_stmt(B, false, false));
    assert_toks(&out.exterior, expected);
    assert!(out.is_move);
    // The hand expansion computes 13.
    let a = 0;
    let b = 3;
    let f = {
        let mut c = 10;
        let a = Clone::clone(&a);
        let b = Clone::clone(&b);
        move || {
            c += a + b;
            c
        }
    };
    let mut f = f;
    assert_eq!(f(), 13);
}

// `capture!(ref mut a, ref b, move || { *a += *b; })` with outer
// `a = 10, b = 12`: after the call the outer `a` is 22.
#[test]
fn scenario_refs_on_move_closure() {
    let inp = assemble_ok(
        vec![id(SYM_REF), id(SYM_MUT), id(A), pu(','), id(SYM_REF), id(B), pu(',')],
        closure_with_body(true, Expr::LitE),
    );
    let out = expand(inp, false);
    let mut expected = ref_stmt(A, true);
    expected.extend(ref_stmt(B, false));
    assert_toks(&out.exterior, expected);
    // The hand expansion adds through the references.
    let mut a = 10;
    let b = 12;
    {
        let mut f = {
            let a = &mut a;
            let b = &b;
            move || {
                *a += *b;
            }
        };
        f();
    }
    assert_eq!(a, 22);
}

// `capture_only!(all a, || { a += 1; a })` with outer mutable `a = 5`: no
// exterior statement, one interior marker, no move promotion, and `a` stays
// usable — unrenamed — inside the cleaned body.
#[test]
fn scenario_all_keeps_outer_variable() {
    let body = Expr::BlockE(Box::new(toks_stmts(vec![
        Stmt::ExprStmt(Expr::Compound(Box::new(toks_exprs(vec![
            Expr::Seg(cs(A)),
            Expr::LitE,
        ])))),
        Stmt::ExprStmt(Expr::Seg(cs(A))),
    ])));
    let inp = assemble_ok(vec![id(SYM_ALL), id(A), pu(',')], closure_with_body(false, body));
    assert!(!inp.closure.is_move);
    let out = expand(inp, true);
    assert_toks(&out.exterior, vec![]);
    assert_toks(&out.interior, marker(A));
    assert!(!out.is_move);
    match &out.body {
        Expr::BlockE(ss) => match &**ss {
            List::Cons(first, rest) => {
                match first {
                    Stmt::ExprStmt(Expr::Compound(es)) => match &**es {
                        List::Cons(Expr::Seg(x), _) => assert_eq!(*x, cs(A)),
                        _ => panic!("unexpected shape"),
                    },
                    _ => panic!("unexpected shape"),
                }
                match &**rest {
                    List::Cons(Stmt::ExprStmt(Expr::Seg(x)), _) => assert_eq!(*x, cs(A)),
                    _ => panic!("unexpected shape"),
                }
            }
            List::Nil => panic!("unexpected shape"),
        },
        _ => panic!("unexpected shape"),
    }
    // The hand expansion captures the whole variable by reference and
    // mutates it; repeating the pure-borrow marker any number of times
    // changes nothing.
    let mut a = 5;
    {
        let mut f = || {
            let _ = &a;
            let _ = &a;
            a += 1;
            a
        };
        assert_eq!(f(), 6);
    }
    assert_eq!(a, 6);
}

// Interior markers come one per `all` directive, in encounter order.
#[test]
fn markers_in_order() {
    let inp = assemble_ok(
        vec![id(SYM_ALL), id(A), pu(','), id(SYM_ALL), id(B), pu(',')],
        closure_with_body(false, Expr::LitE),
    );
    let out = expand(inp, true);
    let mut expected = marker(A);
    expected.extend(marker(B));
    assert_toks(&out.interior, expected);
    assert_toks(&out.exterior, vec![]);
}

// In `only` mode the left-hand side of an exterior binding moves to the
// mixed domain while the right-hand reference keeps the caller's hygiene.
#[test]
fn only_mode_hides_exterior_bindings() {
    let inp = assemble_ok(
        vec![id(SYM_CLONE), id(A), pu(',')],
        closure_with_body(true, Expr::Seg(cs(A))),
    );
    let out = expand(inp, true);
    assert_toks(&out.exterior, clone_stmt(A, false, true));
}

fn toks_stmts(v: Vec<Stmt>) -> List<Stmt> {
    let mut out = List::Nil;
    for t in v.into_iter().rev() {
        out = List::Cons(t, Box::new(out));
    }
    out
}

fn toks_exprs(v: Vec<Expr>) -> List<Expr> {
    let mut out = List::Nil;
    for t in v.into_iter().rev() {
        out = List::Cons(t, Box::new(out));
    }
    out
}

fn toks_pats(v: Vec<Pat>) -> List<Pat> {
    let mut out = List::Nil;
    for t in v.into_iter().rev() {
        out = List::Cons(t, Box::new(out));
    }
    out
}

fn exempt_a() -> List<Ident> {
    List::Cons(cs(A), Box::new(List::Nil))
}

// Shadowing inside a block: uses before a rebinding of an exempt name keep
// the outer resolution, uses after it are renamed, and a use after the
// block's end resolves to the outer variable again.
#[test]
fn shadowing_in_a_block() {
    let body = Expr::Compound(Box::new(toks_exprs(vec![
        Expr::BlockE(Box::new(toks_stmts(vec![
            Stmt::ExprStmt(Expr::Seg(cs(A))),
            Stmt::Local { pat: Pat::Bind { ident: cs(A), sub: None }, init: None },
            Stmt::ExprStmt(Expr::Seg(cs(A))),
        ]))),
        Expr::Seg(cs(A)),
    ])));
    let cleaned = clean(body, &exempt_a());
    match cleaned {
        Expr::Compound(es) => match *es {
            List::Cons(Expr::BlockE(ss), rest) => {
                match *ss {
                    List::Cons(Stmt::ExprStmt(Expr::Seg(u1)), ss2) => {
                        assert_eq!(u1, cs(A));
                        match *ss2 {
                            List::Cons(Stmt::Local { pat: Pat::Bind { ident, sub: None }, init: None }, ss3) => {
                                assert_eq!(ident, mixed(A));
                                match *ss3 {
                                    List::Cons(Stmt::ExprStmt(Expr::Seg(u2)), _) => {
                                        assert_eq!(u2, mixed(A));
                                    }
                                    _ => panic!("unexpected shape"),
                                }
                            }
                            _ => panic!("unexpected shape"),
                        }
                    }
                    _ => panic!("unexpected shape"),
                }
                match *rest {
                    List::Cons(Expr::Seg(u3), _) => assert_eq!(u3, cs(A)),
                    _ => panic!("unexpected shape"),
                }
            }
            _ => panic!("unexpected shape"),
        },
        _ => panic!("unexpected shape"),
    }
}

// A name that is not exempt is renamed wherever it is used.
#[test]
fn unlisted_names_are_renamed() {
    let cleaned = clean(Expr::Seg(cs(B)), &exempt_a());
    assert!(matches!(cleaned, Expr::Seg(x) if x == mixed(B)));
}

// A match arm's pattern shadows only within its own arm.
#[test]
fn match_arm_shadow_ends_with_the_arm() {
    let body = Expr::Compound(Box::new(toks_exprs(vec![
        Expr::MatchE {
            scrut: Box::new(Expr::Seg(cs(A))),
            arms: {
                let arm1 = Arm {
                    pat: Pat::Bind { ident: cs(A), sub: None },
                    guard: None,
                    body: Box::new(Expr::Seg(cs(A))),
                };
                let arm2 = Arm {
                    pat: Pat::Wild,
                    guard: None,
                    body: Box::new(Expr::Seg(cs(A))),
                };
                List::Cons(arm1, Box::new(List::Cons(arm2, Box::new(List::Nil))))
            },
        },
        Expr::Seg(cs(A)),
    ])));
    let cleaned = clean(body, &exempt_a());
    match cleaned {
        Expr::Compound(es) => match *es {
            List::Cons(Expr::MatchE { scrut, arms }, rest) => {
                assert!(matches!(*scrut, Expr::Seg(x) if x == cs(A)));
                match arms {
                    List::Cons(a1, more) => {
                        // Inside the rebinding arm the use is renamed.
                        assert!(matches!(*a1.body, Expr::Seg(x) if x == mixed(A)));
                        match *more {
                            List::Cons(a2, _) => {
                                // The next arm sees the exemption again.
                                assert!(matches!(*a2.body, Expr::Seg(x) if x == cs(A)));
                            }
                            List::Nil => panic!("unexpected shape"),
                        }
                    }
                    List::Nil => panic!("unexpected shape"),
                }
                match *rest {
                    List::Cons(Expr::Seg(u), _) => assert_eq!(u, cs(A)),
                    _ => panic!("unexpected shape"),
                }
            }
            _ => panic!("unexpected shape"),
        },
        _ => panic!("unexpected shape"),
    }
}

// A binding with a sub-pattern shadows from the binding on: the arm's
// guard and body see the new name, renamed.
#[test]
fn subpattern_binding_shadows_guard_and_body() {
    let body = Expr::MatchE {
        scrut: Box::new(Expr::Seg(cs(A))),
        arms: List::Cons(
            Arm {
                pat: Pat::Bind { ident: cs(A), sub: Some(Box::new(Pat::LitPat)) },
                guard: Some(Box::new(Expr::Seg(cs(A)))),
                body: Box::new(Expr::Seg(cs(A))),
            },
            Box::new(List::Nil),
        ),
    };
    let cleaned = clean(body, &exempt_a());
    match cleaned {
        Expr::MatchE { scrut, arms } => {
            assert!(matches!(*scrut, Expr::Seg(x) if x == cs(A)));
            match arms {
                List::Cons(a1, _) => {
                    assert!(matches!(a1.pat, Pat::Bind { ident, .. } if ident == mixed(A)));
                    match a1.guard {
                        Some(g) => assert!(matches!(*g, Expr::Seg(x) if x == mixed(A))),
                        None => panic!("unexpected shape"),
                    }
                    assert!(matches!(*a1.body, Expr::Seg(x) if x == mixed(A)));
                }
                List::Nil => panic!("unexpected shape"),
            }
        }
        _ => panic!("unexpected shape"),
    }
}

// A `let` condition's binding is visible in the `then` branch but never in
// `else`.
#[test]
fn if_let_shadow_skips_the_else_branch() {
    let body = Expr::IfE {
        cond: Box::new(Expr::LetCond {
            expr: Box::new(Expr::Seg(cs(A))),
            pat: Box::new(Pat::Bind { ident: cs(A), sub: None }),
        }),
        then_branch: Box::new(toks_stmts(vec![Stmt::ExprStmt(Expr::Seg(cs(A)))])),
        else_branch: Some(Box::new(Expr::Seg(cs(A)))),
    };
    let cleaned = clean(body, &exempt_a());
    match cleaned {
        Expr::IfE { cond, then_branch, else_branch } => {
            match *cond {
                Expr::LetCond { expr, pat } => {
                    // The bound expression is visited before the pattern: it
                    // still sees the outer variable.
                    assert!(matches!(*expr, Expr::Seg(x) if x == cs(A)));
                    assert!(
                        matches!(*pat, Pat::Bind { ident, sub: None } if ident == mixed(A))
                    );
                }
                _ => panic!("unexpected shape"),
            }
            match *then_branch {
                List::Cons(Stmt::ExprStmt(Expr::Seg(u)), _) => assert_eq!(u, mixed(A)),
                _ => panic!("unexpected shape"),
            }
            match else_branch {
                Some(e) => assert!(matches!(*e, Expr::Seg(x) if x == cs(A))),
                None => panic!("unexpected shape"),
            }
        }
        _ => panic!("unexpected shape"),
    }
}

// A local's initializer is visited before its pattern: the new binding
// cannot shadow itself inside its own initializer.
#[test]
fn local_initializer_sees_the_outer_name() {
    let body = Expr::BlockE(Box::new(toks_stmts(vec![Stmt::Local {
        pat: Pat::Bind { ident: cs(A), sub: None },
        init: Some(Expr::Seg(cs(A))),
    }])));
    let cleaned = clean(body, &exempt_a());
    match cleaned {
        Expr::BlockE(ss) => match *ss {
            List::Cons(Stmt::Local { pat, init }, _) => {
                assert!(matches!(pat, Pat::Bind { ident, sub: None } if ident == mixed(A)));
                assert!(matches!(init, Some(Expr::Seg(x)) if x == cs(A)));
            }
            _ => panic!("unexpected shape"),
        },
        _ => panic!("unexpected shape"),
    }
}

// A nested closure's parameters shadow until the enclosing scope ends, so a
// use after the closure literal — still inside the same block — stays
// renamed, and only a use after the block resolves to the outer name again.
#[test]
fn closure_parameters_shadow_to_the_end_of_the_scope() {
    let body = Expr::Compound(Box::new(toks_exprs(vec![
        Expr::BlockE(Box::new(toks_stmts(vec![Stmt::ExprStmt(Expr::Compound(Box::new(
            toks_exprs(vec![
                Expr::ClosureE {
                    params: toks_pats(vec![Pat::Bind { ident: cs(A), sub: None }]),
                    body: Box::new(Expr::Seg(cs(A))),
                },
                Expr::Seg(cs(A)),
            ]),
        )))]))),
        Expr::Seg(cs(A)),
    ])));
    let cleaned = clean(body, &exempt_a());
    match cleaned {
        Expr::Compound(es) => match *es {
            List::Cons(Expr::BlockE(ss), rest) => {
                match *ss {
                    List::Cons(Stmt::ExprStmt(Expr::Compound(inner)), _) => match *inner {
                        List::Cons(Expr::ClosureE { params: _, body }, after) => {
                            assert!(matches!(*body, Expr::Seg(x) if x == mixed(A)));
                            match *after {
                                List::Cons(Expr::Seg(u), _) => assert_eq!(u, mixed(A)),
                                _ => panic!("unexpected shape"),
                            }
                        }
                        _ => panic!("unexpected shape"),
                    },
                    _ => panic!("unexpected shape"),
                }
                match *rest {
                    List::Cons(Expr::Seg(u), _) => assert_eq!(u, cs(A)),
                    _ => panic!("unexpected shape"),
                }
            }
            _ => panic!("unexpected shape"),
        },
        _ => panic!("unexpected shape"),
    }
}

// Tokens handed to a nested macro are remapped wholesale: even an exempt
// name loses its exemption there — the documented approximation.
#[test]
fn macro_arguments_are_remapped_wholesale() {
    let body = Expr::MacroE { path: cs(M), toks: toks(vec![id(A), pu('+'), lit(LIT_TEN)]) };
    let cleaned = clean(body, &exempt_a());
    match cleaned {
        Expr::MacroE { path, toks: ts } => {
            // The macro's own name is not exempt, so it is renamed.
            assert_eq!(path, mixed(M));
            let expected = toks(vec![
                Tok::IdentTok(mixed(A)),
                Tok::PunctTok { ch: '+', hyg: Hygiene::Mixed },
                Tok::LitTok { sym: LIT_TEN, hyg: Hygiene::Mixed },
            ]);
            assert!(toks_eq(&ts, &expected));
        }
        _ => panic!("unexpected shape"),
    }
}

// The wholesale remap runs through nested groups.
#[test]
fn make_stream_mixed_recurses_into_groups() {
    let ts = toks(vec![
        id(A),
        group(Delim::Brace, vec![id(B), group(Delim::Paren, vec![pu(',')])]),
    ]);
    let out = make_stream_mixed(ts);
    let expected = toks(vec![
        Tok::IdentTok(mixed(A)),
        Tok::GroupTok {
            delim: Delim::Brace,
            inner: Box::new(toks(vec![
                Tok::IdentTok(mixed(B)),
                Tok::GroupTok {
                    delim: Delim::Paren,
                    inner: Box::new(toks(vec![Tok::PunctTok { ch: ',', hyg: Hygiene::Mixed }])),
                    hyg: Hygiene::Mixed,
                },
            ])),
            hyg: Hygiene::Mixed,
        },
    ]);
    assert!(toks_eq(&out, &expected));
}

// A `with` expression's own tokens are emitted verbatim on the right-hand
// side of its binding.
#[test]
fn with_expression_tokens_pass_through() {
    let inp = assemble_ok(
        vec![
            id(SYM_WITH), id(C), pu('='),
            group(Delim::Paren, vec![lit(LIT_TEN), pu(','), lit(LIT_TEN)]),
            pu(','),
        ],
        closure_with_body(false, Expr::LitE),
    );
    let out = expand(inp, false);
    assert_toks(&out.exterior, vec![
        id(SYM_LET), id(C), pu('='),
        group(Delim::Paren, vec![lit(LIT_TEN), pu(','), lit(LIT_TEN)]),
        pu(';'),
    ]);
}

// An `all` directive between assigned directives still generates no
// exterior statement of its own.
#[test]
fn interleaved_all_produces_no_exterior_statement() {
    let inp = assemble_ok(
        vec![id(SYM_ALL), id(A), pu(','), id(SYM_CLONE), id(B), pu(',')],
        closure_with_body(true, Expr::LitE),
    );
    let out = expand(inp, false);
    assert_toks(&out.exterior, clone_stmt(B, false, false));
    assert_toks(&out.interior, marker(A));
}

// The use of a duplicate-free invocation: assembling fails when the same
// name gets two directives, whatever their kinds.
#[test]
fn duplicate_across_assigned_and_all_fails() {
    let o = parse_directives(toks(vec![
        id(SYM_CLONE), id(A), pu(','),
        id(SYM_ALL), id(A), pu(','),
    ]));
    let r = assemble_input(o, Some(closure_with_body(true, Expr::LitE)), true);
    match r {
        Err(ds) => match ds {
            List::Cons(d, _) => {
                assert!(matches!(d, Diag::DuplicateDirective { upvar } if upvar.sym == A));
            }
            List::Nil => panic!("expected a diagnostic"),
        },
        Ok(_) => panic!("expected failure"),
    }
}
