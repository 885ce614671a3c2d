//! The closure-body model and the hygiene cleaner.
//!
//! The body of the closure is a tree in the small syntax model below: it keeps
//! exactly the distinctions the cleaner acts on — binding sites, path-segment
//! uses, scope-bearing constructs, conditionals, macro invocations and
//! attribute token runs — and folds every other expression form into
//! [`Expr::Compound`], whose children are visited in order without opening a
//! scope. The host-side glue builds this tree from a general parse tree and
//! writes the rewritten hygiene tags back.
//!
//! The cleaner rewrites every identifier to the mixed hygiene domain unless
//! it denotes an exempt outer variable that is not currently shadowed. The
//! traversal carries the set of currently exempt names and a stack of names
//! shadowed out of it; a binding of an exempt name moves the name from the
//! set onto the stack, and when the binding's enclosing scope ends the names
//! pushed inside it move back. Tokens handed to nested macro invocations and
//! attribute argument lists are remapped to the mixed domain wholesale: there
//! the cleaner cannot tell uses of exempt variables from unrelated tokens
//! without expanding the macro, so exempt variables referenced inside such a
//! region lose their exemption. That is a known limitation of the approach,
//! not an oversight.

use vstd::prelude::*;
use crate::token::{Hygiene, Ident, List, Tok, contains_sym, copy_syms, syms_eq};

verus! {

/// A pattern, as far as the cleaner distinguishes patterns.
pub enum Pat {
    /// A binding occurrence of an identifier, with an optional sub-pattern
    /// (`name @ sub`). The sub-pattern is visited before the binding itself
    /// takes effect, mirroring the traversal order of the underlying tree.
    Bind { ident: Ident, sub: Option<Box<Pat>> },
    /// A structural pattern: its children are visited in order.
    Tuple(Box<List<Pat>>),
    /// A path segment used inside a pattern (an enum variant, a constant).
    Seg(Ident),
    /// The wildcard pattern.
    Wild,
    /// A literal pattern; carries nothing the cleaner reads.
    LitPat,
}

/// A statement in a block.
pub enum Stmt {
    /// A `let` statement. The initializer is evaluated in the enclosing
    /// scope, so it is visited before the pattern's bindings take effect.
    Local { pat: Pat, init: Option<Expr> },
    /// An expression statement.
    ExprStmt(Expr),
}

/// An expression, as far as the cleaner distinguishes expressions.
pub enum Expr {
    /// A path segment in expression position: a variable use, the head of a
    /// call, one segment of a longer path.
    Seg(Ident),
    /// A literal; carries nothing the cleaner reads.
    LitE,
    /// Any composite expression that neither binds names nor opens a scope:
    /// calls, operators, tuples, assignments. Children are visited in order.
    Compound(Box<List<Expr>>),
    /// A block; opens a scope for its statements.
    BlockE(Box<List<Stmt>>),
    /// A conditional. The condition and the `then` branch share one scope,
    /// so that bindings introduced by a `let` condition are visible in
    /// `then`; the `else` branch is visited after that scope has closed.
    IfE { cond: Box<Expr>, then_branch: Box<List<Stmt>>, else_branch: Option<Box<Expr>> },
    /// A `let` used as a condition. The bound expression is visited before
    /// the pattern, since it is evaluated in the enclosing scope.
    LetCond { expr: Box<Expr>, pat: Box<Pat> },
    /// A `while` loop; the condition and body sit in one scope.
    WhileE { cond: Box<Expr>, body: Box<List<Stmt>> },
    /// A `for` loop; pattern, iterator and body sit in one scope and are
    /// visited in that order.
    ForE { pat: Box<Pat>, iter: Box<Expr>, body: Box<List<Stmt>> },
    /// A `match`; the scrutinee is visited first, then each arm in its own
    /// scope.
    MatchE { scrut: Box<Expr>, arms: List<Arm> },
    /// A nested closure literal. Its parameters bind names; it does not open
    /// a scope of its own, so those bindings stay shadowed until the
    /// enclosing scope ends.
    ClosureE { params: List<Pat>, body: Box<Expr> },
    /// A function-like macro invocation: the path segment follows the
    /// use-site rule, and the argument tokens are remapped wholesale.
    MacroE { path: Ident, toks: List<Tok> },
    /// An expression carrying an attribute; the attribute's name follows the
    /// use-site rule and its argument tokens are remapped wholesale.
    Attributed { path: Ident, attr_toks: List<Tok>, inner: Box<Expr> },
}

/// One arm of a `match`; pattern, guard and body share the arm's own scope.
pub struct Arm {
    pub pat: Pat,
    pub guard: Option<Box<Expr>>,
    pub body: Box<Expr>,
}

/// The cleaner's traversal state. `exempt` holds the names that are exempt
/// right now; `shadowed` holds, innermost first, the exempt names that inner
/// bindings have hidden. Names compare by symbol alone, never by hygiene.
pub struct CleanState {
    pub exempt: List<u64>,
    pub shadowed: List<u64>,
}

/// The list with the first occurrence of `x` removed.
pub open spec fn remove_sym(l: List<u64>, x: u64) -> List<u64>
    decreases l,
{
    match l {
        List::Nil => List::Nil,
        List::Cons(head, tail) => if head == x {
            *tail
        } else {
            List::Cons(head, Box::new(remove_sym(*tail, x)))
        },
    }
}

fn remove_sym_exec(l: &List<u64>, x: u64) -> (r: List<u64>)
    ensures
        r == remove_sym(*l, x),
    decreases *l,
{
    match l {
        List::Nil => List::Nil,
        List::Cons(head, tail) => if *head == x {
            copy_syms(tail)
        } else {
            List::Cons(*head, Box::new(remove_sym_exec(tail, x)))
        },
    }
}

/// A binding of `sym` takes effect: if the name is currently exempt it moves
/// onto the shadow stack and stops being exempt until the enclosing scope
/// ends.
pub open spec fn bind_sym(st: CleanState, sym: u64) -> CleanState {
    if st.exempt.contains_elem(sym) {
        CleanState {
            exempt: remove_sym(st.exempt, sym),
            shadowed: List::Cons(sym, Box::new(st.shadowed)),
        }
    } else {
        st
    }
}

fn bind_sym_exec(st: CleanState, sym: u64) -> (r: CleanState)
    ensures
        r == bind_sym(st, sym),
{
    if contains_sym(&st.exempt, sym) {
        CleanState {
            exempt: remove_sym_exec(&st.exempt, sym),
            shadowed: List::Cons(sym, Box::new(st.shadowed)),
        }
    } else {
        st
    }
}

/// A scope ends: the names pushed onto the shadow stack since `saved` (the
/// stack as it stood at scope entry) move back into the exempt set.
pub open spec fn restore_to(st: CleanState, saved: List<u64>) -> CleanState
    decreases st.shadowed,
{
    if st.shadowed == saved {
        st
    } else {
        match st.shadowed {
            List::Nil => st,
            List::Cons(head, tail) => restore_to(
                CleanState { exempt: List::Cons(head, Box::new(st.exempt)), shadowed: *tail },
                saved,
            ),
        }
    }
}

fn restore_to_exec(st: CleanState, saved: &List<u64>) -> (r: CleanState)
    ensures
        r == restore_to(st, *saved),
    decreases st.shadowed,
{
    if syms_eq(&st.shadowed, saved) {
        st
    } else {
        match st.shadowed {
            List::Nil => CleanState { exempt: st.exempt, shadowed: List::Nil },
            List::Cons(head, tail) => restore_to_exec(
                CleanState { exempt: List::Cons(head, Box::new(st.exempt)), shadowed: *tail },
                saved,
            ),
        }
    }
}

/// The use-site rule: an identifier in path-segment position keeps its
/// hygiene only while its name is exempt and unshadowed; otherwise it moves
/// to the mixed domain.
pub open spec fn clean_use_ident(id: Ident, st: CleanState) -> Ident {
    if st.exempt.contains_elem(id.sym) {
        id
    } else {
        Ident { sym: id.sym, hyg: Hygiene::Mixed }
    }
}

fn clean_use_ident_exec(id: Ident, st: &CleanState) -> (r: Ident)
    ensures
        r == clean_use_ident(id, *st),
{
    if contains_sym(&st.exempt, id.sym) {
        id
    } else {
        Ident { sym: id.sym, hyg: Hygiene::Mixed }
    }
}

/// One token remapped to the mixed hygiene domain, recursively through
/// groups.
pub open spec fn mixed_tok(t: Tok) -> Tok
    decreases t,
{
    match t {
        Tok::IdentTok(id) => Tok::IdentTok(Ident { sym: id.sym, hyg: Hygiene::Mixed }),
        Tok::PunctTok { ch, hyg: _ } => Tok::PunctTok { ch, hyg: Hygiene::Mixed },
        Tok::LitTok { sym, hyg: _ } => Tok::LitTok { sym, hyg: Hygiene::Mixed },
        Tok::GroupTok { delim, inner, hyg: _ } => Tok::GroupTok {
            delim,
            inner: Box::new(mixed_toks(*inner)),
            hyg: Hygiene::Mixed,
        },
    }
}

/// Every token of the run remapped to the mixed hygiene domain.
pub open spec fn mixed_toks(l: List<Tok>) -> List<Tok>
    decreases l,
{
    match l {
        List::Nil => List::Nil,
        List::Cons(head, tail) => List::Cons(mixed_tok(head), Box::new(mixed_toks(*tail))),
    }
}

fn make_tok_mixed(t: Tok) -> (r: Tok)
    ensures
        r == mixed_tok(t),
    decreases t,
{
    match t {
        Tok::IdentTok(id) => Tok::IdentTok(Ident { sym: id.sym, hyg: Hygiene::Mixed }),
        Tok::PunctTok { ch, hyg: _ } => Tok::PunctTok { ch, hyg: Hygiene::Mixed },
        Tok::LitTok { sym, hyg: _ } => Tok::LitTok { sym, hyg: Hygiene::Mixed },
        Tok::GroupTok { delim, inner, hyg: _ } => Tok::GroupTok {
            delim,
            inner: Box::new(make_stream_mixed(*inner)),
            hyg: Hygiene::Mixed,
        },
    }
}

/// Remaps a whole token run — identifiers, punctuation, literals and groups,
/// recursively — to the mixed hygiene domain. This is the wholesale fallback
/// for regions whose identifier roles the cleaner cannot see.
pub fn make_stream_mixed(l: List<Tok>) -> (r: List<Tok>)
    ensures
        r == mixed_toks(l),
    decreases l,
{
    match l {
        List::Nil => List::Nil,
        List::Cons(head, tail) => List::Cons(make_tok_mixed(head), Box::new(make_stream_mixed(
            *tail,
        ))),
    }
}

/// Cleaning a pattern: sub-structure first, then — at a binding — the bound
/// name shadows any exempt name it matches, and the binding's own identifier
/// always gets fresh mixed hygiene.
pub open spec fn clean_pat_s(p: Pat, st: CleanState) -> (Pat, CleanState)
    decreases p,
{
    match p {
        Pat::Bind { ident, sub } => {
            let r = match sub {
                Option::None => (Option::None, st),
                Option::Some(b) => {
                    let rs = clean_pat_s(*b, st);
                    (Option::Some(Box::new(rs.0)), rs.1)
                },
            };
            let st2 = bind_sym(r.1, ident.sym);
            (
                Pat::Bind {
                    ident: Ident { sym: ident.sym, hyg: Hygiene::Mixed },
                    sub: r.0,
                },
                st2,
            )
        },
        Pat::Tuple(ps) => {
            let r = clean_pats_s(*ps, st);
            (Pat::Tuple(Box::new(r.0)), r.1)
        },
        Pat::Seg(id) => (Pat::Seg(clean_use_ident(id, st)), st),
        Pat::Wild => (Pat::Wild, st),
        Pat::LitPat => (Pat::LitPat, st),
    }
}

pub open spec fn clean_pats_s(ps: List<Pat>, st: CleanState) -> (List<Pat>, CleanState)
    decreases ps,
{
    match ps {
        List::Nil => (List::Nil, st),
        List::Cons(p, tail) => {
            let r1 = clean_pat_s(p, st);
            let r2 = clean_pats_s(*tail, r1.1);
            (List::Cons(r1.0, Box::new(r2.0)), r2.1)
        },
    }
}

/// Cleaning an expression, threading the state left to right.
pub open spec fn clean_expr_s(e: Expr, st: CleanState) -> (Expr, CleanState)
    decreases e,
{
    match e {
        Expr::Seg(id) => (Expr::Seg(clean_use_ident(id, st)), st),
        Expr::LitE => (Expr::LitE, st),
        Expr::Compound(es) => {
            let r = clean_exprs_s(*es, st);
            (Expr::Compound(Box::new(r.0)), r.1)
        },
        Expr::BlockE(ss) => {
            let saved = st.shadowed;
            let r = clean_stmts_s(*ss, st);
            (Expr::BlockE(Box::new(r.0)), restore_to(r.1, saved))
        },
        Expr::IfE { cond, then_branch, else_branch } => {
            let saved = st.shadowed;
            let rc = clean_expr_s(*cond, st);
            let rt = clean_stmts_s(*then_branch, rc.1);
            let st3 = restore_to(rt.1, saved);
            match else_branch {
                Option::None => (
                    Expr::IfE {
                        cond: Box::new(rc.0),
                        then_branch: Box::new(rt.0),
                        else_branch: Option::None,
                    },
                    st3,
                ),
                Option::Some(els) => {
                    let re = clean_expr_s(*els, st3);
                    (
                        Expr::IfE {
                            cond: Box::new(rc.0),
                            then_branch: Box::new(rt.0),
                            else_branch: Option::Some(Box::new(re.0)),
                        },
                        re.1,
                    )
                },
            }
        },
        Expr::LetCond { expr, pat } => {
            let re = clean_expr_s(*expr, st);
            let rp = clean_pat_s(*pat, re.1);
            (Expr::LetCond { expr: Box::new(re.0), pat: Box::new(rp.0) }, rp.1)
        },
        Expr::WhileE { cond, body } => {
            let saved = st.shadowed;
            let rc = clean_expr_s(*cond, st);
            let rb = clean_stmts_s(*body, rc.1);
            (
                Expr::WhileE { cond: Box::new(rc.0), body: Box::new(rb.0) },
                restore_to(rb.1, saved),
            )
        },
        Expr::ForE { pat, iter, body } => {
            let saved = st.shadowed;
            let rp = clean_pat_s(*pat, st);
            let ri = clean_expr_s(*iter, rp.1);
            let rb = clean_stmts_s(*body, ri.1);
            (
                Expr::ForE { pat: Box::new(rp.0), iter: Box::new(ri.0), body: Box::new(rb.0) },
                restore_to(rb.1, saved),
            )
        },
        Expr::MatchE { scrut, arms } => {
            let rs = clean_expr_s(*scrut, st);
            let ra = clean_arms_s(arms, rs.1);
            (Expr::MatchE { scrut: Box::new(rs.0), arms: ra.0 }, ra.1)
        },
        Expr::ClosureE { params, body } => {
            let rp = clean_pats_s(params, st);
            let rb = clean_expr_s(*body, rp.1);
            (Expr::ClosureE { params: rp.0, body: Box::new(rb.0) }, rb.1)
        },
        Expr::MacroE { path, toks } => (
            Expr::MacroE { path: clean_use_ident(path, st), toks: mixed_toks(toks) },
            st,
        ),
        Expr::Attributed { path, attr_toks, inner } => {
            let ri = clean_expr_s(*inner, st);
            (
                Expr::Attributed {
                    path: clean_use_ident(path, st),
                    attr_toks: mixed_toks(attr_toks),
                    inner: Box::new(ri.0),
                },
                ri.1,
            )
        },
    }
}

pub open spec fn clean_exprs_s(es: List<Expr>, st: CleanState) -> (List<Expr>, CleanState)
    decreases es,
{
    match es {
        List::Nil => (List::Nil, st),
        List::Cons(e, tail) => {
            let r1 = clean_expr_s(e, st);
            let r2 = clean_exprs_s(*tail, r1.1);
            (List::Cons(r1.0, Box::new(r2.0)), r2.1)
        },
    }
}

pub open spec fn clean_stmt_s(s: Stmt, st: CleanState) -> (Stmt, CleanState)
    decreases s,
{
    match s {
        Stmt::Local { pat, init } => {
            let ri = match init {
                Option::None => (Option::None, st),
                Option::Some(e) => {
                    let r = clean_expr_s(e, st);
                    (Option::Some(r.0), r.1)
                },
            };
            let rp = clean_pat_s(pat, ri.1);
            (Stmt::Local { pat: rp.0, init: ri.0 }, rp.1)
        },
        Stmt::ExprStmt(e) => {
            let r = clean_expr_s(e, st);
            (Stmt::ExprStmt(r.0), r.1)
        },
    }
}

pub open spec fn clean_stmts_s(ss: List<Stmt>, st: CleanState) -> (List<Stmt>, CleanState)
    decreases ss,
{
    match ss {
        List::Nil => (List::Nil, st),
        List::Cons(s, tail) => {
            let r1 = clean_stmt_s(s, st);
            let r2 = clean_stmts_s(*tail, r1.1);
            (List::Cons(r1.0, Box::new(r2.0)), r2.1)
        },
    }
}

/// One arm: its pattern, guard and body run in the arm's own scope, which
/// closes when the arm ends.
pub open spec fn clean_arm_s(arm: Arm, st: CleanState) -> (Arm, CleanState)
    decreases arm,
{
    let saved = st.shadowed;
    let rp = clean_pat_s(arm.pat, st);
    let rg = match arm.guard {
        Option::None => (Option::None, rp.1),
        Option::Some(g) => {
            let r = clean_expr_s(*g, rp.1);
            (Option::Some(Box::new(r.0)), r.1)
        },
    };
    let rb = clean_expr_s(*arm.body, rg.1);
    (Arm { pat: rp.0, guard: rg.0, body: Box::new(rb.0) }, restore_to(rb.1, saved))
}

pub open spec fn clean_arms_s(arms: List<Arm>, st: CleanState) -> (List<Arm>, CleanState)
    decreases arms,
{
    match arms {
        List::Nil => (List::Nil, st),
        List::Cons(arm, tail) => {
            let r1 = clean_arm_s(arm, st);
            let r2 = clean_arms_s(*tail, r1.1);
            (List::Cons(r1.0, Box::new(r2.0)), r2.1)
        },
    }
}

/// Exec mirror of [`clean_pat_s`].
pub fn clean_pat(p: Pat, st: CleanState) -> (r: (Pat, CleanState))
    ensures
        r == clean_pat_s(p, st),
    decreases p,
{
    match p {
        Pat::Bind { ident, sub } => {
            let (sub2, st1) = match sub {
                Option::None => (Option::None, st),
                Option::Some(b) => {
                    let (p2, s1) = clean_pat(*b, st);
                    (Option::Some(Box::new(p2)), s1)
                },
            };
            let st2 = bind_sym_exec(st1, ident.sym);
            (Pat::Bind { ident: Ident { sym: ident.sym, hyg: Hygiene::Mixed }, sub: sub2 }, st2)
        },
        Pat::Tuple(ps) => {
            let (ps2, st2) = clean_pats(*ps, st);
            (Pat::Tuple(Box::new(ps2)), st2)
        },
        Pat::Seg(id) => {
            let id2 = clean_use_ident_exec(id, &st);
            (Pat::Seg(id2), st)
        },
        Pat::Wild => (Pat::Wild, st),
        Pat::LitPat => (Pat::LitPat, st),
    }
}

/// Exec mirror of [`clean_pats_s`].
pub fn clean_pats(ps: List<Pat>, st: CleanState) -> (r: (List<Pat>, CleanState))
    ensures
        r == clean_pats_s(ps, st),
    decreases ps,
{
    match ps {
        List::Nil => (List::Nil, st),
        List::Cons(p, tail) => {
            let (p2, st1) = clean_pat(p, st);
            let (ps2, st2) = clean_pats(*tail, st1);
            (List::Cons(p2, Box::new(ps2)), st2)
        },
    }
}

/// Exec mirror of [`clean_expr_s`].
pub fn clean_expr(e: Expr, st: CleanState) -> (r: (Expr, CleanState))
    ensures
        r == clean_expr_s(e, st),
    decreases e,
{
    match e {
        Expr::Seg(id) => {
            let id2 = clean_use_ident_exec(id, &st);
            (Expr::Seg(id2), st)
        },
        Expr::LitE => (Expr::LitE, st),
        Expr::Compound(es) => {
            let (es2, st2) = clean_exprs(*es, st);
            (Expr::Compound(Box::new(es2)), st2)
        },
        Expr::BlockE(ss) => {
            let saved = copy_syms(&st.shadowed);
            let (ss2, st2) = clean_stmts(*ss, st);
            let st3 = restore_to_exec(st2, &saved);
            (Expr::BlockE(Box::new(ss2)), st3)
        },
        Expr::IfE { cond, then_branch, else_branch } => {
            let saved = copy_syms(&st.shadowed);
            let (c2, st1) = clean_expr(*cond, st);
            let (t2, st2) = clean_stmts(*then_branch, st1);
            let st3 = restore_to_exec(st2, &saved);
            match else_branch {
                Option::None => (
                    Expr::IfE {
                        cond: Box::new(c2),
                        then_branch: Box::new(t2),
                        else_branch: Option::None,
                    },
                    st3,
                ),
                Option::Some(els) => {
                    let (e3, st4) = clean_expr(*els, st3);
                    (
                        Expr::IfE {
                            cond: Box::new(c2),
                            then_branch: Box::new(t2),
                            else_branch: Option::Some(Box::new(e3)),
                        },
                        st4,
                    )
                },
            }
        },
        Expr::LetCond { expr, pat } => {
            let (e2, st1) = clean_expr(*expr, st);
            let (p2, st2) = clean_pat(*pat, st1);
            (Expr::LetCond { expr: Box::new(e2), pat: Box::new(p2) }, st2)
        },
        Expr::WhileE { cond, body } => {
            let saved = copy_syms(&st.shadowed);
            let (c2, st1) = clean_expr(*cond, st);
            let (b2, st2) = clean_stmts(*body, st1);
            let st3 = restore_to_exec(st2, &saved);
            (Expr::WhileE { cond: Box::new(c2), body: Box::new(b2) }, st3)
        },
        Expr::ForE { pat, iter, body } => {
            let saved = copy_syms(&st.shadowed);
            let (p2, st1) = clean_pat(*pat, st);
            let (i2, st2) = clean_expr(*iter, st1);
            let (b2, st3) = clean_stmts(*body, st2);
            let st4 = restore_to_exec(st3, &saved);
            (Expr::ForE { pat: Box::new(p2), iter: Box::new(i2), body: Box::new(b2) }, st4)
        },
        Expr::MatchE { scrut, arms } => {
            let (s2, st1) = clean_expr(*scrut, st);
            let (a2, st2) = clean_arms(arms, st1);
            (Expr::MatchE { scrut: Box::new(s2), arms: a2 }, st2)
        },
        Expr::ClosureE { params, body } => {
            let (ps2, st1) = clean_pats(params, st);
            let (b2, st2) = clean_expr(*body, st1);
            (Expr::ClosureE { params: ps2, body: Box::new(b2) }, st2)
        },
        Expr::MacroE { path, toks } => {
            let path2 = clean_use_ident_exec(path, &st);
            let toks2 = make_stream_mixed(toks);
            (Expr::MacroE { path: path2, toks: toks2 }, st)
        },
        Expr::Attributed { path, attr_toks, inner } => {
            let path2 = clean_use_ident_exec(path, &st);
            let attr2 = make_stream_mixed(attr_toks);
            let (i2, st2) = clean_expr(*inner, st);
            (Expr::Attributed { path: path2, attr_toks: attr2, inner: Box::new(i2) }, st2)
        },
    }
}

/// Exec mirror of [`clean_exprs_s`].
pub fn clean_exprs(es: List<Expr>, st: CleanState) -> (r: (List<Expr>, CleanState))
    ensures
        r == clean_exprs_s(es, st),
    decreases es,
{
    match es {
        List::Nil => (List::Nil, st),
        List::Cons(e, tail) => {
            let (e2, st1) = clean_expr(e, st);
            let (es2, st2) = clean_exprs(*tail, st1);
            (List::Cons(e2, Box::new(es2)), st2)
        },
    }
}

/// Exec mirror of [`clean_stmt_s`].
pub fn clean_stmt(s: Stmt, st: CleanState) -> (r: (Stmt, CleanState))
    ensures
        r == clean_stmt_s(s, st),
    decreases s,
{
    match s {
        Stmt::Local { pat, init } => {
            let (init2, st1) = match init {
                Option::None => (Option::None, st),
                Option::Some(e) => {
                    let (e2, s1) = clean_expr(e, st);
                    (Option::Some(e2), s1)
                },
            };
            let (p2, st2) = clean_pat(pat, st1);
            (Stmt::Local { pat: p2, init: init2 }, st2)
        },
        Stmt::ExprStmt(e) => {
            let (e2, st2) = clean_expr(e, st);
            (Stmt::ExprStmt(e2), st2)
        },
    }
}

/// Exec mirror of [`clean_stmts_s`].
pub fn clean_stmts(ss: List<Stmt>, st: CleanState) -> (r: (List<Stmt>, CleanState))
    ensures
        r == clean_stmts_s(ss, st),
    decreases ss,
{
    match ss {
        List::Nil => (List::Nil, st),
        List::Cons(s, tail) => {
            let (s2, st1) = clean_stmt(s, st);
            let (ss2, st2) = clean_stmts(*tail, st1);
            (List::Cons(s2, Box::new(ss2)), st2)
        },
    }
}

/// Exec mirror of [`clean_arm_s`].
pub fn clean_arm(arm: Arm, st: CleanState) -> (r: (Arm, CleanState))
    ensures
        r == clean_arm_s(arm, st),
    decreases arm,
{
    let saved = copy_syms(&st.shadowed);
    let (p2, st1) = clean_pat(arm.pat, st);
    let (g2, st2) = match arm.guard {
        Option::None => (Option::None, st1),
        Option::Some(g) => {
            let (e2, s2) = clean_expr(*g, st1);
            (Option::Some(Box::new(e2)), s2)
        },
    };
    let (b2, st3) = clean_expr(*arm.body, st2);
    let st4 = restore_to_exec(st3, &saved);
    (Arm { pat: p2, guard: g2, body: Box::new(b2) }, st4)
}

/// Exec mirror of [`clean_arms_s`].
pub fn clean_arms(arms: List<Arm>, st: CleanState) -> (r: (List<Arm>, CleanState))
    ensures
        r == clean_arms_s(arms, st),
    decreases arms,
{
    match arms {
        List::Nil => (List::Nil, st),
        List::Cons(arm, tail) => {
            let (a2, st1) = clean_arm(arm, st);
            let (as2, st2) = clean_arms(*tail, st1);
            (List::Cons(a2, Box::new(as2)), st2)
        },
    }
}

/// The names of the exempt identifiers: comparison is by name alone.
pub open spec fn syms_of(l: List<Ident>) -> List<u64>
    decreases l,
{
    match l {
        List::Nil => List::Nil,
        List::Cons(id, tail) => List::Cons(id.sym, Box::new(syms_of(*tail))),
    }
}

fn syms_of_exec(l: &List<Ident>) -> (r: List<u64>)
    ensures
        r == syms_of(*l),
    decreases *l,
{
    match l {
        List::Nil => List::Nil,
        List::Cons(id, tail) => List::Cons(id.sym, Box::new(syms_of_exec(tail))),
    }
}

/// The cleaned closure body: every identifier moves to the mixed hygiene
/// domain except uses of an exempt name at points where no inner binding
/// shadows it.
pub open spec fn clean_s(body: Expr, exempt: List<Ident>) -> Expr {
    clean_expr_s(body, CleanState { exempt: syms_of(exempt), shadowed: List::Nil }).0
}

/// Rewrites hygiene throughout a closure body, exempting the given
/// identifiers while they are unshadowed. This respects lexical shadowing:
/// a binding of an exempt name suspends the exemption until the binding's
/// enclosing scope ends.
pub fn clean(body: Expr, exempt: &List<Ident>) -> (r: Expr)
    ensures
        r == clean_s(body, *exempt),
{
    let syms = syms_of_exec(exempt);
    let (body2, _st) = clean_expr(body, CleanState { exempt: syms, shadowed: List::Nil });
    body2
}

} // verus!
