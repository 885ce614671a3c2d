//! Laws: properties of the parser, planner and cleaner that hold for all
//! inputs, stated over the specification functions and proved here.

use vstd::prelude::*;
use crate::token::{Ident, Hygiene, List, Tok, single, lemma_app_len, is_keyword_sym,
    SYM_CLONE, SYM_WITH, SYM_ALL};
use crate::parse::{AssignedDirective, AllDirective, Closure, Diag, Directive, DirectiveResult,
    DirectiveType, DirectivesOutcome, Input, closure_start, has_clone_or_with, has_ref_dir,
    forces_move,
    is_ref_dir, parse_directive_s, parse_loop_s, parse_directives_s, assemble_input_s, ref_diags,
    lemma_ref_diags_empty, skip_past_comma_s, take_mut_s, take_punct_s, PunctTaken,
    lemma_parse_directive_len, lemma_skip_past_comma_len};
use crate::changes::{cs_ident_tok, cs_punct_tok, exterior_toks};
use crate::clean::{Arm, CleanState, Expr, Pat, Stmt, clean_arm_s, clean_arms_s, clean_expr_s,
    clean_exprs_s, clean_pat_s, clean_pats_s, clean_stmt_s, clean_stmts_s, clean_use_ident,
    remove_sym, bind_sym, restore_to};

verus! {

/// Membership distributes over append.
pub proof fn lemma_app_contains<T>(a: List<T>, b: List<T>, x: T)
    ensures
        a.app(b).contains_elem(x) == (a.contains_elem(x) || b.contains_elem(x)),
    decreases a,
{
    match a {
        List::Nil => {},
        List::Cons(_, tail) => {
            lemma_app_contains(*tail, b, x);
        },
    }
}

/// `has_clone_or_with` distributes over append.
proof fn lemma_has_cw_app(a: List<AssignedDirective>, b: List<AssignedDirective>)
    ensures
        has_clone_or_with(a.app(b)) == (has_clone_or_with(a) || has_clone_or_with(b)),
    decreases a,
{
    match a {
        List::Nil => {},
        List::Cons(_, tail) => {
            lemma_has_cw_app(*tail, b);
        },
    }
}

/// Through the directive loop, the needs-move flag stays exactly "some
/// accumulated assigned directive is a `clone` or a `with`".
proof fn lemma_loop_needs_move(
    toks: List<Tok>,
    acc_assigned: List<AssignedDirective>,
    acc_all: List<AllDirective>,
    seen: List<u64>,
    diags: List<Diag>,
    needs_move: bool,
)
    requires
        needs_move == has_clone_or_with(acc_assigned),
    ensures
        ({
            let o = parse_loop_s(toks, acc_assigned, acc_all, seen, diags, needs_move);
            o.needs_move == has_clone_or_with(o.assigned)
        }),
    decreases toks.len(),
{
    if !(toks matches List::Nil) && !closure_start(toks) {
        lemma_parse_directive_len(toks);
        match parse_directive_s(toks) {
            DirectiveResult::Parsed { dir, rest } => {
                match dir {
                    Directive::Assigned(a) => {
                        lemma_has_cw_app(acc_assigned, single(a));
                        assert(has_clone_or_with(List::<AssignedDirective>::Nil) == false);
                        assert(has_clone_or_with(single(a)) == !is_ref_dir(a));
                    },
                    Directive::All(_) => {},
                }
                let id = crate::parse::dir_upvar(dir);
                let nm2 = needs_move || forces_move(dir);
                let dup = seen.contains_elem(id.sym);
                let diags2 = if dup {
                    diags.app(single(Diag::DuplicateDirective { upvar: id }))
                } else {
                    diags
                };
                let seen2 = if dup {
                    seen
                } else {
                    seen.app(single(id.sym))
                };
                let acc_a2 = match dir {
                    Directive::Assigned(a) => acc_assigned.app(single(a)),
                    Directive::All(_) => acc_assigned,
                };
                let acc_all2 = match dir {
                    Directive::Assigned(_) => acc_all,
                    Directive::All(a) => acc_all.app(single(a)),
                };
                match take_punct_s(rest, ',') {
                    PunctTaken::Took { rest: r2 } => {
                        lemma_loop_needs_move(r2, acc_a2, acc_all2, seen2, diags2, nm2);
                    },
                    PunctTaken::NotThere { rest: r2 } => {
                        lemma_loop_needs_move(
                            r2,
                            acc_a2,
                            acc_all2,
                            seen2,
                            diags2.app(single(Diag::ExpectedComma)),
                            nm2,
                        );
                    },
                }
            },
            DirectiveResult::Failed { diag, rest } => {
                lemma_skip_past_comma_len(rest);
                lemma_loop_needs_move(
                    skip_past_comma_s(rest),
                    acc_assigned,
                    acc_all,
                    seen,
                    diags.app(single(diag)),
                    needs_move,
                );
            },
        }
    }
}

/// The parser's needs-move flag is exactly "some assigned directive is a
/// `clone` or a `with`": `ref` and `all` directives never raise it.
pub proof fn lemma_needs_move_exact(toks: List<Tok>)
    ensures
        ({
            let o = parse_directives_s(toks);
            o.needs_move == has_clone_or_with(o.assigned)
        }),
{
    lemma_loop_needs_move(toks, List::Nil, List::Nil, List::Nil, List::Nil, false);
}

/// Move promotion: when an invocation assembles successfully, the emitted
/// closure captures by move exactly when the written closure already did or
/// some directive was a `clone` or a `with`. In particular an invocation
/// whose directives are all `all` directives never forces move capture.
pub proof fn lemma_move_promotion(toks: List<Tok>, c: Closure, trailing_empty: bool)
    ensures
        ({
            let o = parse_directives_s(toks);
            assemble_input_s(o, Option::Some(c), trailing_empty) matches Result::Ok(inp)
                ==> inp.closure.is_move == (c.is_move || has_clone_or_with(o.assigned))
        }),
        ({
            let o = parse_directives_s(toks);
            o.assigned matches List::Nil ==> (assemble_input_s(o, Option::Some(c), trailing_empty)
                matches Result::Ok(inp) ==> inp.closure.is_move == c.is_move)
        }),
{
    lemma_needs_move_exact(toks);
}

/// When assembly succeeds, and only then: the directive list parsed without
/// a diagnostic, the closure parsed, every `ref` directive sits on a
/// closure that captures by move (written or promoted), the closure carries
/// no attributes, and nothing trails it.
pub proof fn lemma_assemble_success_iff(
    o: DirectivesOutcome,
    closure: Option<Closure>,
    trailing_empty: bool,
)
    ensures
        (assemble_input_s(o, closure, trailing_empty) matches Result::Ok(_)) <==> (closure
            matches Option::Some(c) && o.diags matches List::Nil && ((c.is_move || o.needs_move)
            || !has_ref_dir(o.assigned)) && !c.has_attrs && trailing_empty),
{
    match closure {
        Option::None => {},
        Option::Some(c) => {
            let rd = ref_diags(o.assigned);
            lemma_ref_diags_empty(o.assigned);
            let d1 = if !(c.is_move || o.needs_move) {
                o.diags.app(rd)
            } else {
                o.diags
            };
            lemma_app_len(o.diags, rd);
            let d2 = if c.has_attrs {
                d1.app(single(Diag::AttrsForbidden))
            } else {
                d1
            };
            lemma_app_len(d1, single(Diag::AttrsForbidden));
            let fd = if !trailing_empty {
                d2.app(single(Diag::ExpectedEnd))
            } else {
                d2
            };
            lemma_app_len(d2, single(Diag::ExpectedEnd));
            assert(List::<Diag>::Nil.len() == 0);
            assert(single(Diag::AttrsForbidden).len() == 1);
            assert(single(Diag::ExpectedEnd).len() == 1);
            assert(fd == crate::parse::final_diags(o, c, trailing_empty));
            match fd {
                List::Nil => {},
                List::Cons(_, _) => {
                    assert(fd.len() > 0);
                },
            }
            match o.diags {
                List::Nil => {},
                List::Cons(_, _) => {
                    assert(o.diags.len() > 0);
                },
            }
            match rd {
                List::Nil => {},
                List::Cons(_, _) => {
                    assert(rd.len() > 0);
                },
            }
        },
    }
}

/// `all` directives generate no exterior binding: an input whose assigned
/// directive list is empty — however many `all` directives it holds — has an
/// empty exterior.
pub proof fn lemma_all_only_no_exterior(input: Input, only: bool)
    requires
        input.assigned matches List::Nil,
    ensures
        exterior_toks(input.assigned, only) == List::<Tok>::Nil,
{
}

/// A use of an exempt, unshadowed identifier is left exactly as it was: it
/// still resolves to the outer captured variable.
pub proof fn lemma_exempt_use_kept(x: Ident, st: CleanState)
    requires
        st.exempt.contains_elem(x.sym),
    ensures
        clean_expr_s(Expr::Seg(x), st) == (Expr::Seg(x), st),
{
}

/// A use of a name that is not currently exempt is renamed to the mixed
/// hygiene domain.
pub proof fn lemma_unexempt_use_renamed(x: Ident, st: CleanState)
    requires
        !st.exempt.contains_elem(x.sym),
    ensures
        clean_expr_s(Expr::Seg(x), st) == (
            Expr::Seg(Ident { sym: x.sym, hyg: Hygiene::Mixed }),
            st,
        ),
{
}

/// The names the assigned directives target, in order.
pub open spec fn assigned_syms(l: List<AssignedDirective>) -> List<u64>
    decreases l,
{
    match l {
        List::Nil => List::Nil,
        List::Cons(a, tail) => List::Cons(a.upvar.sym, Box::new(assigned_syms(*tail))),
    }
}

/// The names the `all` directives target, in order.
pub open spec fn all_syms(l: List<AllDirective>) -> List<u64>
    decreases l,
{
    match l {
        List::Nil => List::Nil,
        List::Cons(a, tail) => List::Cons(a.upvar.sym, Box::new(all_syms(*tail))),
    }
}

/// No name occurs twice.
pub open spec fn distinct_syms(l: List<u64>) -> bool
    decreases l,
{
    match l {
        List::Nil => true,
        List::Cons(head, tail) => !tail.contains_elem(head) && distinct_syms(*tail),
    }
}

/// Whether some diagnostic reports a duplicate directive target.
pub open spec fn has_dup_diag(l: List<Diag>) -> bool
    decreases l,
{
    match l {
        List::Nil => false,
        List::Cons(d, tail) => (d matches Diag::DuplicateDirective { .. }) || has_dup_diag(*tail),
    }
}

proof fn lemma_assigned_syms_app(a: List<AssignedDirective>, b: List<AssignedDirective>)
    ensures
        assigned_syms(a.app(b)) == assigned_syms(a).app(assigned_syms(b)),
    decreases a,
{
    match a {
        List::Nil => {},
        List::Cons(_, tail) => {
            lemma_assigned_syms_app(*tail, b);
        },
    }
}

proof fn lemma_all_syms_app(a: List<AllDirective>, b: List<AllDirective>)
    ensures
        all_syms(a.app(b)) == all_syms(a).app(all_syms(b)),
    decreases a,
{
    match a {
        List::Nil => {},
        List::Cons(_, tail) => {
            lemma_all_syms_app(*tail, b);
        },
    }
}

proof fn lemma_has_dup_diag_app(a: List<Diag>, b: List<Diag>)
    ensures
        has_dup_diag(a.app(b)) == (has_dup_diag(a) || has_dup_diag(b)),
    decreases a,
{
    match a {
        List::Nil => {},
        List::Cons(_, tail) => {
            lemma_has_dup_diag_app(*tail, b);
        },
    }
}

/// A fresh name can be inserted anywhere in a list of distinct names.
proof fn lemma_distinct_insert(a: List<u64>, b: List<u64>, x: u64)
    requires
        distinct_syms(a.app(b)),
        !a.app(b).contains_elem(x),
    ensures
        distinct_syms(a.app(single(x)).app(b)),
    decreases a,
{
    match a {
        List::Nil => {
            assert(a.app(b) == b);
            assert(a.app(single(x)) == single(x));
            assert(single(x).app(b) == List::Cons(x, Box::new(b)));
            assert(distinct_syms(List::Cons(x, Box::new(b))) == (!b.contains_elem(x)
                && distinct_syms(b)));
        },
        List::Cons(head, tail) => {
            assert(a.app(b) == List::Cons(head, Box::new(tail.app(b))));
            lemma_app_contains(*tail, b, head);
            lemma_app_contains(*tail, b, x);
            assert(head != x);
            lemma_distinct_insert(*tail, b, x);
            lemma_app_contains(*tail, single(x), head);
            lemma_app_contains(tail.app(single(x)), b, head);
            assert(List::<u64>::Nil.contains_elem(head) == false);
            assert(single(x).contains_elem(head) == (x == head));
            crate::token::lemma_app_assoc(*tail, single(x), b);
            assert(a.app(single(x)).app(b) == List::Cons(
                head,
                Box::new(tail.app(single(x)).app(b)),
            ));
        },
    }
}

/// Through the directive loop: the seen-set holds exactly the accumulated
/// targets, and while no duplicate diagnostic has been recorded the
/// accumulated targets are distinct.
proof fn lemma_loop_distinct(
    toks: List<Tok>,
    acc_assigned: List<AssignedDirective>,
    acc_all: List<AllDirective>,
    seen: List<u64>,
    diags: List<Diag>,
    needs_move: bool,
)
    requires
        forall|x: u64|
            seen.contains_elem(x) == assigned_syms(acc_assigned).app(
                all_syms(acc_all),
            ).contains_elem(x),
        !has_dup_diag(diags) ==> distinct_syms(assigned_syms(acc_assigned).app(all_syms(acc_all))),
    ensures
        ({
            let o = parse_loop_s(toks, acc_assigned, acc_all, seen, diags, needs_move);
            !has_dup_diag(o.diags) ==> distinct_syms(assigned_syms(o.assigned).app(all_syms(o.all)))
        }),
    decreases toks.len(),
{
    if !(toks matches List::Nil) && !closure_start(toks) {
        lemma_parse_directive_len(toks);
        match parse_directive_s(toks) {
            DirectiveResult::Parsed { dir, rest } => {
                let id = crate::parse::dir_upvar(dir);
                let nm2 = needs_move || forces_move(dir);
                let dup = seen.contains_elem(id.sym);
                let diags2 = if dup {
                    diags.app(single(Diag::DuplicateDirective { upvar: id }))
                } else {
                    diags
                };
                let seen2 = if dup {
                    seen
                } else {
                    seen.app(single(id.sym))
                };
                let acc_a2 = match dir {
                    Directive::Assigned(a) => acc_assigned.app(single(a)),
                    Directive::All(_) => acc_assigned,
                };
                let acc_all2 = match dir {
                    Directive::Assigned(_) => acc_all,
                    Directive::All(a) => acc_all.app(single(a)),
                };
                let asyms = assigned_syms(acc_assigned);
                let lsyms = all_syms(acc_all);
                let whole = asyms.app(lsyms);
                let asyms2 = assigned_syms(acc_a2);
                let lsyms2 = all_syms(acc_all2);
                let whole2 = asyms2.app(lsyms2);
                // The new combined target list: the old one with `id.sym`
                // inserted (between the lists, or at the end).
                match dir {
                    Directive::Assigned(a) => {
                        lemma_assigned_syms_app(acc_assigned, single(a));
                        assert(assigned_syms(List::<AssignedDirective>::Nil)
                            == List::<u64>::Nil);
                        assert(assigned_syms(single(a)) == single(a.upvar.sym));
                        assert(asyms2 == asyms.app(single(id.sym)));
                    },
                    Directive::All(a) => {
                        lemma_all_syms_app(acc_all, single(a));
                        assert(all_syms(List::<AllDirective>::Nil) == List::<u64>::Nil);
                        assert(all_syms(single(a)) == single(a.upvar.sym));
                        assert(lsyms2 == lsyms.app(single(id.sym)));
                        crate::token::lemma_app_assoc(asyms, lsyms, single(id.sym));
                    },
                }
                // Membership in the new combined list.
                assert forall|x: u64|
                    seen2.contains_elem(x) == whole2.contains_elem(x) by {
                    assert(seen.contains_elem(x) == whole.contains_elem(x));
                    assert(List::<u64>::Nil.contains_elem(x) == false);
                    assert(single(id.sym).contains_elem(x) == (id.sym == x));
                    lemma_app_contains(asyms, lsyms, x);
                    lemma_app_contains(asyms2, lsyms2, x);
                    lemma_app_contains(seen, single(id.sym), x);
                    match dir {
                        Directive::Assigned(a) => {
                            lemma_app_contains(asyms, single(id.sym), x);
                        },
                        Directive::All(a) => {
                            lemma_app_contains(lsyms, single(id.sym), x);
                        },
                    }
                }
                // Distinctness, unless a duplicate was just recorded.
                if dup {
                    lemma_has_dup_diag_app(diags, single(Diag::DuplicateDirective { upvar: id }));
                    assert(has_dup_diag(single(Diag::DuplicateDirective { upvar: id })));
                    assert(has_dup_diag(diags2));
                } else {
                    if !has_dup_diag(diags2) {
                        lemma_app_contains(asyms, lsyms, id.sym);
                        match dir {
                            Directive::Assigned(a) => {
                                lemma_distinct_insert(asyms, lsyms, id.sym);
                            },
                            Directive::All(a) => {
                                crate::token::lemma_app_nil(whole.app(single(id.sym)));
                                crate::token::lemma_app_nil(whole);
                                lemma_distinct_insert(whole, List::Nil, id.sym);
                                crate::token::lemma_app_assoc(asyms, lsyms, single(id.sym));
                            },
                        }
                    }
                }
                match take_punct_s(rest, ',') {
                    PunctTaken::Took { rest: r2 } => {
                        lemma_loop_distinct(r2, acc_a2, acc_all2, seen2, diags2, nm2);
                    },
                    PunctTaken::NotThere { rest: r2 } => {
                        lemma_has_dup_diag_app(diags2, single(Diag::ExpectedComma));
                        lemma_loop_distinct(
                            r2,
                            acc_a2,
                            acc_all2,
                            seen2,
                            diags2.app(single(Diag::ExpectedComma)),
                            nm2,
                        );
                    },
                }
            },
            DirectiveResult::Failed { diag, rest } => {
                lemma_skip_past_comma_len(rest);
                lemma_has_dup_diag_app(diags, single(diag));
                lemma_loop_distinct(
                    skip_past_comma_s(rest),
                    acc_assigned,
                    acc_all,
                    seen,
                    diags.app(single(diag)),
                    needs_move,
                );
            },
        }
    }
}

/// Unique targets: when an invocation assembles successfully, every name is
/// the target of at most one directive across the whole directive list —
/// a repeated target always surfaced as a duplicate diagnostic and failed
/// the invocation.
pub proof fn lemma_unique_targets(toks: List<Tok>, c: Closure, trailing_empty: bool)
    ensures
        ({
            let o = parse_directives_s(toks);
            assemble_input_s(o, Option::Some(c), trailing_empty) matches Result::Ok(inp)
                ==> distinct_syms(assigned_syms(inp.assigned).app(all_syms(inp.all)))
        }),
{
    let o = parse_directives_s(toks);
    lemma_loop_distinct(toks, List::Nil, List::Nil, List::Nil, List::Nil, false);
    if assemble_input_s(o, Option::Some(c), trailing_empty) matches Result::Ok(inp) {
        // Success means the final diagnostics are empty, and the parse
        // diagnostics are a prefix of them.
        if o.diags matches List::Cons(h, t) {
            assert(crate::parse::final_diags(o, c, trailing_empty) matches List::Cons(_, _));
        }
        assert(!has_dup_diag(o.diags));
    }
}

/// Whether a top-level comma occurs in the run (commas inside groups do
/// not count).
pub open spec fn has_top_comma(l: List<Tok>) -> bool
    decreases l,
{
    match l {
        List::Nil => false,
        List::Cons(t, rest) => crate::parse::is_punct(t, ',') || has_top_comma(*rest),
    }
}

/// A directive the parser itself could have produced: its target is a plain
/// identifier, a `ref` directive's own binding is never mutable, and a
/// `with` expression is non-empty and free of top-level commas.
pub open spec fn wf_directive(d: Directive) -> bool {
    !is_keyword_sym(crate::parse::dir_upvar(d).sym) && (match d {
        Directive::Assigned(a) => match a.ty {
            DirectiveType::RefDir { .. } => !a.mu,
            DirectiveType::CloneDir => true,
            DirectiveType::WithDir { expr } => expr.len() > 0 && !has_top_comma(expr),
        },
        Directive::All(_) => true,
    })
}

pub open spec fn wf_directives(l: List<Directive>) -> bool
    decreases l,
{
    match l {
        List::Nil => true,
        List::Cons(d, tail) => wf_directive(d) && wf_directives(*tail),
    }
}

/// No directive targets a name in `seen`, nor the same name as a later
/// directive.
pub open spec fn fresh_targets(dirs: List<Directive>, seen: List<u64>) -> bool
    decreases dirs,
{
    match dirs {
        List::Nil => true,
        List::Cons(d, tail) => !seen.contains_elem(crate::parse::dir_upvar(d).sym)
            && fresh_targets(*tail, seen.app(single(crate::parse::dir_upvar(d).sym))),
    }
}

/// The concrete tokens that write one directive down.
pub open spec fn dir_toks(d: Directive) -> List<Tok> {
    match d {
        Directive::All(a) => single(cs_ident_tok(SYM_ALL)).app(single(Tok::IdentTok(a.upvar))),
        Directive::Assigned(a) => {
            let mu = if a.mu {
                single(cs_ident_tok(crate::token::SYM_MUT))
            } else {
                List::Nil
            };
            match a.ty {
                DirectiveType::RefDir { mutable } => {
                    let rm = if mutable {
                        single(cs_ident_tok(crate::token::SYM_MUT))
                    } else {
                        List::Nil
                    };
                    single(cs_ident_tok(crate::token::SYM_REF)).app(rm).app(
                        single(Tok::IdentTok(a.upvar)),
                    )
                },
                DirectiveType::CloneDir => single(cs_ident_tok(SYM_CLONE)).app(mu).app(
                    single(Tok::IdentTok(a.upvar)),
                ),
                DirectiveType::WithDir { expr } => single(cs_ident_tok(SYM_WITH)).app(mu).app(
                    single(Tok::IdentTok(a.upvar)),
                ).app(single(cs_punct_tok('='))).app(expr),
            }
        },
    }
}

/// The concrete tokens that write a directive list down, each directive
/// followed by its comma.
pub open spec fn dirs_toks(l: List<Directive>) -> List<Tok>
    decreases l,
{
    match l {
        List::Nil => List::Nil,
        List::Cons(d, tail) => dir_toks(d).app(single(cs_punct_tok(','))).app(dirs_toks(*tail)),
    }
}

/// The assigned directives of a mixed list, in order.
pub open spec fn proj_assigned(l: List<Directive>) -> List<AssignedDirective>
    decreases l,
{
    match l {
        List::Nil => List::Nil,
        List::Cons(d, tail) => match d {
            Directive::Assigned(a) => List::Cons(a, Box::new(proj_assigned(*tail))),
            Directive::All(_) => proj_assigned(*tail),
        },
    }
}

/// The `all` directives of a mixed list, in order.
pub open spec fn proj_all(l: List<Directive>) -> List<AllDirective>
    decreases l,
{
    match l {
        List::Nil => List::Nil,
        List::Cons(d, tail) => match d {
            Directive::All(a) => List::Cons(a, Box::new(proj_all(*tail))),
            Directive::Assigned(_) => proj_all(*tail),
        },
    }
}

/// Appending to a one-element list conses that element on.
proof fn lemma_single_app<T>(x: T, z: List<T>)
    ensures
        single(x).app(z) == List::Cons(x, Box::new(z)),
{
    assert(single(x) == List::Cons(x, Box::new(List::<T>::Nil)));
    assert(List::Cons(x, Box::new(List::<T>::Nil)).app(z) == List::Cons(
        x,
        Box::new(List::<T>::Nil.app(z)),
    ));
    assert(List::<T>::Nil.app(z) == z);
}

/// The keyword-like identifier a directive is written with.
pub open spec fn dir_head_sym(d: Directive) -> u64 {
    match d {
        Directive::All(_) => SYM_ALL,
        Directive::Assigned(a) => match a.ty {
            DirectiveType::RefDir { .. } => crate::token::SYM_REF,
            DirectiveType::CloneDir => SYM_CLONE,
            DirectiveType::WithDir { .. } => SYM_WITH,
        },
    }
}

/// Splitting at a comma finds exactly the comma after a comma-free prefix.
proof fn lemma_split_no_comma(e: List<Tok>, z: List<Tok>)
    requires
        !has_top_comma(e),
        crate::parse::head_is_punct(z, ','),
    ensures
        crate::parse::split_at_comma_s(e.app(z)) == (e, z),
    decreases e,
{
    match e {
        List::Nil => {
            assert(e.app(z) == z);
        },
        List::Cons(t, rest) => {
            lemma_split_no_comma(*rest, z);
            assert(e.app(z) == List::Cons(t, Box::new(rest.app(z))));
        },
    }
}

/// Parsing the written-down form of a well-formed directive gives back that
/// directive, leaving exactly the following tokens, whose head is the
/// separating comma.
proof fn lemma_parse_rendered(d: Directive, z: List<Tok>)
    requires
        wf_directive(d),
        crate::parse::head_is_punct(z, ','),
    ensures
        parse_directive_s(dir_toks(d).app(z)) == (DirectiveResult::Parsed { dir: d, rest: z }),
        dir_toks(d).app(z) == List::Cons(
            cs_ident_tok(dir_head_sym(d)),
            Box::new(
                match dir_toks(d).app(z) {
                    List::Cons(_, t) => *t,
                    List::Nil => List::Nil,
                },
            ),
        ),
{
    let up = crate::parse::dir_upvar(d);
    let upt = Tok::IdentTok(up);
    let mutt = cs_ident_tok(crate::token::SYM_MUT);
    match d {
        Directive::All(a) => {
            lemma_single_app(upt, z);
            crate::token::lemma_app_assoc(single(cs_ident_tok(SYM_ALL)), single(upt), z);
            lemma_single_app(cs_ident_tok(SYM_ALL), List::Cons(upt, Box::new(z)));
            assert(dir_toks(d).app(z) == List::Cons(
                cs_ident_tok(SYM_ALL),
                Box::new(List::Cons(upt, Box::new(z))),
            ));
            assert(take_mut_s(List::Cons(upt, Box::new(z))) == (
                false,
                List::Cons(upt, Box::new(z)),
            ));
        },
        Directive::Assigned(a) => {
            let kwt = cs_ident_tok(dir_head_sym(d));
            match a.ty {
                DirectiveType::RefDir { mutable } => {
                    let rm = if mutable {
                        single(mutt)
                    } else {
                        List::Nil
                    };
                    // dir_toks = single(kwt).app(rm).app(single(upt))
                    crate::token::lemma_app_assoc(single(kwt).app(rm), single(upt), z);
                    lemma_single_app(upt, z);
                    crate::token::lemma_app_assoc(single(kwt), rm, List::Cons(upt, Box::new(z)));
                    if mutable {
                        lemma_single_app(mutt, List::Cons(upt, Box::new(z)));
                        lemma_single_app(
                            kwt,
                            List::Cons(mutt, Box::new(List::Cons(upt, Box::new(z)))),
                        );
                        assert(dir_toks(d).app(z) == List::Cons(
                            kwt,
                            Box::new(List::Cons(mutt, Box::new(List::Cons(upt, Box::new(z))))),
                        ));
                    } else {
                        lemma_single_app(kwt, List::Cons(upt, Box::new(z)));
                        assert(dir_toks(d).app(z) == List::Cons(
                            kwt,
                            Box::new(List::Cons(upt, Box::new(z))),
                        ));
                        assert(take_mut_s(List::Cons(upt, Box::new(z))) == (
                            false,
                            List::Cons(upt, Box::new(z)),
                        ));
                    }
                },
                DirectiveType::CloneDir => {
                    let mu = if a.mu {
                        single(mutt)
                    } else {
                        List::Nil
                    };
                    crate::token::lemma_app_assoc(single(kwt).app(mu), single(upt), z);
                    lemma_single_app(upt, z);
                    crate::token::lemma_app_assoc(single(kwt), mu, List::Cons(upt, Box::new(z)));
                    if a.mu {
                        lemma_single_app(mutt, List::Cons(upt, Box::new(z)));
                        lemma_single_app(
                            kwt,
                            List::Cons(mutt, Box::new(List::Cons(upt, Box::new(z)))),
                        );
                    } else {
                        lemma_single_app(kwt, List::Cons(upt, Box::new(z)));
                        assert(take_mut_s(List::Cons(upt, Box::new(z))) == (
                            false,
                            List::Cons(upt, Box::new(z)),
                        ));
                    }
                },
                DirectiveType::WithDir { expr } => {
                    let mu = if a.mu {
                        single(mutt)
                    } else {
                        List::Nil
                    };
                    lemma_split_no_comma(expr, z);
                    // Reassociate  ((((kw mu) up) =) expr) ++ z  rightwards.
                    let h3 = single(kwt).app(mu).app(single(upt));
                    crate::token::lemma_app_assoc(
                        h3.app(single(cs_punct_tok('='))),
                        expr,
                        z,
                    );
                    crate::token::lemma_app_assoc(h3, single(cs_punct_tok('=')), expr.app(z));
                    lemma_single_app(cs_punct_tok('='), expr.app(z));
                    let eqrest = List::Cons(cs_punct_tok('='), Box::new(expr.app(z)));
                    crate::token::lemma_app_assoc(single(kwt).app(mu), single(upt), eqrest);
                    lemma_single_app(upt, eqrest);
                    crate::token::lemma_app_assoc(
                        single(kwt),
                        mu,
                        List::Cons(upt, Box::new(eqrest)),
                    );
                    if a.mu {
                        lemma_single_app(mutt, List::Cons(upt, Box::new(eqrest)));
                        lemma_single_app(
                            kwt,
                            List::Cons(mutt, Box::new(List::Cons(upt, Box::new(eqrest)))),
                        );
                    } else {
                        lemma_single_app(kwt, List::Cons(upt, Box::new(eqrest)));
                        assert(take_mut_s(List::Cons(upt, Box::new(eqrest))) == (
                            false,
                            List::Cons(upt, Box::new(eqrest)),
                        ));
                    }
                    assert(take_punct_s(eqrest, '=') == (PunctTaken::Took { rest: expr.app(z) }));
                    assert(expr.len() > 0);
                },
            }
        },
    }
}

/// The directive loop over a written-down well-formed, duplicate-free
/// directive list followed by a closure start: it reads back exactly those
/// directives, adds no diagnostic, and leaves the closure tokens.
proof fn lemma_complete_loop(
    dirs: List<Directive>,
    rest: List<Tok>,
    acc_assigned: List<AssignedDirective>,
    acc_all: List<AllDirective>,
    seen: List<u64>,
    diags: List<Diag>,
    needs_move: bool,
)
    requires
        wf_directives(dirs),
        fresh_targets(dirs, seen),
        closure_start(rest),
    ensures
        parse_loop_s(dirs_toks(dirs).app(rest), acc_assigned, acc_all, seen, diags, needs_move)
            == (DirectivesOutcome {
            assigned: acc_assigned.app(proj_assigned(dirs)),
            all: acc_all.app(proj_all(dirs)),
            diags,
            needs_move: needs_move || has_clone_or_with(proj_assigned(dirs)),
            rest,
        }),
    decreases dirs,
{
    match dirs {
        List::Nil => {
            assert(dirs_toks(dirs).app(rest) == rest);
            assert(rest matches List::Cons(_, _));
            crate::token::lemma_app_nil(acc_assigned);
            crate::token::lemma_app_nil(acc_all);
        },
        List::Cons(d, tail) => {
            let up = crate::parse::dir_upvar(d);
            let z = single(cs_punct_tok(',')).app(dirs_toks(*tail).app(rest));
            lemma_single_app(cs_punct_tok(','), dirs_toks(*tail).app(rest));
            assert(crate::parse::head_is_punct(z, ','));
            crate::token::lemma_app_assoc(
                dir_toks(d).app(single(cs_punct_tok(','))),
                dirs_toks(*tail),
                rest,
            );
            crate::token::lemma_app_assoc(
                dir_toks(d),
                single(cs_punct_tok(',')),
                dirs_toks(*tail).app(rest),
            );
            assert(dirs_toks(dirs).app(rest) == dir_toks(d).app(z));
            lemma_parse_rendered(d, z);
            let toks = dir_toks(d).app(z);
            // The head of a rendered directive is a directive keyword, not
            // one of the closure-start forms, so the loop does not stop.
            assert(!closure_start(toks));
            assert(take_punct_s(z, ',') == (PunctTaken::Took {
                rest: dirs_toks(*tail).app(rest),
            }));
            let dup = seen.contains_elem(up.sym);
            assert(!dup);
            let seen2 = seen.app(single(up.sym));
            match d {
                Directive::Assigned(a) => {
                    lemma_complete_loop(
                        *tail,
                        rest,
                        acc_assigned.app(single(a)),
                        acc_all,
                        seen2,
                        diags,
                        needs_move || forces_move(d),
                    );
                    crate::token::lemma_app_assoc(acc_assigned, single(a), proj_assigned(*tail));
                    lemma_single_app(a, proj_assigned(*tail));
                    assert(proj_assigned(dirs) == List::Cons(a, Box::new(proj_assigned(*tail))));
                    assert(proj_all(dirs) == proj_all(*tail));
                },
                Directive::All(a) => {
                    lemma_complete_loop(
                        *tail,
                        rest,
                        acc_assigned,
                        acc_all.app(single(a)),
                        seen2,
                        diags,
                        needs_move,
                    );
                    crate::token::lemma_app_assoc(acc_all, single(a), proj_all(*tail));
                    lemma_single_app(a, proj_all(*tail));
                    assert(proj_all(dirs) == List::Cons(a, Box::new(proj_all(*tail))));
                    assert(proj_assigned(dirs) == proj_assigned(*tail));
                },
            }
        },
    }
}

/// Parser completeness: an invocation written down from any well-formed,
/// duplicate-free directive list, followed by anything that starts a
/// closure, parses back to exactly those directives — in order, with no
/// diagnostic, with the closure tokens untouched, and with the needs-move
/// flag set exactly when a `clone` or `with` is among them.
pub proof fn lemma_parser_complete(dirs: List<Directive>, rest: List<Tok>)
    requires
        wf_directives(dirs),
        fresh_targets(dirs, List::Nil),
        closure_start(rest),
    ensures
        parse_directives_s(dirs_toks(dirs).app(rest)) == (DirectivesOutcome {
            assigned: proj_assigned(dirs),
            all: proj_all(dirs),
            diags: List::Nil,
            needs_move: has_clone_or_with(proj_assigned(dirs)),
            rest,
        }),
{
    lemma_complete_loop(dirs, rest, List::Nil, List::Nil, List::Nil, List::Nil, false);
}

/// Whether some pattern in `p` binds the name `x`.
pub open spec fn pat_binds(p: Pat, x: u64) -> bool
    decreases p,
{
    match p {
        Pat::Bind { ident, sub } => ident.sym == x || (match sub {
            Option::Some(b) => pat_binds(*b, x),
            Option::None => false,
        }),
        Pat::Tuple(ps) => pats_bind(*ps, x),
        _ => false,
    }
}

pub open spec fn pats_bind(ps: List<Pat>, x: u64) -> bool
    decreases ps,
{
    match ps {
        List::Nil => false,
        List::Cons(p, tail) => pat_binds(p, x) || pats_bind(*tail, x),
    }
}

/// Whether some pattern anywhere in `e` binds the name `x`.
pub open spec fn expr_binds(e: Expr, x: u64) -> bool
    decreases e,
{
    match e {
        Expr::Seg(_) => false,
        Expr::LitE => false,
        Expr::Compound(es) => exprs_bind(*es, x),
        Expr::BlockE(ss) => stmts_bind(*ss, x),
        Expr::IfE { cond, then_branch, else_branch } => expr_binds(*cond, x) || stmts_bind(
            *then_branch,
            x,
        ) || (match else_branch {
            Option::Some(e2) => expr_binds(*e2, x),
            Option::None => false,
        }),
        Expr::LetCond { expr, pat } => expr_binds(*expr, x) || pat_binds(*pat, x),
        Expr::WhileE { cond, body } => expr_binds(*cond, x) || stmts_bind(*body, x),
        Expr::ForE { pat, iter, body } => pat_binds(*pat, x) || expr_binds(*iter, x)
            || stmts_bind(*body, x),
        Expr::MatchE { scrut, arms } => expr_binds(*scrut, x) || arms_bind(arms, x),
        Expr::ClosureE { params, body } => pats_bind(params, x) || expr_binds(*body, x),
        Expr::MacroE { .. } => false,
        Expr::Attributed { inner, .. } => expr_binds(*inner, x),
    }
}

pub open spec fn exprs_bind(es: List<Expr>, x: u64) -> bool
    decreases es,
{
    match es {
        List::Nil => false,
        List::Cons(e, tail) => expr_binds(e, x) || exprs_bind(*tail, x),
    }
}

pub open spec fn stmt_binds(s: Stmt, x: u64) -> bool
    decreases s,
{
    match s {
        Stmt::Local { pat, init } => pat_binds(pat, x) || (match init {
            Option::Some(e) => expr_binds(e, x),
            Option::None => false,
        }),
        Stmt::ExprStmt(e) => expr_binds(e, x),
    }
}

pub open spec fn stmts_bind(ss: List<Stmt>, x: u64) -> bool
    decreases ss,
{
    match ss {
        List::Nil => false,
        List::Cons(s, tail) => stmt_binds(s, x) || stmts_bind(*tail, x),
    }
}

pub open spec fn arm_binds(arm: Arm, x: u64) -> bool
    decreases arm,
{
    pat_binds(arm.pat, x) || (match arm.guard {
        Option::Some(g) => expr_binds(*g, x),
        Option::None => false,
    }) || expr_binds(*arm.body, x)
}

pub open spec fn arms_bind(arms: List<Arm>, x: u64) -> bool
    decreases arms,
{
    match arms {
        List::Nil => false,
        List::Cons(arm, tail) => arm_binds(arm, x) || arms_bind(*tail, x),
    }
}

/// `q` is `p` with every use of the name `x` left exactly as it was. The
/// trees must agree in shape; nothing is said about other names.
pub open spec fn kept_pat(p: Pat, q: Pat, x: u64) -> bool
    decreases p,
{
    match p {
        Pat::Bind { ident: _, sub } => q matches Pat::Bind { ident: _, sub: sub2 } && (match (
            sub,
            sub2,
        ) {
            (Option::Some(b), Option::Some(b2)) => kept_pat(*b, *b2, x),
            (Option::None, Option::None) => true,
            _ => false,
        }),
        Pat::Tuple(ps) => q matches Pat::Tuple(ps2) && kept_pats(*ps, *ps2, x),
        Pat::Seg(id) => q matches Pat::Seg(id2) && (id.sym == x ==> id2 == id),
        Pat::Wild => q matches Pat::Wild,
        Pat::LitPat => q matches Pat::LitPat,
    }
}

pub open spec fn kept_pats(ps: List<Pat>, qs: List<Pat>, x: u64) -> bool
    decreases ps,
{
    match ps {
        List::Nil => qs matches List::Nil,
        List::Cons(p, tail) => qs matches List::Cons(q, tail2) && kept_pat(p, q, x) && kept_pats(
            *tail,
            *tail2,
            x,
        ),
    }
}

/// `e2` is `e` with every use of the name `x` — as a path segment in
/// expression position, in a pattern, or as a macro or attribute name —
/// left exactly as it was. Tokens handed to nested macros and attribute
/// argument lists are exempt from the claim: there the rewrite is wholesale
/// by design.
pub open spec fn kept_expr(e: Expr, e2: Expr, x: u64) -> bool
    decreases e,
{
    match e {
        Expr::Seg(id) => e2 matches Expr::Seg(id2) && (id.sym == x ==> id2 == id),
        Expr::LitE => e2 matches Expr::LitE,
        Expr::Compound(es) => e2 matches Expr::Compound(es2) && kept_exprs(*es, *es2, x),
        Expr::BlockE(ss) => e2 matches Expr::BlockE(ss2) && kept_stmts(*ss, *ss2, x),
        Expr::IfE { cond, then_branch, else_branch } => e2 matches Expr::IfE {
            cond: c2,
            then_branch: t2,
            else_branch: el2,
        } && kept_expr(*cond, *c2, x) && kept_stmts(*then_branch, *t2, x) && (match (
            else_branch,
            el2,
        ) {
            (Option::Some(a), Option::Some(b)) => kept_expr(*a, *b, x),
            (Option::None, Option::None) => true,
            _ => false,
        }),
        Expr::LetCond { expr, pat } => e2 matches Expr::LetCond { expr: x2, pat: p2 }
            && kept_expr(*expr, *x2, x) && kept_pat(*pat, *p2, x),
        Expr::WhileE { cond, body } => e2 matches Expr::WhileE { cond: c2, body: b2 }
            && kept_expr(*cond, *c2, x) && kept_stmts(*body, *b2, x),
        Expr::ForE { pat, iter, body } => e2 matches Expr::ForE { pat: p2, iter: i2, body: b2 }
            && kept_pat(*pat, *p2, x) && kept_expr(*iter, *i2, x) && kept_stmts(*body, *b2, x),
        Expr::MatchE { scrut, arms } => e2 matches Expr::MatchE { scrut: s2, arms: a2 }
            && kept_expr(*scrut, *s2, x) && kept_arms(arms, a2, x),
        Expr::ClosureE { params, body } => e2 matches Expr::ClosureE { params: p2, body: b2 }
            && kept_pats(params, p2, x) && kept_expr(*body, *b2, x),
        Expr::MacroE { path, toks: _ } => e2 matches Expr::MacroE { path: p2, toks: _ } && (
        path.sym == x ==> p2 == path),
        Expr::Attributed { path, attr_toks: _, inner } => e2 matches Expr::Attributed {
            path: p2,
            attr_toks: _,
            inner: i2,
        } && (path.sym == x ==> p2 == path) && kept_expr(*inner, *i2, x),
    }
}

pub open spec fn kept_exprs(es: List<Expr>, es2: List<Expr>, x: u64) -> bool
    decreases es,
{
    match es {
        List::Nil => es2 matches List::Nil,
        List::Cons(e, tail) => es2 matches List::Cons(e2, tail2) && kept_expr(e, e2, x)
            && kept_exprs(*tail, *tail2, x),
    }
}

pub open spec fn kept_stmt(s: Stmt, s2: Stmt, x: u64) -> bool
    decreases s,
{
    match s {
        Stmt::Local { pat, init } => s2 matches Stmt::Local { pat: p2, init: i2 } && kept_pat(
            pat,
            p2,
            x,
        ) && (match (init, i2) {
            (Option::Some(a), Option::Some(b)) => kept_expr(a, b, x),
            (Option::None, Option::None) => true,
            _ => false,
        }),
        Stmt::ExprStmt(e) => s2 matches Stmt::ExprStmt(e2) && kept_expr(e, e2, x),
    }
}

pub open spec fn kept_stmts(ss: List<Stmt>, ss2: List<Stmt>, x: u64) -> bool
    decreases ss,
{
    match ss {
        List::Nil => ss2 matches List::Nil,
        List::Cons(s, tail) => ss2 matches List::Cons(s2, tail2) && kept_stmt(s, s2, x)
            && kept_stmts(*tail, *tail2, x),
    }
}

pub open spec fn kept_arm(a: Arm, a2: Arm, x: u64) -> bool
    decreases a,
{
    kept_pat(a.pat, a2.pat, x) && (match (a.guard, a2.guard) {
        (Option::Some(g), Option::Some(g2)) => kept_expr(*g, *g2, x),
        (Option::None, Option::None) => true,
        _ => false,
    }) && kept_expr(*a.body, *a2.body, x)
}

pub open spec fn kept_arms(arms: List<Arm>, arms2: List<Arm>, x: u64) -> bool
    decreases arms,
{
    match arms {
        List::Nil => arms2 matches List::Nil,
        List::Cons(a, tail) => arms2 matches List::Cons(a2, tail2) && kept_arm(a, a2, x)
            && kept_arms(*tail, *tail2, x),
    }
}

/// Removing one name leaves the others.
proof fn lemma_remove_keeps(l: List<u64>, y: u64, x: u64)
    requires
        x != y,
        l.contains_elem(x),
    ensures
        remove_sym(l, y).contains_elem(x),
    decreases l,
{
    match l {
        List::Nil => {},
        List::Cons(head, tail) => {
            if head != y && tail.contains_elem(x) {
                lemma_remove_keeps(*tail, y, x);
            }
        },
    }
}

/// A binding of another name never drops `x` from the exempt set.
proof fn lemma_bind_keeps(st: CleanState, y: u64, x: u64)
    requires
        x != y,
        st.exempt.contains_elem(x),
    ensures
        bind_sym(st, y).exempt.contains_elem(x),
{
    if st.exempt.contains_elem(y) {
        lemma_remove_keeps(st.exempt, y, x);
    }
}

/// Closing a scope never drops `x` from the exempt set.
proof fn lemma_restore_keeps(st: CleanState, saved: List<u64>, x: u64)
    requires
        st.exempt.contains_elem(x),
    ensures
        restore_to(st, saved).exempt.contains_elem(x),
    decreases st.shadowed,
{
    if st.shadowed != saved {
        match st.shadowed {
            List::Nil => {},
            List::Cons(head, tail) => {
                lemma_restore_keeps(
                    CleanState {
                        exempt: List::Cons(head, Box::new(st.exempt)),
                        shadowed: *tail,
                    },
                    saved,
                    x,
                );
            },
        }
    }
}

proof fn lemma_kept_pat(p: Pat, st: CleanState, x: u64)
    requires
        st.exempt.contains_elem(x),
        !pat_binds(p, x),
    ensures
        kept_pat(p, clean_pat_s(p, st).0, x),
        clean_pat_s(p, st).1.exempt.contains_elem(x),
    decreases p,
{
    match p {
        Pat::Bind { ident, sub } => {
            let st1 = match sub {
                Option::Some(b) => {
                    lemma_kept_pat(*b, st, x);
                    clean_pat_s(*b, st).1
                },
                Option::None => st,
            };
            lemma_bind_keeps(st1, ident.sym, x);
        },
        Pat::Tuple(ps) => {
            lemma_kept_pats(*ps, st, x);
        },
        _ => {},
    }
}

proof fn lemma_kept_pats(ps: List<Pat>, st: CleanState, x: u64)
    requires
        st.exempt.contains_elem(x),
        !pats_bind(ps, x),
    ensures
        kept_pats(ps, clean_pats_s(ps, st).0, x),
        clean_pats_s(ps, st).1.exempt.contains_elem(x),
    decreases ps,
{
    match ps {
        List::Nil => {},
        List::Cons(p, tail) => {
            lemma_kept_pat(p, st, x);
            lemma_kept_pats(*tail, clean_pat_s(p, st).1, x);
        },
    }
}

proof fn lemma_kept_expr(e: Expr, st: CleanState, x: u64)
    requires
        st.exempt.contains_elem(x),
        !expr_binds(e, x),
    ensures
        kept_expr(e, clean_expr_s(e, st).0, x),
        clean_expr_s(e, st).1.exempt.contains_elem(x),
    decreases e,
{
    match e {
        Expr::Seg(_) => {},
        Expr::LitE => {},
        Expr::Compound(es) => {
            lemma_kept_exprs(*es, st, x);
        },
        Expr::BlockE(ss) => {
            lemma_kept_stmts(*ss, st, x);
            lemma_restore_keeps(clean_stmts_s(*ss, st).1, st.shadowed, x);
        },
        Expr::IfE { cond, then_branch, else_branch } => {
            lemma_kept_expr(*cond, st, x);
            let st1 = clean_expr_s(*cond, st).1;
            lemma_kept_stmts(*then_branch, st1, x);
            let st2 = clean_stmts_s(*then_branch, st1).1;
            lemma_restore_keeps(st2, st.shadowed, x);
            let st3 = restore_to(st2, st.shadowed);
            match else_branch {
                Option::Some(els) => {
                    lemma_kept_expr(*els, st3, x);
                },
                Option::None => {},
            }
        },
        Expr::LetCond { expr, pat } => {
            lemma_kept_expr(*expr, st, x);
            lemma_kept_pat(*pat, clean_expr_s(*expr, st).1, x);
        },
        Expr::WhileE { cond, body } => {
            lemma_kept_expr(*cond, st, x);
            let st1 = clean_expr_s(*cond, st).1;
            lemma_kept_stmts(*body, st1, x);
            lemma_restore_keeps(clean_stmts_s(*body, st1).1, st.shadowed, x);
        },
        Expr::ForE { pat, iter, body } => {
            lemma_kept_pat(*pat, st, x);
            let st1 = clean_pat_s(*pat, st).1;
            lemma_kept_expr(*iter, st1, x);
            let st2 = clean_expr_s(*iter, st1).1;
            lemma_kept_stmts(*body, st2, x);
            lemma_restore_keeps(clean_stmts_s(*body, st2).1, st.shadowed, x);
        },
        Expr::MatchE { scrut, arms } => {
            lemma_kept_expr(*scrut, st, x);
            lemma_kept_arms(arms, clean_expr_s(*scrut, st).1, x);
        },
        Expr::ClosureE { params, body } => {
            lemma_kept_pats(params, st, x);
            lemma_kept_expr(*body, clean_pats_s(params, st).1, x);
        },
        Expr::MacroE { .. } => {},
        Expr::Attributed { inner, .. } => {
            lemma_kept_expr(*inner, st, x);
        },
    }
}

proof fn lemma_kept_exprs(es: List<Expr>, st: CleanState, x: u64)
    requires
        st.exempt.contains_elem(x),
        !exprs_bind(es, x),
    ensures
        kept_exprs(es, clean_exprs_s(es, st).0, x),
        clean_exprs_s(es, st).1.exempt.contains_elem(x),
    decreases es,
{
    match es {
        List::Nil => {},
        List::Cons(e, tail) => {
            lemma_kept_expr(e, st, x);
            lemma_kept_exprs(*tail, clean_expr_s(e, st).1, x);
        },
    }
}

proof fn lemma_kept_stmt(s: Stmt, st: CleanState, x: u64)
    requires
        st.exempt.contains_elem(x),
        !stmt_binds(s, x),
    ensures
        kept_stmt(s, clean_stmt_s(s, st).0, x),
        clean_stmt_s(s, st).1.exempt.contains_elem(x),
    decreases s,
{
    match s {
        Stmt::Local { pat, init } => {
            let st1 = match init {
                Option::Some(e) => {
                    lemma_kept_expr(e, st, x);
                    clean_expr_s(e, st).1
                },
                Option::None => st,
            };
            lemma_kept_pat(pat, st1, x);
        },
        Stmt::ExprStmt(e) => {
            lemma_kept_expr(e, st, x);
        },
    }
}

proof fn lemma_kept_stmts(ss: List<Stmt>, st: CleanState, x: u64)
    requires
        st.exempt.contains_elem(x),
        !stmts_bind(ss, x),
    ensures
        kept_stmts(ss, clean_stmts_s(ss, st).0, x),
        clean_stmts_s(ss, st).1.exempt.contains_elem(x),
    decreases ss,
{
    match ss {
        List::Nil => {},
        List::Cons(s, tail) => {
            lemma_kept_stmt(s, st, x);
            lemma_kept_stmts(*tail, clean_stmt_s(s, st).1, x);
        },
    }
}

proof fn lemma_kept_arm(a: Arm, st: CleanState, x: u64)
    requires
        st.exempt.contains_elem(x),
        !arm_binds(a, x),
    ensures
        kept_arm(a, clean_arm_s(a, st).0, x),
        clean_arm_s(a, st).1.exempt.contains_elem(x),
    decreases a,
{
    lemma_kept_pat(a.pat, st, x);
    let st1 = clean_pat_s(a.pat, st).1;
    let st2 = match a.guard {
        Option::Some(g) => {
            lemma_kept_expr(*g, st1, x);
            clean_expr_s(*g, st1).1
        },
        Option::None => st1,
    };
    lemma_kept_expr(*a.body, st2, x);
    lemma_restore_keeps(clean_expr_s(*a.body, st2).1, st.shadowed, x);
}

proof fn lemma_kept_arms(arms: List<Arm>, st: CleanState, x: u64)
    requires
        st.exempt.contains_elem(x),
        !arms_bind(arms, x),
    ensures
        kept_arms(arms, clean_arms_s(arms, st).0, x),
        clean_arms_s(arms, st).1.exempt.contains_elem(x),
    decreases arms,
{
    match arms {
        List::Nil => {},
        List::Cons(a, tail) => {
            lemma_kept_arm(a, st, x);
            lemma_kept_arms(*tail, clean_arm_s(a, st).1, x);
        },
    }
}

/// An exempt name that no pattern in the body rebinds stays usable,
/// unrenamed, at every use throughout the cleaned body — and stays exempt
/// to the end. Together with [`lemma_shadowing_block`] this is the whole
/// story of an `all` target: unshadowed uses keep the outer resolution, and
/// a shadow suspends it only for its scope.
pub proof fn lemma_unbound_exempt_kept_everywhere(e: Expr, st: CleanState, x: u64)
    requires
        st.exempt.contains_elem(x),
        !expr_binds(e, x),
    ensures
        kept_expr(e, clean_expr_s(e, st).0, x),
        clean_expr_s(e, st).1.exempt.contains_elem(x),
{
    lemma_kept_expr(e, st, x);
}

/// A run of `k` malformed directives before a closure bar: the tokens
/// `u, u, ..., u, |` where `u` begins no directive.
pub open spec fn bad_run(k: nat, id: Ident) -> List<Tok>
    decreases k,
{
    if k == 0 {
        single(cs_punct_tok('|'))
    } else {
        List::Cons(
            Tok::IdentTok(id),
            Box::new(
                List::Cons(cs_punct_tok(','), Box::new(bad_run((k - 1) as nat, id))),
            ),
        )
    }
}

proof fn lemma_bad_run_loop(
    k: nat,
    id: Ident,
    acc_assigned: List<AssignedDirective>,
    acc_all: List<AllDirective>,
    seen: List<u64>,
    diags: List<Diag>,
    needs_move: bool,
)
    requires
        !is_keyword_sym(id.sym),
        id.sym != SYM_CLONE,
        id.sym != SYM_WITH,
        id.sym != SYM_ALL,
    ensures
        parse_loop_s(bad_run(k, id), acc_assigned, acc_all, seen, diags, needs_move).diags.len()
            == diags.len() + k,
    decreases k,
{
    if k == 0 {
        assert(closure_start(bad_run(0, id)));
    } else {
        let toks = bad_run(k, id);
        let rest = List::Cons(cs_punct_tok(','), Box::new(bad_run((k - 1) as nat, id)));
        assert(toks == List::Cons(Tok::IdentTok(id), Box::new(rest)));
        assert(!closure_start(toks));
        assert(take_mut_s(rest) == (false, rest));
        assert(parse_directive_s(toks) == DirectiveResult::Failed {
            diag: Diag::ExpectedDirective,
            rest,
        });
        assert(skip_past_comma_s(rest) == bad_run((k - 1) as nat, id));
        let diags2 = diags.app(single(Diag::ExpectedDirective));
        lemma_app_len(diags, single(Diag::ExpectedDirective));
        assert(List::<Diag>::Nil.len() == 0);
        assert(single(Diag::ExpectedDirective).len() == 1);
        assert(diags2.len() == diags.len() + 1);
        assert(parse_loop_s(toks, acc_assigned, acc_all, seen, diags, needs_move)
            == parse_loop_s(
            bad_run((k - 1) as nat, id),
            acc_assigned,
            acc_all,
            seen,
            diags2,
            needs_move,
        ));
        lemma_bad_run_loop((k - 1) as nat, id, acc_assigned, acc_all, seen, diags2, needs_move);
    }
}

/// Error accumulation: an invocation holding `k` malformed directives
/// reports `k` diagnostics in one combined report — recovery after each
/// failure lets every later problem surface too — rather than only the
/// first.
pub proof fn lemma_error_accumulation(k: nat, id: Ident)
    requires
        !is_keyword_sym(id.sym),
        id.sym != SYM_CLONE,
        id.sym != SYM_WITH,
        id.sym != SYM_ALL,
    ensures
        parse_directives_s(bad_run(k, id)).diags.len() == k,
{
    lemma_bad_run_loop(k, id, List::Nil, List::Nil, List::Nil, List::Nil, false);
}

/// Shadowing. Take a name `x` that is exempt (an `all` target) and a body
/// of the shape
///
/// ```text
/// { x; let x; x }  x
/// ```
///
/// — a block that uses `x`, rebinds it with a local, and uses it again,
/// followed by one more use after the block. Cleaning leaves the use before
/// the rebinding untouched (it resolves to the outer variable), renames the
/// rebinding itself and the use under it to the mixed domain, and — the
/// shadow ending with its scope — again leaves the use after the block
/// untouched, with the state back to exempting `x`.
#[verifier::rlimit(100)]
pub proof fn lemma_shadowing_block(x: Ident, st: CleanState)
    requires
        st.exempt.contains_elem(x.sym),
        !remove_sym(st.exempt, x.sym).contains_elem(x.sym),
    ensures
        ({
            let xm = Ident { sym: x.sym, hyg: Hygiene::Mixed };
            let body = Expr::Compound(
                Box::new(
                    List::Cons(
                        Expr::BlockE(
                            Box::new(
                                List::Cons(
                                    Stmt::ExprStmt(Expr::Seg(x)),
                                    Box::new(
                                        List::Cons(
                                            Stmt::Local {
                                                pat: Pat::Bind { ident: x, sub: Option::None },
                                                init: Option::None,
                                            },
                                            Box::new(
                                                List::Cons(
                                                    Stmt::ExprStmt(Expr::Seg(x)),
                                                    Box::new(List::Nil),
                                                ),
                                            ),
                                        ),
                                    ),
                                ),
                            ),
                        ),
                        Box::new(List::Cons(Expr::Seg(x), Box::new(List::Nil))),
                    ),
                ),
            );
            let cleaned = Expr::Compound(
                Box::new(
                    List::Cons(
                        Expr::BlockE(
                            Box::new(
                                List::Cons(
                                    Stmt::ExprStmt(Expr::Seg(x)),
                                    Box::new(
                                        List::Cons(
                                            Stmt::Local {
                                                pat: Pat::Bind { ident: xm, sub: Option::None },
                                                init: Option::None,
                                            },
                                            Box::new(
                                                List::Cons(
                                                    Stmt::ExprStmt(Expr::Seg(xm)),
                                                    Box::new(List::Nil),
                                                ),
                                            ),
                                        ),
                                    ),
                                ),
                            ),
                        ),
                        Box::new(List::Cons(Expr::Seg(x), Box::new(List::Nil))),
                    ),
                ),
            );
            let r = clean_expr_s(body, st);
            r.0 == cleaned && r.1.exempt.contains_elem(x.sym) && r.1.shadowed == st.shadowed
        }),
{
    let xm = Ident { sym: x.sym, hyg: Hygiene::Mixed };
    let st1 = bind_sym(st, x.sym);
    assert(st1.exempt == remove_sym(st.exempt, x.sym));
    assert(st1.shadowed == List::Cons(x.sym, Box::new(st.shadowed)));
    assert(clean_use_ident(x, st) == x);
    assert(clean_use_ident(x, st1) == xm);
    assert(st1.shadowed.len() == 1 + st.shadowed.len());
    assert(st1.shadowed != st.shadowed);
    let stm = CleanState {
        exempt: List::Cons(x.sym, Box::new(st1.exempt)),
        shadowed: st.shadowed,
    };
    assert(restore_to(stm, st.shadowed) == stm);
    assert(restore_to(st1, st.shadowed) == stm);
    // The three statements of the block, one at a time.
    let s_use = Stmt::ExprStmt(Expr::Seg(x));
    let s_local = Stmt::Local { pat: Pat::Bind { ident: x, sub: Option::None }, init: Option::None };
    let s_local2 = Stmt::Local {
        pat: Pat::Bind { ident: xm, sub: Option::None },
        init: Option::None,
    };
    let s_use2 = Stmt::ExprStmt(Expr::Seg(xm));
    assert(clean_stmt_s(s_use, st) == (s_use, st));
    assert(clean_pat_s(Pat::Bind { ident: x, sub: Option::None }, st) == (
        Pat::Bind { ident: xm, sub: Option::None },
        st1,
    ));
    assert(clean_stmt_s(s_local, st) == (s_local2, st1));
    assert(clean_stmt_s(s_use, st1) == (s_use2, st1));
    let ss3 = List::Cons(s_use, Box::new(List::Cons(s_local, Box::new(
        List::Cons(s_use, Box::new(List::Nil))))));
    let cs3 = List::Cons(s_use, Box::new(List::Cons(s_local2, Box::new(
        List::Cons(s_use2, Box::new(List::Nil))))));
    assert(clean_stmts_s(List::Nil, st1) == (List::<Stmt>::Nil, st1));
    assert(clean_stmts_s(List::Cons(s_use, Box::new(List::Nil)), st1) == (
        List::Cons(s_use2, Box::new(List::Nil)),
        st1,
    ));
    assert(clean_stmts_s(
        List::Cons(s_local, Box::new(List::Cons(s_use, Box::new(List::Nil)))),
        st,
    ) == (List::Cons(s_local2, Box::new(List::Cons(s_use2, Box::new(List::Nil)))), st1));
    assert(clean_stmts_s(ss3, st) == (cs3, st1));
    let block = Expr::BlockE(Box::new(ss3));
    let cblock = Expr::BlockE(Box::new(cs3));
    assert(clean_expr_s(block, st) == (cblock, stm));
    assert(stm.exempt.contains_elem(x.sym));
    assert(clean_expr_s(Expr::Seg(x), stm) == (Expr::Seg(x), stm));
    let es2 = List::Cons(block, Box::new(List::Cons(Expr::Seg(x), Box::new(List::Nil))));
    let ces2 = List::Cons(cblock, Box::new(List::Cons(Expr::Seg(x), Box::new(List::Nil))));
    assert(clean_exprs_s(List::Nil, stm) == (List::<Expr>::Nil, stm));
    assert(clean_exprs_s(List::Cons(Expr::Seg(x), Box::new(List::Nil)), stm) == (
        List::Cons(Expr::Seg(x), Box::new(List::Nil)),
        stm,
    ));
    assert(clean_exprs_s(es2, st) == (ces2, stm));
    assert(clean_expr_s(Expr::Compound(Box::new(es2)), st) == (
        Expr::Compound(Box::new(ces2)),
        stm,
    ));
}

} // verus!
