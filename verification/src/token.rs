//! The token model.
//!
//! Identifiers are interned: a `sym` is an integer standing for the
//! identifier's text, chosen by the host-side interner. A handful of symbols
//! are reserved for the keywords and punctuation the directive grammar reads;
//! the interner maps those spellings to the reserved values below and every
//! other spelling to a value at or above `SYM_RESERVED_LIMIT`.
//!
//! Every token carries a hygiene tag: `CallSite` for tokens that resolve at
//! the invocation site, `Mixed` for tokens moved into the expansion's own
//! hygiene domain.

use vstd::prelude::*;

verus! {

/// Reserved symbol for the `ref` keyword.
pub const SYM_REF: u64 = 1;
/// Reserved symbol for the `mut` keyword.
pub const SYM_MUT: u64 = 2;
/// Reserved symbol for the `move` keyword.
pub const SYM_MOVE: u64 = 3;
/// Reserved symbol for the `async` keyword.
pub const SYM_ASYNC: u64 = 4;
/// Reserved symbol for the `static` keyword.
pub const SYM_STATIC: u64 = 5;
/// Reserved symbol for the `let` keyword.
pub const SYM_LET: u64 = 6;
/// Reserved symbol for the `clone` directive head.
pub const SYM_CLONE: u64 = 7;
/// Reserved symbol for the `with` directive head.
pub const SYM_WITH: u64 = 8;
/// Reserved symbol for the `all` directive head.
pub const SYM_ALL: u64 = 9;
/// Reserved symbol for the `_` wildcard token.
pub const SYM_UNDERSCORE: u64 = 10;
/// Reserved symbol for the `core` path segment.
pub const SYM_CORE: u64 = 11;
/// Reserved symbol for the `Clone` path segment.
pub const SYM_CLONE_TRAIT: u64 = 12;
/// Symbols at or above this value are ordinary identifiers.
pub const SYM_RESERVED_LIMIT: u64 = 16;

/// True of the symbols that are reserved keywords of the host language and so
/// can never be the name of a captured variable.
pub open spec fn is_keyword_sym(sym: u64) -> bool {
    sym == SYM_REF || sym == SYM_MUT || sym == SYM_MOVE || sym == SYM_ASYNC
        || sym == SYM_STATIC || sym == SYM_LET || sym == SYM_UNDERSCORE
}

/// Exec mirror of [`is_keyword_sym`].
pub fn keyword_sym(sym: u64) -> (r: bool)
    ensures
        r == is_keyword_sym(sym),
{
    sym == SYM_REF || sym == SYM_MUT || sym == SYM_MOVE || sym == SYM_ASYNC
        || sym == SYM_STATIC || sym == SYM_LET || sym == SYM_UNDERSCORE
}

/// The hygiene domain an identifier resolves in.
#[derive(Clone, Copy, PartialEq, Eq, Structural, Debug)]
pub enum Hygiene {
    /// Resolves among the names visible at the invocation site.
    CallSite,
    /// Resolves only within this expansion's own names.
    Mixed,
}

/// An interned identifier together with its hygiene tag.
#[derive(Clone, Copy, PartialEq, Eq, Structural, Debug)]
pub struct Ident {
    pub sym: u64,
    pub hyg: Hygiene,
}

/// The delimiter of a token group.
#[derive(Clone, Copy, PartialEq, Eq, Structural, Debug)]
pub enum Delim {
    Paren,
    Bracket,
    Brace,
    /// An invisible delimiter around an interpolated fragment.
    Invisible,
}

/// A cons list. The model keeps sequences in this form so that specification
/// functions can build them directly.
pub enum List<T> {
    Nil,
    Cons(T, Box<List<T>>),
}

/// One tree in a token sequence.
pub enum Tok {
    IdentTok(Ident),
    PunctTok { ch: char, hyg: Hygiene },
    LitTok { sym: u64, hyg: Hygiene },
    GroupTok { delim: Delim, inner: Box<List<Tok>>, hyg: Hygiene },
}

impl<T> List<T> {
    /// The number of elements.
    pub open spec fn len(self) -> nat
        decreases self,
    {
        match self {
            List::Nil => 0,
            List::Cons(_, tail) => 1 + tail.len(),
        }
    }

    /// Membership, under specification equality.
    pub open spec fn contains_elem(self, x: T) -> bool
        decreases self,
    {
        match self {
            List::Nil => false,
            List::Cons(head, tail) => head == x || tail.contains_elem(x),
        }
    }

    /// `self` followed by `other`.
    pub open spec fn app(self, other: List<T>) -> List<T>
        decreases self,
    {
        match self {
            List::Nil => other,
            List::Cons(head, tail) => List::Cons(head, Box::new(tail.app(other))),
        }
    }

    /// Exec append; consumes both lists.
    pub fn append(self, other: List<T>) -> (r: List<T>)
        ensures
            r == self.app(other),
        decreases self,
    {
        match self {
            List::Nil => other,
            List::Cons(head, tail) => List::Cons(head, Box::new(tail.append(other))),
        }
    }

}

/// A list holding exactly one element.
pub open spec fn single<T>(x: T) -> List<T> {
    List::Cons(x, Box::new(List::Nil))
}

impl<T> List<T> {
    /// Exec append of one element at the end.
    pub fn snoc(self, x: T) -> (r: List<T>)
        ensures
            r == self.app(single(x)),
        decreases self,
    {
        match self {
            List::Nil => List::Cons(x, Box::new(List::Nil)),
            List::Cons(head, tail) => List::Cons(head, Box::new(tail.snoc(x))),
        }
    }
}

/// Exec membership test for a list of symbols.
pub fn contains_sym(l: &List<u64>, x: u64) -> (r: bool)
    ensures
        r == l.contains_elem(x),
    decreases *l,
{
    match l {
        List::Nil => false,
        List::Cons(head, tail) => *head == x || contains_sym(tail, x),
    }
}

/// A verified deep copy of a list of symbols.
pub fn copy_syms(l: &List<u64>) -> (r: List<u64>)
    ensures
        r == *l,
    decreases *l,
{
    match l {
        List::Nil => List::Nil,
        List::Cons(head, tail) => List::Cons(*head, Box::new(copy_syms(tail))),
    }
}

/// Exec structural equality for lists of symbols.
pub fn syms_eq(a: &List<u64>, b: &List<u64>) -> (r: bool)
    ensures
        r == (*a == *b),
    decreases *a,
{
    match a {
        List::Nil => matches!(b, List::Nil),
        List::Cons(ha, ta) => match b {
            List::Nil => false,
            List::Cons(hb, tb) => *ha == *hb && syms_eq(ta, tb),
        },
    }
}

/// Appending is associative.
pub proof fn lemma_app_assoc<T>(a: List<T>, b: List<T>, c: List<T>)
    ensures
        a.app(b).app(c) == a.app(b.app(c)),
    decreases a,
{
    match a {
        List::Nil => {},
        List::Cons(_, tail) => {
            lemma_app_assoc(*tail, b, c);
        },
    }
}

/// The empty list is a right identity of appending.
pub proof fn lemma_app_nil<T>(a: List<T>)
    ensures
        a.app(List::Nil) == a,
    decreases a,
{
    match a {
        List::Nil => {},
        List::Cons(_, tail) => {
            lemma_app_nil(*tail);
        },
    }
}

/// The length of an appended list is the sum of the lengths.
pub proof fn lemma_app_len<T>(a: List<T>, b: List<T>)
    ensures
        a.app(b).len() == a.len() + b.len(),
    decreases a,
{
    match a {
        List::Nil => {},
        List::Cons(_, tail) => {
            lemma_app_len(*tail, b);
        },
    }
}

} // verus!
