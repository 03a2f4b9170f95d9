//! The cons-cell data type: a persistent, structure-sharing list built from
//! reference-counted, immutable pairs and symbol atoms.

use std::rc::Rc;
use vstd::prelude::*;

verus! {

/// The mathematical model of a cell tree: an atom is a character sequence,
/// a pair is an ordered pair of sub-forms.
pub enum Form {
    Atom(Seq<char>),
    Duo(Box<Form>, Box<Form>),
}

/// Everything that can go wrong while reading or evaluating a form.
#[derive(Clone, Copy, PartialEq, Eq, Structural, Debug)]
pub enum LispError {
    /// `car`/`cdr` applied to an atom.
    TypeError,
    /// A variable was looked up in an environment that does not bind it.
    UnboundSymbol,
    /// Parameter and argument lists of a function call differ in length.
    ArityMismatch,
    /// A `COND` ran out of clauses without any predicate holding.
    NoMatchingClause,
    /// A call head that is neither a known keyword nor a `LAMBDA`/`LABEL` form.
    UndefinedFunction,
    /// The token stream ended while a list was still open.
    UnexpectedEndOfInput,
    /// The evaluator's recursion allowance ran out before the form was reduced.
    DepthExceeded,
}

/// A cons cell: either a pair of shared references to two sub-cells, or an
/// atomic symbol holding its text.
pub enum Pair {
    Cons(Rc<Pair>, Rc<Pair>),
    Atom(String),
}

/// The form denoted by a cell tree: atoms keep their text, pairs recurse
/// through both shared references.
pub open spec fn form_of(p: Pair) -> Form
    decreases p,
{
    match p {
        Pair::Atom(s) => Form::Atom(s@),
        Pair::Cons(h, t) => Form::Duo(Box::new(form_of(*h)), Box::new(form_of(*t))),
    }
}

impl View for Pair {
    type V = Form;

    open spec fn view(&self) -> Form {
        form_of(*self)
    }
}

/// The canonical empty-list / false atom.
pub open spec fn nil_form() -> Form {
    Form::Atom("NIL"@)
}

/// The canonical truth atom.
pub open spec fn t_form() -> Form {
    Form::Atom("T"@)
}

/// True exactly of the canonical `NIL` atom.
pub open spec fn is_nil(f: Form) -> bool {
    f == nil_form()
}

/// Everything but `NIL` counts as true in a predicate position.
pub open spec fn truthy(f: Form) -> bool {
    !is_nil(f)
}

/// A result of cell computation, seen at the level of forms.
pub open spec fn res_view(r: Result<Rc<Pair>, LispError>) -> Result<Form, LispError> {
    match r {
        Ok(c) => Ok(c@),
        Err(e) => Err(e),
    }
}

/// The head of a pair; an atom has none.
pub open spec fn s_car(f: Form) -> Result<Form, LispError> {
    match f {
        Form::Duo(h, _) => Ok(*h),
        Form::Atom(_) => Err(LispError::TypeError),
    }
}

/// The tail of a pair; an atom has none.
pub open spec fn s_cdr(f: Form) -> Result<Form, LispError> {
    match f {
        Form::Duo(_, t) => Ok(*t),
        Form::Atom(_) => Err(LispError::TypeError),
    }
}

/// Returns a new pair whose head and tail are shared references to `x` and `y`.
pub fn cons(x: Rc<Pair>, y: Rc<Pair>) -> (r: Rc<Pair>)
    ensures
        r@ == Form::Duo(Box::new(x@), Box::new(y@)),
{
    Rc::new(Pair::Cons(x, y))
}

/// Allocates a fresh atom cell holding the given text.
pub fn make_atom(token: &str) -> (r: Rc<Pair>)
    ensures
        r@ == Form::Atom(token@),
{
    Rc::new(Pair::Atom(token.to_owned()))
}

/// Decides whether a cell is an atom, answering with the atoms `T` / `NIL`.
pub fn atom(x: Rc<Pair>) -> (r: Rc<Pair>)
    ensures
        r@ == (if x@ is Atom {
            t_form()
        } else {
            nil_form()
        }),
{
    match &*x {
        Pair::Cons(..) => make_atom("NIL"),
        Pair::Atom(..) => make_atom("T"),
    }
}

/// Structural equality of two cell trees: same variant shape and, position by
/// position, the same atom text.
pub fn equal_cells(a: &Pair, b: &Pair) -> (r: bool)
    ensures
        r == (a@ == b@),
    decreases *a,
{
    match a {
        Pair::Atom(s1) => match b {
            Pair::Atom(s2) => *s1 == *s2,
            Pair::Cons(..) => false,
        },
        Pair::Cons(h1, t1) => match b {
            Pair::Cons(h2, t2) => equal_cells(&**h1, &**h2) && equal_cells(&**t1, &**t2),
            Pair::Atom(..) => false,
        },
    }
}

/// Decides structural equality, answering with the atoms `T` / `NIL`.
pub fn eq(x: Rc<Pair>, y: Rc<Pair>) -> (r: Rc<Pair>)
    ensures
        r@ == (if x@ == y@ {
            t_form()
        } else {
            nil_form()
        }),
{
    if equal_cells(&*x, &*y) {
        make_atom("T")
    } else {
        make_atom("NIL")
    }
}

/// The shared head of a pair; fails with `TypeError` on an atom.
pub fn car(expr: Rc<Pair>) -> (r: Result<Rc<Pair>, LispError>)
    ensures
        res_view(r) == s_car(expr@),
{
    match &*expr {
        Pair::Cons(h, _) => Ok(h.clone()),
        Pair::Atom(_) => Err(LispError::TypeError),
    }
}

/// The shared tail of a pair; fails with `TypeError` on an atom.
pub fn cdr(expr: Rc<Pair>) -> (r: Result<Rc<Pair>, LispError>)
    ensures
        res_view(r) == s_cdr(expr@),
{
    match &*expr {
        Pair::Cons(_, t) => Ok(t.clone()),
        Pair::Atom(_) => Err(LispError::TypeError),
    }
}

/// True exactly when the cell is the atom `NIL`.
pub fn null(e: &Pair) -> (r: bool)
    ensures
        r == is_nil(e@),
{
    match e {
        Pair::Atom(a) => {
            let nil_text = String::from_str("NIL");
            *a == nil_text
        },
        Pair::Cons(..) => false,
    }
}

/// Unwraps a `T`/`NIL` answer into a host boolean: everything but `NIL` is true.
pub fn to_bool(e: &Pair) -> (r: bool)
    ensures
        r == truthy(e@),
{
    !null(e)
}

} // verus!
