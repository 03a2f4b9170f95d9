//! The printer: renders a cell tree back to its canonical textual
//! s-expression: bare text for atoms, `(a b c)` for proper lists, and
//! `(a . b)` for a pair whose tail is a non-`NIL` atom.

use std::rc::Rc;
use vstd::prelude::*;

use crate::cons_cell::{null, Form, Pair};

verus! {

/// The text of the elements between the parentheses of a printed pair:
/// the head's text, then either nothing (tail `NIL`), a dotted tail
/// (other atom), or a space and the remaining elements.
pub open spec fn print_items(f: Form) -> Seq<char>
    decreases f, 0int,
{
    match f {
        Form::Atom(_) => Seq::<char>::empty(),
        Form::Duo(h, t) => print_form(*h) + (match *t {
            Form::Atom(n) => if n == "NIL"@ {
                Seq::<char>::empty()
            } else {
                " . "@ + n
            },
            Form::Duo(..) => " "@ + print_items(*t),
        }),
    }
}

/// The canonical text of a form: an atom is its own text, a pair is its
/// elements between parentheses.
pub open spec fn print_form(f: Form) -> Seq<char>
    decreases f, 1int,
{
    match f {
        Form::Atom(n) => n,
        Form::Duo(..) => "("@ + print_items(f) + ")"@,
    }
}

/// Renders a cell tree as text; the result is exactly `print_form` of its
/// model.
pub fn print_sexpr(sexpr: Rc<Pair>) -> (r: String)
    ensures
        r@ == print_form(sexpr@),
    decreases sexpr, 1int,
{
    match &*sexpr {
        Pair::Atom(a) => a.clone(),
        Pair::Cons(..) => {
            let mut out = String::from_str("(");
            let items = print_cells(&sexpr);
            out.append(items.as_str());
            out.append(")");
            out
        },
    }
}

/// Renders the elements of a pair chain, mirroring `print_items`.
fn print_cells(f: &Rc<Pair>) -> (r: String)
    ensures
        r@ == print_items(f@),
    decreases f, 0int,
{
    proof {
        reveal_with_fuel(crate::cons_cell::form_of, 5);
    }
    match &**f {
        Pair::Atom(_) => String::new(),
        Pair::Cons(h, t) => {
            let mut out = print_sexpr(h.clone());
            match &**t {
                Pair::Atom(n) => {
                    if !null(&**t) {
                        out.append(" . ");
                        out.append(n.as_str());
                        proof {
                            assert(out@ =~= print_items(f@));
                        }
                    }
                },
                Pair::Cons(..) => {
                    out.append(" ");
                    let rest = print_cells(t);
                    out.append(rest.as_str());
                    proof {
                        assert(out@ =~= print_items(f@));
                    }
                },
            }
            out
        },
    }
}

} // verus!
