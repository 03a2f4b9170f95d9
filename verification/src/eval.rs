//! The evaluator: `eval`/`apply` over forms, together with the helper
//! functions (`evcon`, `evlis`, `pair`, `append`, `assoc`, `appq`, `list`)
//! that implement the special forms and function application.
//!
//! Environments are ordinary cell lists of `(name value)` two-element lists,
//! most recently bound entry first.  Evaluation is a pure function of the
//! form, the environment, and a recursion allowance (`fuel`): a self-recursive
//! user program that would otherwise run forever instead reports
//! `DepthExceeded` once the allowance is spent.

use std::rc::Rc;
use vstd::prelude::*;

use crate::cons_cell::{
    atom, car, cdr, cons, eq, equal_cells, make_atom, null, res_view, s_car, s_cdr, Form,
    LispError, Pair, nil_form, t_form, truthy,
};

verus! {

broadcast use vstd::std_specs::control_flow::group_control_flow_axioms;

/// Head of the tail: the second element's slot.
pub open spec fn s_cadr(f: Form) -> Result<Form, LispError> {
    match s_cdr(f) {
        Ok(t) => s_car(t),
        Err(e) => Err(e),
    }
}

/// Head of the tail of the tail: the third element's slot.
pub open spec fn s_caddr(f: Form) -> Result<Form, LispError> {
    match s_cdr(f) {
        Ok(t) => s_cadr(t),
        Err(e) => Err(e),
    }
}

/// Head of the head.
pub open spec fn s_caar(f: Form) -> Result<Form, LispError> {
    match s_car(f) {
        Ok(h) => s_car(h),
        Err(e) => Err(e),
    }
}

/// Second element of the head.
pub open spec fn s_cadar(f: Form) -> Result<Form, LispError> {
    match s_car(f) {
        Ok(h) => s_cadr(h),
        Err(e) => Err(e),
    }
}

/// Third element of the head.
pub open spec fn s_caddar(f: Form) -> Result<Form, LispError> {
    match s_car(f) {
        Ok(h) => s_caddr(h),
        Err(e) => Err(e),
    }
}

/// The two-element list `(x y)`.
pub open spec fn s_list(x: Form, y: Form) -> Form {
    Form::Duo(Box::new(x), Box::new(Form::Duo(Box::new(y), Box::new(nil_form()))))
}

/// Looks a key up in an association list, front to back, so that the most
/// recent binding shadows older ones.  An exhausted environment reports
/// `UnboundSymbol`; an environment that is not a list of two-element lists
/// reports `TypeError` where taking a head fails.
pub open spec fn s_assoc(x: Form, y: Form) -> Result<Form, LispError>
    decreases y,
{
    match y {
        Form::Atom(n) => if n == "NIL"@ {
            Err(LispError::UnboundSymbol)
        } else {
            Err(LispError::TypeError)
        },
        Form::Duo(b, rest) => match *b {
            Form::Atom(_) => Err(LispError::TypeError),
            Form::Duo(k, _) => if *k == x {
                s_cadr(*b)
            } else {
                s_assoc(x, *rest)
            },
        },
    }
}

/// Prepends the bindings of the proper list `x` in front of `y`, sharing `y`.
pub open spec fn s_append(x: Form, y: Form) -> Result<Form, LispError>
    decreases x,
{
    match x {
        Form::Atom(n) => if n == "NIL"@ {
            Ok(y)
        } else {
            Err(LispError::TypeError)
        },
        Form::Duo(h, t) => match s_append(*t, y) {
            Ok(r) => Ok(Form::Duo(h, Box::new(r))),
            Err(e) => Err(e),
        },
    }
}

/// Zips two equal-length proper lists into a list of `(name value)` pairs;
/// lists whose lengths differ, or non-list arguments, report `ArityMismatch`.
pub open spec fn s_pair(x: Form, y: Form) -> Result<Form, LispError>
    decreases x,
{
    match x {
        Form::Atom(nx) => match y {
            Form::Atom(ny) => if nx == "NIL"@ && ny == "NIL"@ {
                Ok(nil_form())
            } else {
                Err(LispError::ArityMismatch)
            },
            Form::Duo(..) => Err(LispError::ArityMismatch),
        },
        Form::Duo(hx, tx) => match y {
            Form::Atom(_) => Err(LispError::ArityMismatch),
            Form::Duo(hy, ty) => match s_pair(*tx, *ty) {
                Ok(r) => Ok(Form::Duo(Box::new(s_list(*hx, *hy)), Box::new(r))),
                Err(e) => Err(e),
            },
        },
    }
}

/// Wraps every element of a proper list in `(QUOTE _)`, so that a later
/// evaluation treats the elements as literals.
pub open spec fn s_appq(m: Form) -> Result<Form, LispError>
    decreases m,
{
    match m {
        Form::Atom(n) => if n == "NIL"@ {
            Ok(nil_form())
        } else {
            Err(LispError::TypeError)
        },
        Form::Duo(h, t) => match s_appq(*t) {
            Ok(r) => Ok(
                Form::Duo(Box::new(s_list(Form::Atom("QUOTE"@), *h)), Box::new(r)),
            ),
            Err(e) => Err(e),
        },
    }
}

/// What `eval` returns, as a function of the form, the environment and the
/// recursion allowance.  Each nested `eval` costs one unit of fuel; running
/// out reports `DepthExceeded`.
pub open spec fn s_eval(e: Form, a: Form, fuel: nat) -> Result<Form, LispError>
    decreases fuel, e, 2int,
{
    if fuel == 0 {
        Err(LispError::DepthExceeded)
    } else {
        match e {
            Form::Atom(name) => if name == "NIL"@ || name == "T"@ {
                Ok(Form::Atom(name))
            } else {
                s_assoc(Form::Atom(name), a)
            },
            Form::Duo(h, t) => match *h {
                Form::Atom(op) => if op == "QUOTE"@ {
                    s_cadr(e)
                } else if op == "ATOM"@ {
                    match s_cadr(e) {
                        Ok(arg) => match s_eval(arg, a, (fuel - 1) as nat) {
                            Ok(v) => Ok(if v is Atom {
                                t_form()
                            } else {
                                nil_form()
                            }),
                            Err(er) => Err(er),
                        },
                        Err(er) => Err(er),
                    }
                } else if op == "EQ"@ {
                    match s_cadr(e) {
                        Ok(a1) => match s_eval(a1, a, (fuel - 1) as nat) {
                            Ok(v1) => match s_caddr(e) {
                                Ok(a2) => match s_eval(a2, a, (fuel - 1) as nat) {
                                    Ok(v2) => Ok(if v1 == v2 {
                                        t_form()
                                    } else {
                                        nil_form()
                                    }),
                                    Err(er) => Err(er),
                                },
                                Err(er) => Err(er),
                            },
                            Err(er) => Err(er),
                        },
                        Err(er) => Err(er),
                    }
                } else if op == "COND"@ {
                    s_evcon(*t, a, (fuel - 1) as nat)
                } else if op == "CAR"@ {
                    match s_cadr(e) {
                        Ok(arg) => match s_eval(arg, a, (fuel - 1) as nat) {
                            Ok(v) => s_car(v),
                            Err(er) => Err(er),
                        },
                        Err(er) => Err(er),
                    }
                } else if op == "CDR"@ {
                    match s_cadr(e) {
                        Ok(arg) => match s_eval(arg, a, (fuel - 1) as nat) {
                            Ok(v) => s_cdr(v),
                            Err(er) => Err(er),
                        },
                        Err(er) => Err(er),
                    }
                } else if op == "CONS"@ {
                    match s_cadr(e) {
                        Ok(a1) => match s_eval(a1, a, (fuel - 1) as nat) {
                            Ok(v1) => match s_caddr(e) {
                                Ok(a2) => match s_eval(a2, a, (fuel - 1) as nat) {
                                    Ok(v2) => Ok(Form::Duo(Box::new(v1), Box::new(v2))),
                                    Err(er) => Err(er),
                                },
                                Err(er) => Err(er),
                            },
                            Err(er) => Err(er),
                        },
                        Err(er) => Err(er),
                    }
                } else {
                    // A named function: look the name up, evaluate the
                    // arguments, then re-evaluate the call with the arguments
                    // protected by `QUOTE`.
                    match s_assoc(*h, a) {
                        Ok(f) => match s_evlis(*t, a, (fuel - 1) as nat) {
                            Ok(vals) => match s_appq(vals) {
                                Ok(qargs) => s_eval(
                                    Form::Duo(Box::new(f), Box::new(qargs)),
                                    a,
                                    (fuel - 1) as nat,
                                ),
                                Err(er) => Err(er),
                            },
                            Err(er) => Err(er),
                        },
                        Err(er) => Err(er),
                    }
                },
                Form::Duo(hh, _) => match *hh {
                    Form::Atom(op2) => if op2 == "LABEL"@ {
                        // ((LABEL name lam) args...): bind name to the whole
                        // labeled function, then evaluate (lam args...).
                        match s_caddar(e) {
                            Ok(lam) => match s_cadar(e) {
                                Ok(name) => s_eval(
                                    Form::Duo(Box::new(lam), t),
                                    Form::Duo(Box::new(s_list(name, *h)), Box::new(a)),
                                    (fuel - 1) as nat,
                                ),
                                Err(er) => Err(er),
                            },
                            Err(er) => Err(er),
                        }
                    } else if op2 == "LAMBDA"@ {
                        // ((LAMBDA params body) args...): evaluate the
                        // arguments, bind them to the parameters in front of
                        // the current environment, evaluate the body there.
                        match s_caddar(e) {
                            Ok(body) => match s_cadar(e) {
                                Ok(params) => match s_evlis(*t, a, (fuel - 1) as nat) {
                                    Ok(vals) => match s_pair(params, vals) {
                                        Ok(frame) => match s_append(frame, a) {
                                            Ok(env2) => s_eval(body, env2, (fuel - 1) as nat),
                                            Err(er) => Err(er),
                                        },
                                        Err(er) => Err(er),
                                    },
                                    Err(er) => Err(er),
                                },
                                Err(er) => Err(er),
                            },
                            Err(er) => Err(er),
                        }
                    } else {
                        Err(LispError::UndefinedFunction)
                    },
                    Form::Duo(..) => Err(LispError::UndefinedFunction),
                },
            },
        }
    }
}

/// What `evcon` returns: the value of the result expression of the first
/// clause whose predicate evaluates to non-`NIL`; `NoMatchingClause` when the
/// clauses run out.
pub open spec fn s_evcon(c: Form, a: Form, fuel: nat) -> Result<Form, LispError>
    decreases fuel, c, 1int,
{
    match c {
        Form::Atom(n) => if n == "NIL"@ {
            Err(LispError::NoMatchingClause)
        } else {
            Err(LispError::TypeError)
        },
        Form::Duo(cl, rest) => match *cl {
            Form::Atom(_) => Err(LispError::TypeError),
            Form::Duo(p, pr) => match s_eval(*p, a, fuel) {
                Ok(v) => if truthy(v) {
                    match *pr {
                        Form::Atom(_) => Err(LispError::TypeError),
                        Form::Duo(res, _) => s_eval(*res, a, fuel),
                    }
                } else {
                    s_evcon(*rest, a, fuel)
                },
                Err(er) => Err(er),
            },
        },
    }
}

/// What `evlis` returns: the list of the values of the elements, in order,
/// stopping at the first failure.
pub open spec fn s_evlis(m: Form, a: Form, fuel: nat) -> Result<Form, LispError>
    decreases fuel, m, 1int,
{
    match m {
        Form::Atom(n) => if n == "NIL"@ {
            Ok(nil_form())
        } else {
            Err(LispError::TypeError)
        },
        Form::Duo(h, t) => match s_eval(*h, a, fuel) {
            Ok(v) => match s_evlis(*t, a, fuel) {
                Ok(vs) => Ok(Form::Duo(Box::new(v), Box::new(vs))),
                Err(er) => Err(er),
            },
            Err(er) => Err(er),
        },
    }
}

/// Second element of a list; fails where the shape is missing.
pub fn cadr(e: Rc<Pair>) -> (r: Result<Rc<Pair>, LispError>)
    ensures
        res_view(r) == s_cadr(e@),
{
    car(cdr(e)?)
}

/// Third element of a list.
pub fn caddr(e: Rc<Pair>) -> (r: Result<Rc<Pair>, LispError>)
    ensures
        res_view(r) == s_caddr(e@),
{
    cadr(cdr(e)?)
}

/// Head of the head.
pub fn caar(e: Rc<Pair>) -> (r: Result<Rc<Pair>, LispError>)
    ensures
        res_view(r) == s_caar(e@),
{
    car(car(e)?)
}

/// Second element of the head.
pub fn cadar(e: Rc<Pair>) -> (r: Result<Rc<Pair>, LispError>)
    ensures
        res_view(r) == s_cadar(e@),
{
    cadr(car(e)?)
}

/// Third element of the head.
pub fn caddar(e: Rc<Pair>) -> (r: Result<Rc<Pair>, LispError>)
    ensures
        res_view(r) == s_caddar(e@),
{
    caddr(car(e)?)
}

/// Builds the two-element list `(x y)`.
pub fn list(x: Rc<Pair>, y: Rc<Pair>) -> (r: Rc<Pair>)
    ensures
        r@ == s_list(x@, y@),
{
    cons(x, cons(y, make_atom("NIL")))
}

/// Linear lookup in an association-list environment; the most recent binding
/// wins, and a miss reports `UnboundSymbol`.
pub fn assoc(x: Rc<Pair>, y: Rc<Pair>) -> (r: Result<Rc<Pair>, LispError>)
    ensures
        res_view(r) == s_assoc(x@, y@),
    decreases y,
{
    proof {
        reveal_with_fuel(crate::cons_cell::form_of, 5);
    }
    match &*y {
        Pair::Atom(_) => if null(&*y) {
            Err(LispError::UnboundSymbol)
        } else {
            Err(LispError::TypeError)
        },
        Pair::Cons(b, rest) => match &**b {
            Pair::Atom(_) => Err(LispError::TypeError),
            Pair::Cons(k, _) => if equal_cells(&**k, &*x) {
                cadr(b.clone())
            } else {
                assoc(x, rest.clone())
            },
        },
    }
}

/// Prepends the bindings of `x` in front of `y`; `y` itself is shared, not
/// copied.
pub fn append(x: Rc<Pair>, y: Rc<Pair>) -> (r: Result<Rc<Pair>, LispError>)
    ensures
        res_view(r) == s_append(x@, y@),
    decreases x,
{
    match &*x {
        Pair::Atom(_) => if null(&*x) {
            Ok(y)
        } else {
            Err(LispError::TypeError)
        },
        Pair::Cons(h, t) => Ok(cons(h.clone(), append(t.clone(), y)?)),
    }
}

/// Zips parameter and argument lists into a list of bindings; a length
/// mismatch reports `ArityMismatch`.
pub fn pair(x: Rc<Pair>, y: Rc<Pair>) -> (r: Result<Rc<Pair>, LispError>)
    ensures
        res_view(r) == s_pair(x@, y@),
    decreases x,
{
    match &*x {
        Pair::Atom(_) => if null(&*x) && null(&*y) {
            Ok(make_atom("NIL"))
        } else {
            Err(LispError::ArityMismatch)
        },
        Pair::Cons(hx, tx) => match &*y {
            Pair::Atom(_) => Err(LispError::ArityMismatch),
            Pair::Cons(hy, ty) => {
                let rest = pair(tx.clone(), ty.clone())?;
                Ok(cons(list(hx.clone(), hy.clone()), rest))
            },
        },
    }
}

/// Puts the atom `QUOTE` in front of every element of a list, so that a later
/// evaluation regards the elements as standing for themselves.
pub fn appq(m: Rc<Pair>) -> (r: Result<Rc<Pair>, LispError>)
    ensures
        res_view(r) == s_appq(m@),
    decreases m,
{
    match &*m {
        Pair::Atom(_) => if null(&*m) {
            Ok(make_atom("NIL"))
        } else {
            Err(LispError::TypeError)
        },
        Pair::Cons(h, t) => {
            let rest = appq(t.clone())?;
            Ok(cons(list(make_atom("QUOTE"), h.clone()), rest))
        },
    }
}

/// Evaluates a form in an environment, spending at most `fuel` nested `eval`
/// steps.  The result is exactly `s_eval` of the models of the inputs.
pub fn eval(e: Rc<Pair>, a: Rc<Pair>, fuel: u64) -> (r: Result<Rc<Pair>, LispError>)
    ensures
        res_view(r) == s_eval(e@, a@, fuel as nat),
    decreases fuel, e, 2int,
{
    proof {
        reveal_with_fuel(crate::cons_cell::form_of, 5);
    }
    if fuel == 0 {
        return Err(LispError::DepthExceeded);
    }
    match &*e {
        Pair::Atom(name) => {
            if *name == String::from_str("NIL") || *name == String::from_str("T") {
                Ok(e.clone())
            } else {
                assoc(e.clone(), a)
            }
        },
        Pair::Cons(h, t) => match &**h {
            Pair::Atom(op) => {
                if *op == String::from_str("QUOTE") {
                    cadr(e.clone())
                } else if *op == String::from_str("ATOM") {
                    let arg = cadr(e.clone())?;
                    let v = eval(arg, a, fuel - 1)?;
                    Ok(atom(v))
                } else if *op == String::from_str("EQ") {
                    let a1 = cadr(e.clone())?;
                    let v1 = eval(a1, a.clone(), fuel - 1)?;
                    let a2 = caddr(e.clone())?;
                    let v2 = eval(a2, a, fuel - 1)?;
                    Ok(eq(v1, v2))
                } else if *op == String::from_str("COND") {
                    evcon(t.clone(), a, fuel - 1)
                } else if *op == String::from_str("CAR") {
                    let arg = cadr(e.clone())?;
                    let v = eval(arg, a, fuel - 1)?;
                    car(v)
                } else if *op == String::from_str("CDR") {
                    let arg = cadr(e.clone())?;
                    let v = eval(arg, a, fuel - 1)?;
                    cdr(v)
                } else if *op == String::from_str("CONS") {
                    let a1 = cadr(e.clone())?;
                    let v1 = eval(a1, a.clone(), fuel - 1)?;
                    let a2 = caddr(e.clone())?;
                    let v2 = eval(a2, a.clone(), fuel - 1)?;
                    Ok(cons(v1, v2))
                } else {
                    let f = assoc(h.clone(), a.clone())?;
                    let vals = evlis(t.clone(), a.clone(), fuel - 1)?;
                    let qargs = appq(vals)?;
                    eval(cons(f, qargs), a, fuel - 1)
                }
            },
            Pair::Cons(hh, _) => match &**hh {
                Pair::Atom(op2) => {
                    if *op2 == String::from_str("LABEL") {
                        let lam = caddar(e.clone())?;
                        let name = cadar(e.clone())?;
                        let env2 = cons(list(name, h.clone()), a.clone());
                        eval(cons(lam, t.clone()), env2, fuel - 1)
                    } else if *op2 == String::from_str("LAMBDA") {
                        let body = caddar(e.clone())?;
                        let params = cadar(e.clone())?;
                        let vals = evlis(t.clone(), a.clone(), fuel - 1)?;
                        let frame = pair(params, vals)?;
                        let env2 = append(frame, a.clone())?;
                        eval(body, env2, fuel - 1)
                    } else {
                        Err(LispError::UndefinedFunction)
                    }
                },
                Pair::Cons(..) => Err(LispError::UndefinedFunction),
            },
        },
    }
}

/// Evaluates the clauses of a `COND`, returning the result of the first
/// clause whose predicate holds.
pub fn evcon(c: Rc<Pair>, a: Rc<Pair>, fuel: u64) -> (r: Result<Rc<Pair>, LispError>)
    ensures
        res_view(r) == s_evcon(c@, a@, fuel as nat),
    decreases fuel, c, 1int,
{
    proof {
        reveal_with_fuel(crate::cons_cell::form_of, 5);
    }
    match &*c {
        Pair::Atom(_) => if null(&*c) {
            Err(LispError::NoMatchingClause)
        } else {
            Err(LispError::TypeError)
        },
        Pair::Cons(cl, rest) => match &**cl {
            Pair::Atom(_) => Err(LispError::TypeError),
            Pair::Cons(p, pr) => {
                let v = eval(p.clone(), a.clone(), fuel)?;
                if to_bool_cell(&v) {
                    match &**pr {
                        Pair::Atom(_) => Err(LispError::TypeError),
                        Pair::Cons(res, _) => eval(res.clone(), a, fuel),
                    }
                } else {
                    evcon(rest.clone(), a, fuel)
                }
            },
        },
    }
}

/// Evaluates every element of a list, keeping the order.
pub fn evlis(m: Rc<Pair>, a: Rc<Pair>, fuel: u64) -> (r: Result<Rc<Pair>, LispError>)
    ensures
        res_view(r) == s_evlis(m@, a@, fuel as nat),
    decreases fuel, m, 1int,
{
    match &*m {
        Pair::Atom(_) => if null(&*m) {
            Ok(make_atom("NIL"))
        } else {
            Err(LispError::TypeError)
        },
        Pair::Cons(h, t) => {
            let v = eval(h.clone(), a.clone(), fuel)?;
            let vs = evlis(t.clone(), a, fuel)?;
            Ok(cons(v, vs))
        },
    }
}

/// Applies a function form to already-evaluated arguments by quoting each one
/// and evaluating the rebuilt call in the empty environment.
pub fn apply(f: Rc<Pair>, args: Rc<Pair>, fuel: u64) -> (r: Result<Rc<Pair>, LispError>)
    ensures
        res_view(r) == (match s_appq(args@) {
            Ok(q) => s_eval(Form::Duo(Box::new(f@), Box::new(q)), nil_form(), fuel as nat),
            Err(er) => Err(er),
        }),
{
    let q = appq(args)?;
    eval(cons(f, q), make_atom("NIL"), fuel)
}

/// `to_bool` on a borrowed cell, to keep `evcon` free of extra allocation.
fn to_bool_cell(e: &Rc<Pair>) -> (r: bool)
    ensures
        r == truthy(e@),
{
    !null(&**e)
}

} // verus!
