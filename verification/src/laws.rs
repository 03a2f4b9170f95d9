//! The laws the library promises, stated over the mathematical models and
//! proved once and for all: structural equality is an equivalence, a fresh
//! pair gives back its parts, a lookup of an unbound symbol fails with
//! `UnboundSymbol`, the recursion allowance never changes an answer it
//! permits, and printing a proper form and reading the text back yields the
//! same form.

use vstd::prelude::*;

use crate::cons_cell::{nil_form, s_car, s_cdr, truthy, Form, LispError};
use crate::eval::{
    s_append, s_appq, s_assoc, s_cadar, s_caddar, s_caddr, s_cadr, s_eval, s_evcon, s_evlis,
    s_list, s_pair,
};
use crate::parser::{
    flush_token, is_space_char, is_token_break, tok_loop, tok_parse_form, tok_parse_list,
    tokenize_chars, upper_char,
};
use crate::printer::{print_form, print_items};

verus! {

/// Structural equality of cell trees is reflexive: `eq(x, x)` answers `T`
/// for every cell, because a form always equals itself.
pub proof fn lemma_equal_reflexive(x: Form)
    ensures
        x == x,
{
}

/// Structural equality is symmetric: `eq(x, y)` and `eq(y, x)` agree.
pub proof fn lemma_equal_symmetric(x: Form, y: Form)
    ensures
        (x == y) == (y == x),
{
}

/// Structural equality is transitive: cells equal to a common cell are equal
/// to each other.
pub proof fn lemma_equal_transitive(x: Form, y: Form, z: Form)
    ensures
        x == y && y == z ==> x == z,
{
}

/// A pair built from `x` and `y` gives `x` back as its head and `y` back as
/// its tail: `head(make_pair(x, y)) == x` and `tail(make_pair(x, y)) == y`.
pub proof fn lemma_cons_car_cdr(x: Form, y: Form)
    ensures
        s_car(Form::Duo(Box::new(x), Box::new(y))) == Ok::<Form, LispError>(x),
        s_cdr(Form::Duo(Box::new(x), Box::new(y))) == Ok::<Form, LispError>(y),
{
}

/// An environment of the documented shape: a proper list whose entries are
/// pairs (a key with at least a value slot behind it).
pub open spec fn well_formed_env(env: Form) -> bool
    decreases env,
{
    match env {
        Form::Atom(n) => n == "NIL"@,
        Form::Duo(b, rest) => (*b is Duo) && well_formed_env(*rest),
    }
}

/// Whether some entry of the environment has `x` as its key.
pub open spec fn env_binds(env: Form, x: Form) -> bool
    decreases env,
{
    match env {
        Form::Atom(_) => false,
        Form::Duo(b, rest) => (match *b {
            Form::Duo(k, _) => *k == x,
            Form::Atom(_) => false,
        }) || env_binds(*rest, x),
    }
}

/// Looking up a symbol that no entry of a well-formed environment binds
/// fails with `UnboundSymbol`.
pub proof fn lemma_unbound_symbol(x: Form, env: Form)
    requires
        well_formed_env(env),
        !env_binds(env, x),
    ensures
        s_assoc(x, env) == Err::<Form, LispError>(LispError::UnboundSymbol),
    decreases env,
{
    match env {
        Form::Atom(_) => {},
        Form::Duo(b, rest) => {
            lemma_unbound_symbol(x, *rest);
        },
    }
}

/// An atom's text that survives a round trip: non-empty, free of the
/// characters that split tokens, and already upper case.
pub open spec fn atom_name_ok(n: Seq<char>) -> bool {
    n.len() > 0 && forall|i: int|
        0 <= i < n.len() ==> !is_token_break(#[trigger] n[i]) && upper_char(n[i]) == n[i]
}

/// A form made only of proper lists and such atoms: every pair chain ends in
/// `NIL` and every element is itself proper.
pub open spec fn proper_form(f: Form) -> bool
    decreases f,
{
    match f {
        Form::Atom(n) => atom_name_ok(n),
        Form::Duo(h, t) => proper_form(*h) && (*t == nil_form() || (*t is Duo && proper_form(
            *t,
        ))),
    }
}

/// The token sequence of the printed elements of a pair chain.
pub open spec fn items_tokens(f: Form) -> Seq<Seq<char>>
    decreases f, 0int,
{
    match f {
        Form::Atom(_) => Seq::<Seq<char>>::empty(),
        Form::Duo(h, t) => form_tokens(*h) + (match *t {
            Form::Atom(n) => if n == "NIL"@ {
                Seq::<Seq<char>>::empty()
            } else {
                seq!["."@, n]
            },
            Form::Duo(..) => items_tokens(*t),
        }),
    }
}

/// The token sequence of a printed form.
pub open spec fn form_tokens(f: Form) -> Seq<Seq<char>>
    decreases f, 1int,
{
    match f {
        Form::Atom(n) => seq![n],
        Form::Duo(..) => seq!["("@] + items_tokens(f) + seq![")"@],
    }
}

/// A printed form always has at least one token.
pub proof fn lemma_form_tokens_nonempty(f: Form)
    ensures
        form_tokens(f).len() >= 1,
{
    match f {
        Form::Atom(_) => {},
        Form::Duo(..) => {},
    }
}

/// A proper atom's text is none of the three one-character marker tokens.
pub proof fn lemma_atom_token_is_plain(n: Seq<char>)
    requires
        atom_name_ok(n),
    ensures
        n != "("@,
        n != ")"@,
        n != "'"@,
{
    reveal_strlit("(");
    reveal_strlit(")");
    reveal_strlit("'");
    if n == "("@ {
        assert(is_token_break(n[0]));
    }
    if n == ")"@ {
        assert(is_token_break(n[0]));
    }
    if n == "'"@ {
        assert(is_token_break(n[0]));
    }
}

/// Reading the printed tokens of a proper form, followed by anything, gives
/// back exactly that form and leaves exactly the rest.
pub proof fn lemma_read_print_tokens(f: Form, rest: Seq<Seq<char>>)
    requires
        proper_form(f),
    ensures
        tok_parse_form(form_tokens(f) + rest) == Ok::<(Form, Seq<Seq<char>>), LispError>(
            (f, rest),
        ),
    decreases f, 1int,
{
    let toks = form_tokens(f) + rest;
    match f {
        Form::Atom(n) => {
            lemma_atom_token_is_plain(n);
            assert(toks[0] == n);
            assert(toks.drop_first() =~~= rest);
        },
        Form::Duo(..) => {
            assert(toks[0] == "("@);
            assert(toks.drop_first() =~~= items_tokens(f) + (seq![")"@] + rest));
            lemma_read_print_items(f, rest);
        },
    }
}

/// Reading the printed element tokens of a proper pair chain, followed by
/// the closing `)` and anything, gives back that chain and leaves the rest.
pub proof fn lemma_read_print_items(f: Form, rest: Seq<Seq<char>>)
    requires
        f is Duo,
        proper_form(f),
    ensures
        tok_parse_list(items_tokens(f) + (seq![")"@] + rest)) == Ok::<
            (Form, Seq<Seq<char>>),
            LispError,
        >((f, rest)),
    decreases f, 0int,
{
    reveal_strlit("(");
    reveal_strlit(")");
    let toks = items_tokens(f) + (seq![")"@] + rest);
    match f {
        Form::Atom(_) => {},
        Form::Duo(h, t) => {
            lemma_form_tokens_nonempty(*h);
            assert(toks[0] == form_tokens(*h)[0]);
            assert(proper_form(*h));
            assert("("@[0] == '(');
            assert(")"@[0] == ')');
            match *h {
                Form::Atom(n) => {
                    assert(atom_name_ok(n));
                    lemma_atom_token_is_plain(n);
                    assert(toks[0] == n);
                },
                Form::Duo(..) => {
                    assert(toks[0] == "("@);
                    assert("("@ != ")"@);
                },
            }
            let after_head = (match *t {
                Form::Atom(n) => Seq::<Seq<char>>::empty(),
                Form::Duo(..) => items_tokens(*t),
            }) + (seq![")"@] + rest);
            assert(toks =~~= form_tokens(*h) + after_head);
            lemma_read_print_tokens(*h, after_head);
            assert(after_head.len() < toks.len());
            if *t == nil_form() {
                assert(after_head =~~= seq![")"@] + rest);
                assert(after_head[0] == ")"@);
                assert(after_head.drop_first() =~~= rest);
                assert(Form::Duo(Box::new(*h), Box::new(nil_form())) == f);
            } else {
                lemma_read_print_items(*t, rest);
                assert(after_head =~~= items_tokens(*t) + (seq![")"@] + rest));
            }
        },
    }
}

/// Evaluating an atom other than the self-evaluating `NIL` and `T` in a
/// well-formed environment that does not bind it fails with
/// `UnboundSymbol`.
pub proof fn lemma_eval_unbound_symbol(n: Seq<char>, env: Form, fuel: nat)
    requires
        n != "NIL"@,
        n != "T"@,
        fuel > 0,
        well_formed_env(env),
        !env_binds(env, Form::Atom(n)),
    ensures
        s_eval(Form::Atom(n), env, fuel) == Err::<Form, LispError>(LispError::UnboundSymbol),
{
    lemma_unbound_symbol(Form::Atom(n), env);
}

/// Scanning a run of plain (non-break, already upper-case) characters only
/// extends the pending atom text.
pub proof fn lemma_tok_atom_run(cs: Seq<char>, s: Seq<char>, cur: Seq<char>)
    requires
        forall|i: int|
            0 <= i < cs.len() ==> !is_token_break(#[trigger] cs[i]) && upper_char(cs[i]) == cs[i],
    ensures
        tok_loop(cs + s, cur) == tok_loop(s, cur + cs),
    decreases cs.len(),
{
    if cs.len() == 0 {
        assert(cs + s =~~= s);
        assert(cur + cs =~~= cur);
    } else {
        assert((cs + s)[0] == cs[0]);
        assert((cs + s).drop_first() =~~= cs.drop_first() + s);
        assert(upper_char(cs[0]) == cs[0]);
        lemma_tok_atom_run(cs.drop_first(), s, cur.push(cs[0]));
        assert(cur.push(cs[0]) + cs.drop_first() =~~= cur + cs);
    }
}

/// At a break character, or at the end of the text, the pending atom text
/// flushes as one token of its own.
pub proof fn lemma_tok_break(s: Seq<char>, cur: Seq<char>)
    requires
        s.len() == 0 || is_token_break(s[0]),
    ensures
        tok_loop(s, cur) == flush_token(cur) + tok_loop(s, Seq::<char>::empty()),
{
    if s.len() == 0 {
        assert(flush_token(cur) + flush_token(Seq::<char>::empty()) =~~= flush_token(cur));
    } else if is_space_char(s[0]) {
        assert(flush_token(cur) + (flush_token(Seq::<char>::empty()) + tok_loop(
            s.drop_first(),
            Seq::<char>::empty(),
        )) =~~= flush_token(cur) + tok_loop(s.drop_first(), Seq::<char>::empty()));
    } else if s[0] == '(' {
        assert(flush_token(cur) + ((flush_token(Seq::<char>::empty()) + seq!["("@]) + tok_loop(
            s.drop_first(),
            Seq::<char>::empty(),
        )) =~~= (flush_token(cur) + seq!["("@]) + tok_loop(s.drop_first(), Seq::<char>::empty()));
    } else if s[0] == ')' {
        assert(flush_token(cur) + ((flush_token(Seq::<char>::empty()) + seq![")"@]) + tok_loop(
            s.drop_first(),
            Seq::<char>::empty(),
        )) =~~= (flush_token(cur) + seq![")"@]) + tok_loop(s.drop_first(), Seq::<char>::empty()));
    } else {
        assert(s[0] == '\'');
        assert(flush_token(cur) + ((flush_token(Seq::<char>::empty()) + seq!["'"@]) + tok_loop(
            s.drop_first(),
            Seq::<char>::empty(),
        )) =~~= (flush_token(cur) + seq!["'"@]) + tok_loop(s.drop_first(), Seq::<char>::empty()));
    }
}

/// Tokenizing the printed text of a proper form, followed by a break or the
/// end, yields the form's tokens followed by the tokens of the rest.
pub proof fn lemma_tokenize_print_form(f: Form, s: Seq<char>)
    requires
        proper_form(f),
        s.len() == 0 || is_token_break(s[0]),
    ensures
        tok_loop(print_form(f) + s, Seq::<char>::empty()) == form_tokens(f) + tok_loop(
            s,
            Seq::<char>::empty(),
        ),
    decreases f, 1int,
{
    reveal_strlit("(");
    reveal_strlit(")");
    match f {
        Form::Atom(n) => {
            assert(atom_name_ok(n));
            lemma_tok_atom_run(n, s, Seq::<char>::empty());
            assert(print_form(f) + s =~~= n + s);
            assert(Seq::<char>::empty() + n =~~= n);
            lemma_tok_break(s, n);
        },
        Form::Duo(..) => {
            let text = print_form(f) + s;
            assert("("@[0] == '(');
            assert(text[0] == '(');
            assert(!is_space_char('('));
            assert(text.drop_first() =~~= print_items(f) + (")"@ + s));
            assert((")"@ + s)[0] == ')');
            assert(is_token_break(')'));
            lemma_tokenize_print_items(f, ")"@ + s);
            assert((")"@ + s).drop_first() =~~= s);
            assert((flush_token(Seq::<char>::empty()) + seq!["("@]) + (items_tokens(f) + ((
            flush_token(Seq::<char>::empty()) + seq![")"@]) + tok_loop(s, Seq::<char>::empty())))
                =~~= ((seq!["("@] + items_tokens(f) + seq![")"@]) + tok_loop(
                s,
                Seq::<char>::empty(),
            )));
        },
    }
}

/// Tokenizing the printed elements of a proper pair chain, followed by a
/// break, yields the element tokens followed by the tokens of the rest.
pub proof fn lemma_tokenize_print_items(f: Form, s: Seq<char>)
    requires
        f is Duo,
        proper_form(f),
        s.len() > 0 && is_token_break(s[0]),
    ensures
        tok_loop(print_items(f) + s, Seq::<char>::empty()) == items_tokens(f) + tok_loop(
            s,
            Seq::<char>::empty(),
        ),
    decreases f, 0int,
{
    reveal_strlit(" ");
    match f {
        Form::Atom(_) => {},
        Form::Duo(h, t) => {
            assert(proper_form(*h));
            if *t == nil_form() {
                assert(print_items(f) + s =~~= print_form(*h) + s);
                lemma_tokenize_print_form(*h, s);
                assert(items_tokens(f) =~~= form_tokens(*h));
            } else {
                let s2 = " "@ + (print_items(*t) + s);
                assert(print_items(f) + s =~~= print_form(*h) + s2);
                assert(" "@[0] == ' ');
                assert(s2[0] == ' ');
                assert(is_space_char(' '));
                lemma_tokenize_print_form(*h, s2);
                assert(s2.drop_first() =~~= print_items(*t) + s);
                lemma_tokenize_print_items(*t, s);
                assert(form_tokens(*h) + (flush_token(Seq::<char>::empty()) + (items_tokens(*t)
                    + tok_loop(s, Seq::<char>::empty()))) =~~= (form_tokens(*h) + items_tokens(
                    *t,
                )) + tok_loop(s, Seq::<char>::empty()));
            }
        },
    }
}

/// The recursion allowance only cuts evaluation short, it never changes an
/// answer: a result other than `DepthExceeded` reached within some
/// allowance is the result for every larger allowance as well.
pub proof fn lemma_eval_fuel_monotone(e: Form, a: Form, fuel1: nat, fuel2: nat)
    requires
        fuel1 <= fuel2,
        s_eval(e, a, fuel1) != Err::<Form, LispError>(LispError::DepthExceeded),
    ensures
        s_eval(e, a, fuel2) == s_eval(e, a, fuel1),
    decreases fuel1, e, 2int,
{
    let f1 = (fuel1 - 1) as nat;
    let f2 = (fuel2 - 1) as nat;
    match e {
        Form::Atom(_) => {},
        Form::Duo(h, t) => match *h {
            Form::Atom(op) => {
                if op == "QUOTE"@ {
                } else if op == "ATOM"@ {
                    match s_cadr(e) {
                        Ok(arg) => {
                            lemma_eval_fuel_monotone(arg, a, f1, f2);
                        },
                        Err(_) => {},
                    }
                } else if op == "EQ"@ {
                    match s_cadr(e) {
                        Ok(a1) => {
                            lemma_eval_fuel_monotone(a1, a, f1, f2);
                            match s_eval(a1, a, f1) {
                                Ok(_) => match s_caddr(e) {
                                    Ok(a2) => {
                                        lemma_eval_fuel_monotone(a2, a, f1, f2);
                                    },
                                    Err(_) => {},
                                },
                                Err(_) => {},
                            }
                        },
                        Err(_) => {},
                    }
                } else if op == "COND"@ {
                    lemma_evcon_fuel_monotone(*t, a, f1, f2);
                } else if op == "CAR"@ || op == "CDR"@ {
                    match s_cadr(e) {
                        Ok(arg) => {
                            lemma_eval_fuel_monotone(arg, a, f1, f2);
                        },
                        Err(_) => {},
                    }
                } else if op == "CONS"@ {
                    match s_cadr(e) {
                        Ok(a1) => {
                            lemma_eval_fuel_monotone(a1, a, f1, f2);
                            match s_eval(a1, a, f1) {
                                Ok(_) => match s_caddr(e) {
                                    Ok(a2) => {
                                        lemma_eval_fuel_monotone(a2, a, f1, f2);
                                    },
                                    Err(_) => {},
                                },
                                Err(_) => {},
                            }
                        },
                        Err(_) => {},
                    }
                } else {
                    match s_assoc(*h, a) {
                        Ok(f) => {
                            lemma_evlis_fuel_monotone(*t, a, f1, f2);
                            match s_evlis(*t, a, f1) {
                                Ok(vals) => match s_appq(vals) {
                                    Ok(qargs) => {
                                        lemma_eval_fuel_monotone(
                                            Form::Duo(Box::new(f), Box::new(qargs)),
                                            a,
                                            f1,
                                            f2,
                                        );
                                    },
                                    Err(_) => {},
                                },
                                Err(_) => {},
                            }
                        },
                        Err(_) => {},
                    }
                }
            },
            Form::Duo(hh, _) => match *hh {
                Form::Atom(op2) => {
                    if op2 == "LABEL"@ {
                        match s_caddar(e) {
                            Ok(lam) => match s_cadar(e) {
                                Ok(name) => {
                                    lemma_eval_fuel_monotone(
                                        Form::Duo(Box::new(lam), t),
                                        Form::Duo(Box::new(s_list(name, *h)), Box::new(a)),
                                        f1,
                                        f2,
                                    );
                                },
                                Err(_) => {},
                            },
                            Err(_) => {},
                        }
                    } else if op2 == "LAMBDA"@ {
                        match s_caddar(e) {
                            Ok(body) => match s_cadar(e) {
                                Ok(params) => {
                                    lemma_evlis_fuel_monotone(*t, a, f1, f2);
                                    match s_evlis(*t, a, f1) {
                                        Ok(vals) => match s_pair(params, vals) {
                                            Ok(frame) => match s_append(frame, a) {
                                                Ok(env2) => {
                                                    lemma_eval_fuel_monotone(body, env2, f1, f2);
                                                },
                                                Err(_) => {},
                                            },
                                            Err(_) => {},
                                        },
                                        Err(_) => {},
                                    }
                                },
                                Err(_) => {},
                            },
                            Err(_) => {},
                        }
                    }
                },
                Form::Duo(..) => {},
            },
        },
    }
}

/// Fuel-independence of `evcon`, needed alongside the same law for `eval`.
pub proof fn lemma_evcon_fuel_monotone(c: Form, a: Form, fuel1: nat, fuel2: nat)
    requires
        fuel1 <= fuel2,
        s_evcon(c, a, fuel1) != Err::<Form, LispError>(LispError::DepthExceeded),
    ensures
        s_evcon(c, a, fuel2) == s_evcon(c, a, fuel1),
    decreases fuel1, c, 1int,
{
    match c {
        Form::Atom(_) => {},
        Form::Duo(cl, rest) => match *cl {
            Form::Atom(_) => {},
            Form::Duo(p, pr) => {
                lemma_eval_fuel_monotone(*p, a, fuel1, fuel2);
                match s_eval(*p, a, fuel1) {
                    Ok(v) => if truthy(v) {
                        match *pr {
                            Form::Atom(_) => {},
                            Form::Duo(res, _) => {
                                lemma_eval_fuel_monotone(*res, a, fuel1, fuel2);
                            },
                        }
                    } else {
                        lemma_evcon_fuel_monotone(*rest, a, fuel1, fuel2);
                    },
                    Err(_) => {},
                }
            },
        },
    }
}

/// Fuel-independence of `evlis`, needed alongside the same law for `eval`.
pub proof fn lemma_evlis_fuel_monotone(m: Form, a: Form, fuel1: nat, fuel2: nat)
    requires
        fuel1 <= fuel2,
        s_evlis(m, a, fuel1) != Err::<Form, LispError>(LispError::DepthExceeded),
    ensures
        s_evlis(m, a, fuel2) == s_evlis(m, a, fuel1),
    decreases fuel1, m, 1int,
{
    match m {
        Form::Atom(_) => {},
        Form::Duo(h, t) => {
            lemma_eval_fuel_monotone(*h, a, fuel1, fuel2);
            match s_eval(*h, a, fuel1) {
                Ok(_) => {
                    lemma_evlis_fuel_monotone(*t, a, fuel1, fuel2);
                },
                Err(_) => {},
            }
        },
    }
}

/// The round trip: printing any form made only of proper lists and plain
/// upper-case atoms, tokenizing the text, and reading the tokens back gives
/// exactly the original form, with no tokens left over.
pub proof fn lemma_print_read_round_trip(f: Form)
    requires
        proper_form(f),
    ensures
        tok_parse_form(tokenize_chars(print_form(f))) == Ok::<(Form, Seq<Seq<char>>), LispError>(
            (f, Seq::<Seq<char>>::empty()),
        ),
{
    lemma_tokenize_print_form(f, Seq::<char>::empty());
    assert(print_form(f) + Seq::<char>::empty() =~~= print_form(f));
    assert(form_tokens(f) + tok_loop(Seq::<char>::empty(), Seq::<char>::empty())
        =~~= form_tokens(f));
    lemma_read_print_tokens(f, Seq::<Seq<char>>::empty());
    assert(form_tokens(f) + Seq::<Seq<char>>::empty() =~~= form_tokens(f));
}

} // verus!
