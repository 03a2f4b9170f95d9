//! The reader side: splitting raw text into tokens, checking parenthesis
//! balance, and building a cell tree from the token stream by recursive
//! descent.
//!
//! Tokens are plain strings: `"("`, `")"`, the one-character quote marker
//! `"'"`, or an atom's text with its case normalized to upper case.  The
//! quote marker expands while reading, so `'x` becomes `(QUOTE x)` and
//! `''x` becomes `(QUOTE (QUOTE x))`.

use std::rc::Rc;
use vstd::prelude::*;

use crate::cons_cell::{cons, make_atom, nil_form, Form, LispError, Pair};
use crate::eval::s_list;

verus! {

broadcast use vstd::std_specs::control_flow::group_control_flow_axioms;

/// Upper-casing of the ASCII letters; every other character is unchanged.
pub open spec fn upper_char(c: char) -> char {
    match c {
        'a' => 'A',
        'b' => 'B',
        'c' => 'C',
        'd' => 'D',
        'e' => 'E',
        'f' => 'F',
        'g' => 'G',
        'h' => 'H',
        'i' => 'I',
        'j' => 'J',
        'k' => 'K',
        'l' => 'L',
        'm' => 'M',
        'n' => 'N',
        'o' => 'O',
        'p' => 'P',
        'q' => 'Q',
        'r' => 'R',
        's' => 'S',
        't' => 'T',
        'u' => 'U',
        'v' => 'V',
        'w' => 'W',
        'x' => 'X',
        'y' => 'Y',
        'z' => 'Z',
        _ => c,
    }
}

fn to_upper(c: char) -> (r: char)
    ensures
        r == upper_char(c),
{
    match c {
        'a' => 'A',
        'b' => 'B',
        'c' => 'C',
        'd' => 'D',
        'e' => 'E',
        'f' => 'F',
        'g' => 'G',
        'h' => 'H',
        'i' => 'I',
        'j' => 'J',
        'k' => 'K',
        'l' => 'L',
        'm' => 'M',
        'n' => 'N',
        'o' => 'O',
        'p' => 'P',
        'q' => 'Q',
        'r' => 'R',
        's' => 'S',
        't' => 'T',
        'u' => 'U',
        'v' => 'V',
        'w' => 'W',
        'x' => 'X',
        'y' => 'Y',
        'z' => 'Z',
        _ => c,
    }
}

/// The characters that end an atom by separating tokens.
pub open spec fn is_space_char(c: char) -> bool {
    c == ' ' || c == '\t' || c == '\n' || c == '\r'
}

/// The characters that are tokens of their own, or whitespace.
pub open spec fn is_token_break(c: char) -> bool {
    is_space_char(c) || c == '(' || c == ')' || c == '\''
}

/// The pending atom text as a token list: nothing if no text is pending.
pub open spec fn flush_token(cur: Seq<char>) -> Seq<Seq<char>> {
    if cur.len() == 0 {
        Seq::<Seq<char>>::empty()
    } else {
        seq![cur]
    }
}

/// The tokens of `s`, given that the atom text `cur` has already been read
/// just before it: whitespace only separates, parentheses and the quote
/// marker are one-character tokens, anything else extends the current atom.
pub open spec fn tok_loop(s: Seq<char>, cur: Seq<char>) -> Seq<Seq<char>>
    decreases s.len(),
{
    if s.len() == 0 {
        flush_token(cur)
    } else if is_space_char(s[0]) {
        flush_token(cur) + tok_loop(s.drop_first(), Seq::<char>::empty())
    } else if s[0] == '(' {
        flush_token(cur) + seq!["("@] + tok_loop(s.drop_first(), Seq::<char>::empty())
    } else if s[0] == ')' {
        flush_token(cur) + seq![")"@] + tok_loop(s.drop_first(), Seq::<char>::empty())
    } else if s[0] == '\'' {
        flush_token(cur) + seq!["'"@] + tok_loop(s.drop_first(), Seq::<char>::empty())
    } else {
        tok_loop(s.drop_first(), cur.push(upper_char(s[0])))
    }
}

/// The token list of a raw input text.
pub open spec fn tokenize_chars(s: Seq<char>) -> Seq<Seq<char>> {
    tok_loop(s, Seq::<char>::empty())
}

/// Relies on `String::push`: appends exactly the one given character.
#[verifier::external_body]
fn push_char(s: &mut String, c: char)
    ensures
        final(s)@ == old(s)@.push(c),
{
    s.push(c);
}

/// Splits raw text into tokens: `(`, `)` and `'` stand alone, whitespace
/// separates, and atom text is upper-cased.
pub fn tokenize(raw_input: String) -> (tokens: Vec<String>)
    ensures
        tokens.deep_view() == tokenize_chars(raw_input@),
{
    let s = raw_input.as_str();
    let n = s.unicode_len();
    let mut tokens: Vec<String> = Vec::new();
    let mut cur = String::new();
    let mut i: usize = 0;
    proof {
        assert(s@.skip(0) =~~= s@);
        assert(tokens.deep_view() =~~= Seq::<Seq<char>>::empty());
        assert(Seq::<Seq<char>>::empty() + tok_loop(s@, cur@) =~~= tok_loop(s@, cur@));
    }
    while i < n
        invariant
            n == s@.len(),
            s@ == raw_input@,
            i <= n,
            tokenize_chars(raw_input@) == tokens.deep_view() + tok_loop(
                s@.skip(i as int),
                cur@,
            ),
        decreases n - i,
    {
        let ghost toks0 = tokens.deep_view();
        let ghost cur0 = cur@;
        let ghost rest0 = s@.skip(i as int);
        let c = s.get_char(i);
        proof {
            assert(rest0[0] == c);
            assert(rest0.drop_first() =~= s@.skip(i as int + 1));
        }
        if c == ' ' || c == '\t' || c == '\n' || c == '\r' {
            if !cur.as_str().is_empty() {
                tokens.push(cur);
                cur = String::new();
            }
            proof {
                assert(cur@ =~= Seq::<char>::empty());
                assert(tokens.deep_view() =~~= toks0 + flush_token(cur0));
                assert(toks0 + (flush_token(cur0) + tok_loop(
                    s@.skip(i as int + 1),
                    Seq::<char>::empty(),
                )) =~~= (toks0 + flush_token(cur0)) + tok_loop(
                    s@.skip(i as int + 1),
                    Seq::<char>::empty(),
                ));
            }
        } else if c == '(' || c == ')' || c == '\'' {
            if !cur.as_str().is_empty() {
                tokens.push(cur);
                cur = String::new();
            }
            proof {
                assert(cur@ =~= Seq::<char>::empty());
                assert(tokens.deep_view() =~~= toks0 + flush_token(cur0));
            }
            let mark = if c == '(' {
                String::from_str("(")
            } else if c == ')' {
                String::from_str(")")
            } else {
                String::from_str("'")
            };
            let ghost mark_tok = mark@;
            tokens.push(mark);
            proof {
                assert(tokens.deep_view() =~~= (toks0 + flush_token(cur0)) + seq![mark_tok]);
                assert(toks0 + ((flush_token(cur0) + seq![mark_tok]) + tok_loop(
                    s@.skip(i as int + 1),
                    cur@,
                )) =~~= ((toks0 + flush_token(cur0)) + seq![mark_tok]) + tok_loop(
                    s@.skip(i as int + 1),
                    cur@,
                ));
            }
        } else {
            let u = to_upper(c);
            push_char(&mut cur, u);
        }
        i = i + 1;
    }
    proof {
        assert(s@.skip(n as int) =~= Seq::<char>::empty());
    }
    if !cur.as_str().is_empty() {
        let ghost toks0 = tokens.deep_view();
        let ghost cur0 = cur@;
        tokens.push(cur);
        proof {
            assert(tokens.deep_view() =~~= toks0 + flush_token(cur0));
        }
    } else {
        proof {
            assert(tokens.deep_view() =~~= tokens.deep_view() + flush_token(cur@));
        }
    }
    tokens
}

/// Whether the token list from some point on closes every opened list, never
/// closes more than is open, and ends with as many closed as `depth` says are
/// open.
pub open spec fn balanced_from(toks: Seq<Seq<char>>, depth: int) -> bool
    decreases toks.len(),
{
    if toks.len() == 0 {
        depth == 0
    } else if toks[0] == "("@ {
        balanced_from(toks.drop_first(), depth + 1)
    } else if toks[0] == ")"@ {
        depth > 0 && balanced_from(toks.drop_first(), depth - 1)
    } else {
        balanced_from(toks.drop_first(), depth)
    }
}

/// Checks that every `(` has a matching later `)` and that the running count
/// of open lists never goes negative.
pub fn is_balanced(tokens: &Vec<String>) -> (r: bool)
    ensures
        r == balanced_from(tokens.deep_view(), 0),
{
    let open_tok = String::from_str("(");
    let close_tok = String::from_str(")");
    let mut count: usize = 0;
    let mut i: usize = 0;
    proof {
        assert(tokens.deep_view().skip(0) =~~= tokens.deep_view());
    }
    while i < tokens.len()
        invariant
            i <= tokens@.len(),
            count <= i,
            open_tok@ == "("@,
            close_tok@ == ")"@,
            balanced_from(tokens.deep_view(), 0) == balanced_from(
                tokens.deep_view().skip(i as int),
                count as int,
            ),
        decreases tokens@.len() - i,
    {
        let ghost rest0 = tokens.deep_view().skip(i as int);
        proof {
            assert(rest0[0] == tokens.deep_view()[i as int]);
            assert(rest0.drop_first() =~~= tokens.deep_view().skip(i as int + 1));
        }
        let t = &tokens[i];
        if *t == open_tok {
            count = count + 1;
        } else if *t == close_tok {
            if count == 0 {
                return false;
            }
            count = count - 1;
        }
        i = i + 1;
    }
    proof {
        assert(tokens.deep_view().skip(tokens@.len() as int) =~~= Seq::<Seq<char>>::empty());
    }
    count == 0
}

/// The result of reading one form from a token suffix: the form and the
/// remaining tokens, or the failure.  An exhausted stream fails with
/// `UnexpectedEndOfInput`; a stray `)` defensively reads as `NIL`; the quote
/// marker wraps the following form in `(QUOTE _)`; everything else is an
/// atom.
pub open spec fn tok_parse_form(toks: Seq<Seq<char>>) -> Result<
    (Form, Seq<Seq<char>>),
    LispError,
>
    decreases toks.len(), 0int,
{
    if toks.len() == 0 {
        Err(LispError::UnexpectedEndOfInput)
    } else if toks[0] == "("@ {
        tok_parse_list(toks.drop_first())
    } else if toks[0] == ")"@ {
        Ok((nil_form(), toks.drop_first()))
    } else if toks[0] == "'"@ {
        match tok_parse_form(toks.drop_first()) {
            Ok(p) => Ok((s_list(Form::Atom("QUOTE"@), p.0), p.1)),
            Err(e) => Err(e),
        }
    } else {
        Ok((Form::Atom(toks[0]), toks.drop_first()))
    }
}

/// The result of reading list elements up to and including the matching `)`:
/// the elements right-folded onto `NIL`, and the remaining tokens.  Reading
/// one element always consumes at least one token, so the inner guard never
/// fails; it only makes the recursion visibly bounded.
pub open spec fn tok_parse_list(toks: Seq<Seq<char>>) -> Result<
    (Form, Seq<Seq<char>>),
    LispError,
>
    decreases toks.len(), 1int,
{
    if toks.len() == 0 {
        Err(LispError::UnexpectedEndOfInput)
    } else if toks[0] == ")"@ {
        Ok((nil_form(), toks.drop_first()))
    } else {
        match tok_parse_form(toks) {
            Ok(p) => if p.1.len() < toks.len() {
                match tok_parse_list(p.1) {
                    Ok(q) => Ok((Form::Duo(Box::new(p.0), Box::new(q.0)), q.1)),
                    Err(e) => Err(e),
                }
            } else {
                Err(LispError::UnexpectedEndOfInput)
            },
            Err(e) => Err(e),
        }
    }
}

/// The result of reading every form of the stream into one right-folded
/// list, stopping early only at a stray top-level `)`.
pub open spec fn tok_parse_stream(toks: Seq<Seq<char>>) -> Result<
    (Form, Seq<Seq<char>>),
    LispError,
>
    decreases toks.len(), 2int,
{
    if toks.len() == 0 {
        Ok((nil_form(), toks))
    } else if toks[0] == ")"@ {
        Ok((nil_form(), toks.drop_first()))
    } else {
        match tok_parse_form(toks) {
            Ok(p) => if p.1.len() < toks.len() {
                match tok_parse_stream(p.1) {
                    Ok(q) => Ok((Form::Duo(Box::new(p.0), Box::new(q.0)), q.1)),
                    Err(e) => Err(e),
                }
            } else {
                Err(LispError::UnexpectedEndOfInput)
            },
            Err(e) => Err(e),
        }
    }
}

/// Reading one form consumes at least one token; reading a stream never
/// grows the remainder.
pub proof fn lemma_parse_consumes(toks: Seq<Seq<char>>)
    ensures
        (match tok_parse_form(toks) {
            Ok(p) => p.1.len() < toks.len(),
            Err(_) => true,
        }),
        (match tok_parse_list(toks) {
            Ok(p) => p.1.len() < toks.len(),
            Err(_) => true,
        }),
        (match tok_parse_stream(toks) {
            Ok(p) => p.1.len() <= toks.len(),
            Err(_) => true,
        }),
    decreases toks.len(),
{
    if toks.len() == 0 {
    } else {
        lemma_parse_consumes(toks.drop_first());
        match tok_parse_form(toks) {
            Ok(p) => {
                if p.1.len() < toks.len() {
                    lemma_parse_consumes(p.1);
                }
            },
            Err(_) => {},
        }
    }
}

/// Reads the one form starting at `start`, returning it together with the
/// index just past its last token.
pub fn read_form(tokens: &Vec<String>, start: usize) -> (res: (
    Result<Rc<Pair>, LispError>,
    usize,
))
    requires
        start <= tokens@.len(),
    ensures
        start <= res.1 <= tokens@.len(),
        (match tok_parse_form(tokens.deep_view().skip(start as int)) {
            Ok(p) => res.0 is Ok && res.0->Ok_0@ == p.0 && tokens.deep_view().skip(
                res.1 as int,
            ) == p.1 && res.1 > start,
            Err(e) => res.0 == Err::<Rc<Pair>, LispError>(e),
        }),
    decreases tokens@.len() - start, 0int,
{
    let ghost rest0 = tokens.deep_view().skip(start as int);
    if start == tokens.len() {
        return (Err(LispError::UnexpectedEndOfInput), start);
    }
    proof {
        assert(rest0[0] == tokens.deep_view()[start as int]);
        assert(rest0.drop_first() =~~= tokens.deep_view().skip(start as int + 1));
    }
    let t = &tokens[start];
    if *t == String::from_str("(") {
        read_list(tokens, start + 1)
    } else if *t == String::from_str(")") {
        (Ok(make_atom("NIL")), start + 1)
    } else if *t == String::from_str("'") {
        let (inner, j) = read_form(tokens, start + 1);
        match inner {
            Ok(x) => {
                let quoted = cons(make_atom("QUOTE"), cons(x, make_atom("NIL")));
                (Ok(quoted), j)
            },
            Err(e) => (Err(e), j),
        }
    } else {
        (Ok(make_atom(t.as_str())), start + 1)
    }
}

/// Reads list elements up to the matching `)`, right-folding them onto
/// `NIL`.
fn read_list(tokens: &Vec<String>, start: usize) -> (res: (
    Result<Rc<Pair>, LispError>,
    usize,
))
    requires
        start <= tokens@.len(),
    ensures
        start <= res.1 <= tokens@.len(),
        (match tok_parse_list(tokens.deep_view().skip(start as int)) {
            Ok(p) => res.0 is Ok && res.0->Ok_0@ == p.0 && tokens.deep_view().skip(
                res.1 as int,
            ) == p.1 && res.1 > start,
            Err(e) => res.0 == Err::<Rc<Pair>, LispError>(e),
        }),
    decreases tokens@.len() - start, 1int,
{
    let ghost rest0 = tokens.deep_view().skip(start as int);
    if start == tokens.len() {
        return (Err(LispError::UnexpectedEndOfInput), start);
    }
    proof {
        assert(rest0[0] == tokens.deep_view()[start as int]);
        assert(rest0.drop_first() =~~= tokens.deep_view().skip(start as int + 1));
    }
    let t = &tokens[start];
    if *t == String::from_str(")") {
        return (Ok(make_atom("NIL")), start + 1);
    }
    let (head, j) = read_form(tokens, start);
    match head {
        Ok(h) => {
            let (tail, k) = read_list(tokens, j);
            match tail {
                Ok(tl) => (Ok(cons(h, tl)), k),
                Err(e) => (Err(e), k),
            }
        },
        Err(e) => (Err(e), j),
    }
}

/// Reads the whole remaining stream as one right-folded list of top-level
/// forms, mirroring `tok_parse_stream`.
fn read_stream(tokens: &Vec<String>, start: usize) -> (res: (
    Result<Rc<Pair>, LispError>,
    usize,
))
    requires
        start <= tokens@.len(),
    ensures
        start <= res.1 <= tokens@.len(),
        (match tok_parse_stream(tokens.deep_view().skip(start as int)) {
            Ok(p) => res.0 is Ok && res.0->Ok_0@ == p.0 && tokens.deep_view().skip(
                res.1 as int,
            ) == p.1,
            Err(e) => res.0 == Err::<Rc<Pair>, LispError>(e),
        }),
    decreases tokens@.len() - start, 2int,
{
    let ghost rest0 = tokens.deep_view().skip(start as int);
    if start == tokens.len() {
        return (Ok(make_atom("NIL")), start);
    }
    proof {
        assert(rest0[0] == tokens.deep_view()[start as int]);
        assert(rest0.drop_first() =~~= tokens.deep_view().skip(start as int + 1));
    }
    let t = &tokens[start];
    if *t == String::from_str(")") {
        return (Ok(make_atom("NIL")), start + 1);
    }
    let (head, j) = read_form(tokens, start);
    match head {
        Ok(h) => {
            let (tail, k) = read_stream(tokens, j);
            match tail {
                Ok(tl) => (Ok(cons(h, tl)), k),
                Err(e) => (Err(e), k),
            }
        },
        Err(e) => (Err(e), j),
    }
}

/// Builds the list of all top-level forms of the token stream, consuming the
/// tokens it used; on failure the tokens are left as they were.
pub fn build_sexpr(tokens: &mut Vec<String>) -> (r: Result<Rc<Pair>, LispError>)
    ensures
        (match tok_parse_stream(old(tokens).deep_view()) {
            Ok(p) => r is Ok && r->Ok_0@ == p.0 && final(tokens).deep_view() == p.1,
            Err(e) => r == Err::<Rc<Pair>, LispError>(e) && final(tokens)@ == old(tokens)@,
        }),
{
    let (res, consumed) = read_stream(tokens, 0);
    proof {
        assert(tokens.deep_view().skip(0) =~~= tokens.deep_view());
    }
    match res {
        Ok(cell) => {
            let ghost full = tokens@;
            let mut k: usize = 0;
            while k < consumed
                invariant
                    k <= consumed,
                    consumed <= full.len(),
                    tokens@ =~= full.skip(k as int),
                decreases consumed - k,
            {
                tokens.remove(0);
                k = k + 1;
            }
            proof {
                assert(tokens.deep_view() =~~= old(tokens).deep_view().skip(consumed as int));
            }
            Ok(cell)
        },
        Err(e) => Err(e),
    }
}

} // verus!
