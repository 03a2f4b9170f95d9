use std::rc::Rc;

use rusty_lisp::cons_cell::{atom, car, cdr, cons, eq, equal_cells, make_atom, null, to_bool,
    LispError, Pair};
use rusty_lisp::parser::{build_sexpr, is_balanced, read_form, tokenize};
use rusty_lisp::printer::print_sexpr;

/// Parses the first form of the input text.
fn parse(input: &str) -> Rc<Pair> {
    let mut tokens = tokenize(input.to_string());
    let forms = build_sexpr(&mut tokens).expect("test input should parse");
    car(forms).expect("test input should hold one form")
}

fn toks(input: &str) -> Vec<String> {
    tokenize(input.to_string())
}

#[test]
fn tokenizer_splits_parentheses_and_upper_cases() {
    assert_eq!(
        toks("  ( car\tx )\n"),
        vec!["(".to_string(), "CAR".to_string(), "X".to_string(), ")".to_string()]
    );
}

#[test]
fn tokenizer_makes_the_quote_mark_its_own_token() {
    assert_eq!(toks("'a"), vec!["'".to_string(), "A".to_string()]);
    assert_eq!(
        toks("''x"),
        vec!["'".to_string(), "'".to_string(), "X".to_string()]
    );
}

#[test]
fn tokenizer_splits_adjacent_parentheses() {
    assert_eq!(
        toks("(())"),
        vec!["(".to_string(), "(".to_string(), ")".to_string(), ")".to_string()]
    );
}

#[test]
fn balance_check_on_the_three_documented_inputs() {
    assert!(!is_balanced(&toks("(()")));
    assert!(is_balanced(&toks("(())")));
    assert!(is_balanced(&toks("")));
}

#[test]
fn balance_check_refuses_an_early_close() {
    assert!(!is_balanced(&toks(")(")));
}

#[test]
fn reader_reports_unexpected_end_of_input() {
    let mut tokens = toks("(A (B");
    assert!(matches!(
        build_sexpr(&mut tokens),
        Err(LispError::UnexpectedEndOfInput)
    ));
}

#[test]
fn reader_consumes_the_tokens_it_used() {
    let mut tokens = toks("(A B)");
    let forms = build_sexpr(&mut tokens).expect("should parse");
    assert_eq!(print_sexpr(forms), "((A B))");
    assert!(tokens.is_empty());
}

#[test]
fn read_form_returns_the_form_and_the_next_index() {
    let tokens = toks("(A B) C");
    let (first, next) = read_form(&tokens, 0);
    assert_eq!(print_sexpr(first.expect("should read a form")), "(A B)");
    let (second, end) = read_form(&tokens, next);
    assert_eq!(print_sexpr(second.expect("should read a form")), "C");
    assert_eq!(end, tokens.len());
}

#[test]
fn quote_marker_expands_to_a_quote_form() {
    assert_eq!(print_sexpr(parse("'A")), "(QUOTE A)");
    assert_eq!(print_sexpr(parse("''A")), "(QUOTE (QUOTE A))");
}

#[test]
fn printing_round_trips_proper_forms() {
    for text in ["A", "NIL", "(A B C)", "(A (B C) D)", "((A) ((B)) C)", "(QUOTE A)"] {
        let f = parse(text);
        let printed = print_sexpr(f.clone());
        assert_eq!(printed, text.to_string());
        let again = parse(&printed);
        assert!(equal_cells(&f, &again));
    }
}

#[test]
fn printer_writes_dotted_pairs() {
    let dotted = cons(make_atom("A"), make_atom("B"));
    assert_eq!(print_sexpr(dotted), "(A . B)");
    let improper = cons(make_atom("A"), cons(make_atom("B"), make_atom("C")));
    assert_eq!(print_sexpr(improper), "(A B . C)");
}

#[test]
fn equality_is_reflexive_symmetric_and_structural() {
    let x = parse("(A (B C) D)");
    let y = parse("(A (B C) D)");
    let z = parse("(A (B C) E)");
    assert!(equal_cells(&x, &x));
    assert!(equal_cells(&x, &y));
    assert!(equal_cells(&y, &x));
    assert!(!equal_cells(&x, &z));
    assert_eq!(print_sexpr(eq(x.clone(), y)), "T");
    assert_eq!(print_sexpr(eq(x, z)), "NIL");
}

#[test]
fn independently_built_nil_cells_compare_equal() {
    assert!(equal_cells(&make_atom("NIL"), &parse("()")));
    assert!(null(&make_atom("NIL")));
    assert!(!null(&make_atom("T")));
}

#[test]
fn cons_car_cdr_identity_on_cells() {
    let x = parse("(A B)");
    let y = parse("C");
    let p = cons(x.clone(), y.clone());
    assert!(equal_cells(&car(p.clone()).expect("a pair has a head"), &x));
    assert!(equal_cells(&cdr(p).expect("a pair has a tail"), &y));
}

#[test]
fn car_and_cdr_fail_on_atoms() {
    assert!(matches!(car(make_atom("A")), Err(LispError::TypeError)));
    assert!(matches!(cdr(make_atom("NIL")), Err(LispError::TypeError)));
}

#[test]
fn atom_answers_t_for_atoms_and_nil_for_pairs() {
    assert_eq!(print_sexpr(atom(make_atom("A"))), "T");
    assert_eq!(print_sexpr(atom(make_atom("NIL"))), "T");
    assert_eq!(print_sexpr(atom(cons(make_atom("A"), make_atom("B")))), "NIL");
}

#[test]
fn to_bool_treats_everything_but_nil_as_true() {
    assert!(!to_bool(&make_atom("NIL")));
    assert!(to_bool(&make_atom("T")));
    assert!(to_bool(&make_atom("A")));
    assert!(to_bool(&cons(make_atom("A"), make_atom("NIL"))));
}

#[test]
fn a_trailing_quote_marker_runs_out_of_input() {
    let mut tokens = toks("'");
    assert!(matches!(
        build_sexpr(&mut tokens),
        Err(LispError::UnexpectedEndOfInput)
    ));
}

#[test]
fn a_stray_close_parenthesis_reads_as_nil() {
    let mut tokens = toks(")");
    let forms = build_sexpr(&mut tokens).expect("a stray close is defensively read");
    assert_eq!(print_sexpr(forms), "NIL");
}

#[test]
fn structural_sharing_keeps_the_tail_cell() {
    let tail = parse("(B C)");
    let longer = cons(make_atom("A"), tail.clone());
    assert!(Rc::ptr_eq(
        &cdr(longer).expect("a pair has a tail"),
        &tail
    ));
}
