use std::rc::Rc;

use rusty_lisp::cons_cell::{atom, car, cdr, cons, eq, equal_cells, make_atom, null, to_bool,
    LispError, Pair};
use rusty_lisp::eval::{append, appq, apply, assoc, eval, list, pair};
use rusty_lisp::parser::{build_sexpr, is_balanced, read_form, tokenize};
use rusty_lisp::printer::print_sexpr;

const FUEL: u64 = 100_000;

/// Parses the first form of the input text.
fn parse(input: &str) -> Rc<Pair> {
    let mut tokens = tokenize(input.to_string());
    assert!(is_balanced(&tokens), "unbalanced test input: {}", input);
    let forms = build_sexpr(&mut tokens).expect("test input should parse");
    car(forms).expect("test input should hold one form")
}

/// Evaluates the first form of the input text in the empty environment.
fn run(input: &str) -> Result<Rc<Pair>, LispError> {
    eval(parse(input), make_atom("NIL"), FUEL)
}

/// Evaluates the input in the given environment (also written as text).
fn run_in(input: &str, env: &str) -> Result<Rc<Pair>, LispError> {
    eval(parse(input), parse(env), FUEL)
}

/// The printed text of a successful evaluation.
fn run_print(input: &str) -> String {
    print_sexpr(run(input).expect("evaluation should succeed"))
}

#[test]
fn quote_returns_argument_unevaluated() {
    assert_eq!(run_print("(QUOTE A)"), "A");
    assert_eq!(run_print("(QUOTE (A B))"), "(A B)");
}

#[test]
fn atom_answers_t_on_atoms_and_nil_on_pairs() {
    assert_eq!(run_print("(ATOM (QUOTE A))"), "T");
    assert_eq!(run_print("(ATOM (QUOTE (A B)))"), "NIL");
}

#[test]
fn car_of_cons_is_first_argument() {
    assert_eq!(run_print("(CAR (CONS (QUOTE A) (QUOTE B)))"), "A");
}

#[test]
fn cdr_of_cons_is_second_argument() {
    assert_eq!(run_print("(CDR (CONS (QUOTE A) (QUOTE B)))"), "B");
}

#[test]
fn eq_compares_structurally() {
    assert_eq!(run_print("(EQ (QUOTE A) (QUOTE A))"), "T");
    assert_eq!(run_print("(EQ (QUOTE A) (QUOTE B))"), "NIL");
    assert_eq!(run_print("(EQ (QUOTE (A B)) (QUOTE (A B)))"), "T");
}

#[test]
fn cond_takes_first_clause_whose_predicate_holds() {
    assert_eq!(
        run_print(
            "(COND ((EQ (QUOTE A) (QUOTE B)) (QUOTE FIRST)) ((QUOTE T) (QUOTE SECOND)))"
        ),
        "SECOND"
    );
}

#[test]
fn label_allows_self_recursion() {
    assert_eq!(
        run_print(
            "((LABEL F (LAMBDA (X) (COND ((ATOM X) X) ((QUOTE T) (F (CAR X)))))) \
             (QUOTE (A B C)))"
        ),
        "A"
    );
}

#[test]
fn lambda_binds_evaluated_arguments() {
    assert_eq!(run_print("((LAMBDA (X) X) (QUOTE A))"), "A");
    assert_eq!(run_print("((LAMBDA (X) (CONS X (QUOTE B))) (QUOTE A))"), "(A . B)");
}

#[test]
fn named_function_is_looked_up_in_environment() {
    let v = run_in("(F (QUOTE A))", "((F (LAMBDA (X) (CONS X X))))").expect("should evaluate");
    assert_eq!(print_sexpr(v), "(A . A)");
}

#[test]
fn unbound_symbol_fails_lookup() {
    assert!(matches!(run("X"), Err(LispError::UnboundSymbol)));
}

#[test]
fn car_of_atom_is_a_type_error() {
    assert!(matches!(run("(CAR (QUOTE A))"), Err(LispError::TypeError)));
}

#[test]
fn cond_without_matching_clause_fails() {
    assert!(matches!(
        run("(COND ((EQ (QUOTE A) (QUOTE B)) (QUOTE X)))"),
        Err(LispError::NoMatchingClause)
    ));
}

#[test]
fn arity_mismatch_is_reported() {
    assert!(matches!(
        run("((LAMBDA (X Y) X) (QUOTE A))"),
        Err(LispError::ArityMismatch)
    ));
}

#[test]
fn call_head_of_unknown_shape_is_undefined() {
    assert!(matches!(
        run("((QUOTE A) (QUOTE B))"),
        Err(LispError::UndefinedFunction)
    ));
}

#[test]
fn exhausted_fuel_reports_depth_exceeded() {
    let e = eval(parse("(QUOTE A)"), make_atom("NIL"), 0);
    assert!(matches!(e, Err(LispError::DepthExceeded)));
    let looping = eval(
        parse("((LABEL F (LAMBDA (X) (F X))) (QUOTE A))"),
        make_atom("NIL"),
        100,
    );
    assert!(matches!(looping, Err(LispError::DepthExceeded)));
}

#[test]
fn nil_and_t_evaluate_to_themselves() {
    assert_eq!(run_print("NIL"), "NIL");
    assert_eq!(run_print("T"), "T");
}

#[test]
fn quote_shorthand_expands_while_reading() {
    assert_eq!(run_print("(CAR '(A B))"), "A");
    assert_eq!(run_print("''X"), "(QUOTE X)");
}

#[test]
fn empty_parentheses_read_as_nil() {
    assert_eq!(run_print("(QUOTE ())"), "NIL");
}

#[test]
fn most_recent_binding_shadows_older_ones() {
    let v = run_in("X", "((X NEW) (X OLD))").expect("should evaluate");
    assert_eq!(print_sexpr(v), "NEW");
}

#[test]
fn apply_quotes_arguments_before_evaluating() {
    let f = parse("(LAMBDA (X) X)");
    let args = parse("((A B))");
    let v = apply(f, args, FUEL).expect("apply should succeed");
    assert_eq!(print_sexpr(v), "(A B)");
}

#[test]
fn appq_wraps_every_element_in_quote() {
    let m = parse("(A (B C))");
    let q = appq(m).expect("appq of a proper list succeeds");
    assert_eq!(print_sexpr(q), "((QUOTE A) (QUOTE (B C)))");
}

#[test]
fn pair_zips_names_with_values() {
    let names = parse("(X Y)");
    let values = parse("(A (B C))");
    let frame = pair(names, values).expect("equal lengths zip");
    assert_eq!(print_sexpr(frame), "((X A) (Y (B C)))");
}

#[test]
fn pair_of_unequal_lengths_is_an_arity_mismatch() {
    let names = parse("(X Y)");
    let values = parse("(A)");
    assert!(matches!(pair(names, values), Err(LispError::ArityMismatch)));
}

#[test]
fn append_prepends_a_fragment_before_a_base() {
    let fragment = parse("((X A))");
    let base = parse("((Y B))");
    let env = append(fragment, base).expect("append of a proper list succeeds");
    assert_eq!(print_sexpr(env), "((X A) (Y B))");
}

#[test]
fn assoc_finds_a_binding_and_reports_a_miss() {
    let env = parse("((X A) (Y B))");
    let hit = assoc(make_atom("Y"), env.clone()).expect("bound symbol is found");
    assert_eq!(print_sexpr(hit), "B");
    assert!(matches!(
        assoc(make_atom("Z"), env),
        Err(LispError::UnboundSymbol)
    ));
}

#[test]
fn list_builds_a_two_element_list() {
    let l = list(make_atom("A"), make_atom("B"));
    assert_eq!(print_sexpr(l), "(A B)");
}
