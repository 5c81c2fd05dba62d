use wavemix::tokenizing::simple_rules::{
    first_matches_condition, matches_condition_at_index, parse_basic_token, BasicToken,
    BasicTokenParser, EchoTokens, ReportUnmatched, SymbolParser, UnmatchedLine,
};
use wavemix::tokenizing::{RuleCondition, Tokenizer};

fn symbols(text: &str) -> Vec<BasicToken> {
    text.chars().map(BasicToken::Symbol).collect()
}

#[test]
fn basic_test() {
    let tokenizer = Tokenizer::new(SymbolParser, ReportUnmatched)
        .add_splitter(' ')
        .add_rule(first_matches_condition(BasicToken::Symbol('a')), EchoTokens);
    let result = tokenizer.process(String::from("ab cd"), ());
    assert_eq!(result, Ok(symbols("abcd")));
}

#[test]
fn unmatched_line_is_an_error() {
    let tokenizer = Tokenizer::new(SymbolParser, ReportUnmatched)
        .add_rule(first_matches_condition(BasicToken::Symbol('a')), EchoTokens);
    let result = tokenizer.process(String::from("xy"), ());
    assert_eq!(result, Err(UnmatchedLine { token_count: 2 }));
}

#[test]
fn lines_are_processed_in_order() {
    let tokenizer = Tokenizer::new(SymbolParser, ReportUnmatched)
        .add_rule(first_matches_condition(BasicToken::Symbol('a')), EchoTokens);
    let result = tokenizer.process(String::from("ab\nax\n"), ());
    assert_eq!(result, Ok(symbols("abax")));
}

#[test]
fn first_error_ends_the_run() {
    let tokenizer = Tokenizer::new(SymbolParser, ReportUnmatched)
        .add_rule(first_matches_condition(BasicToken::Symbol('a')), EchoTokens);
    let result = tokenizer.process(String::from("ab\nbcd\nax"), ());
    assert_eq!(result, Err(UnmatchedLine { token_count: 3 }));
}

#[test]
fn carriage_returns_are_stripped() {
    let tokenizer = Tokenizer::new(SymbolParser, ReportUnmatched)
        .add_rule(first_matches_condition(BasicToken::Symbol('a')), EchoTokens);
    let result = tokenizer.process(String::from("ab\r\nac\r\n"), ());
    assert_eq!(result, Ok(symbols("abac")));
}

#[test]
fn splitters_cut_fragments() {
    // The splitter characters themselves never reach the parser.
    let tokenizer = Tokenizer::new(SymbolParser, ReportUnmatched)
        .add_splitter(',')
        .add_splitter(' ')
        .add_rule(first_matches_condition(BasicToken::Symbol('a')), EchoTokens);
    let result = tokenizer.process(String::from("ab,cd ef"), ());
    assert_eq!(result, Ok(symbols("abcdef")));
}

#[test]
fn adjacent_splitters_make_empty_fragments() {
    // An empty fragment still reaches the parser; it just yields no tokens.
    let tokenizer = Tokenizer::new(SymbolParser, ReportUnmatched)
        .add_splitter(',')
        .add_splitter(' ')
        .add_rule(first_matches_condition(BasicToken::Symbol('a')), EchoTokens);
    let result = tokenizer.process(String::from("a, b"), ());
    assert_eq!(result, Ok(symbols("ab")));
}

#[test]
fn later_rules_apply_when_earlier_do_not_match() {
    let tokenizer = Tokenizer::new(SymbolParser, ReportUnmatched)
        .add_rule(first_matches_condition(BasicToken::Symbol('z')), EchoTokens)
        .add_rule(first_matches_condition(BasicToken::Symbol('a')), EchoTokens);
    let result = tokenizer.process(String::from("ab"), ());
    assert_eq!(result, Ok(symbols("ab")));
}

#[test]
fn empty_input_yields_no_codes() {
    let tokenizer = Tokenizer::new(SymbolParser, ReportUnmatched)
        .add_rule(first_matches_condition(BasicToken::Symbol('a')), EchoTokens);
    let result: Result<Vec<BasicToken>, UnmatchedLine> = tokenizer.process(String::new(), ());
    assert_eq!(result, Ok(Vec::new()));
}

#[test]
fn process_line_applies_first_matching_rule() {
    let tokenizer = Tokenizer::new(SymbolParser, ReportUnmatched)
        .add_rule(first_matches_condition(BasicToken::Symbol('a')), EchoTokens);
    let mut state = ();
    let line = symbols("abc");
    let result = tokenizer.process_line(line, &mut state);
    assert_eq!(result, Ok(symbols("abc")));
    let result = tokenizer.process_line(symbols("bc"), &mut state);
    assert_eq!(result, Err(UnmatchedLine { token_count: 2 }));
}

#[test]
fn basic_token_parser_produces_no_tokens() {
    let tokenizer: Tokenizer<_, _, BasicToken, _, _, _, _, ()> =
        Tokenizer::new(BasicTokenParser, ReportUnmatched)
            .add_rule(first_matches_condition(BasicToken::Symbol('a')), EchoTokens);
    // Every line parses to zero tokens, so no rule's condition can match.
    let result = tokenizer.process(String::from("anything"), ());
    assert_eq!(result, Err(UnmatchedLine { token_count: 0 }));
}

#[test]
fn parse_basic_token_accepts_everything() {
    assert_eq!(parse_basic_token(String::from("12 abc")), Ok(Vec::new()));
    assert_eq!(parse_basic_token(String::new()), Ok(Vec::new()));
}

#[test]
fn first_matches_condition_checks_the_first_token() {
    let condition = first_matches_condition(BasicToken::Number(7));
    let mut state = ();
    assert!(condition.check(&vec![BasicToken::Number(7), BasicToken::Symbol('x')], &mut state));
    assert!(!condition.check(&vec![BasicToken::Number(8)], &mut state));
    assert!(!condition.check(&Vec::new(), &mut state));
}

#[test]
fn matches_condition_at_index_checks_one_position() {
    let condition = matches_condition_at_index(1, BasicToken::Text(String::from("go")));
    let mut state = ();
    assert!(condition.check(
        &vec![BasicToken::Register(3), BasicToken::Text(String::from("go"))],
        &mut state,
    ));
    assert!(!condition.check(&vec![BasicToken::Register(3)], &mut state));
    assert!(!condition.check(
        &vec![BasicToken::Register(3), BasicToken::Text(String::from("stop"))],
        &mut state,
    ));
}

#[test]
fn basic_tokens_compare_by_content() {
    assert_eq!(BasicToken::Text(String::from("a")), BasicToken::Text(String::from("a")));
    assert_ne!(BasicToken::Text(String::from("a")), BasicToken::Text(String::from("b")));
    assert_ne!(BasicToken::Number(1), BasicToken::Register(1));
    assert_eq!(BasicToken::Symbol('q'), BasicToken::Symbol('q'));
}
