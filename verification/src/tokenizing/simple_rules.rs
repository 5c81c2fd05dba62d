//! Ready-made pieces for the tokenizer: a small token alphabet, simple rule
//! conditions on token positions, and basic parser, action and no-match
//! implementations.

use vstd::prelude::*;
use vstd::std_specs::cmp::PartialEqSpec;
use crate::tokenizing::{NoMatchHandler, RuleAction, RuleCondition, TokenParser};

verus! {

#[derive(Clone, Debug)]
/// A small general-purpose token alphabet.
pub enum BasicToken {
    Number(i32),
    Text(String),
    Register(usize),
    Symbol(char),
}

impl PartialEq for BasicToken {
    fn eq(&self, other: &BasicToken) -> (r: bool) {
        match (self, other) {
            (BasicToken::Number(a), BasicToken::Number(b)) => *a == *b,
            (BasicToken::Text(a), BasicToken::Text(b)) => *a == *b,
            (BasicToken::Register(a), BasicToken::Register(b)) => *a == *b,
            (BasicToken::Symbol(a), BasicToken::Symbol(b)) => *a == *b,
            _ => false,
        }
    }
}

impl vstd::std_specs::cmp::PartialEqSpecImpl for BasicToken {
    open spec fn obeys_eq_spec() -> bool {
        true
    }

    open spec fn eq_spec(&self, other: &BasicToken) -> bool {
        match (self, other) {
            (BasicToken::Number(a), BasicToken::Number(b)) => a == b,
            (BasicToken::Text(a), BasicToken::Text(b)) => a@ == b@,
            (BasicToken::Register(a), BasicToken::Register(b)) => a == b,
            (BasicToken::Symbol(a), BasicToken::Symbol(b)) => a == b,
            _ => false,
        }
    }
}

impl Eq for BasicToken {

}

/// The trivial fragment parser over `BasicToken`: it accepts every
/// fragment and produces no tokens.
pub fn parse_basic_token(_input: String) -> (r: Result<Vec<BasicToken>, String>)
    ensures
        r matches Ok(v) && v@ == Seq::<BasicToken>::empty(),
{
    let output = Vec::new();
    Ok(output)
}

/// A rule condition satisfied when a line's first token equals a required
/// token.
pub struct FirstMatches<T> {
    /// The token the line must start with.
    pub required: T,
}

impl<Token: PartialEq, State> RuleCondition<Token, State> for FirstMatches<Token> {
    open spec fn check_spec(&self, input: Seq<Token>, state: State) -> (bool, State) {
        (input.len() > 0 && input[0].eq_spec(&self.required), state)
    }

    open spec fn obeys_spec(&self) -> bool {
        Token::obeys_eq_spec()
    }

    fn check(&self, input: &Vec<Token>, state: &mut State) -> (b: bool) {
        if input.len() > 0 {
            input[0] == self.required
        } else {
            false
        }
    }
}

/// The condition that a line's first token equals `required`.
pub fn first_matches_condition<T>(required: T) -> (c: FirstMatches<T>)
    ensures
        c == (FirstMatches { required }),
{
    FirstMatches { required }
}

/// A rule condition satisfied when the token at a fixed position equals a
/// required token.
pub struct MatchesAtIndex<T> {
    /// The position within the line's tokens.
    pub index: usize,
    /// The token required at that position.
    pub required: T,
}

impl<Token: PartialEq, State> RuleCondition<Token, State> for MatchesAtIndex<Token> {
    open spec fn check_spec(&self, input: Seq<Token>, state: State) -> (bool, State) {
        (self.index < input.len() && input[self.index as int].eq_spec(&self.required), state)
    }

    open spec fn obeys_spec(&self) -> bool {
        Token::obeys_eq_spec()
    }

    fn check(&self, input: &Vec<Token>, state: &mut State) -> (b: bool) {
        if self.index < input.len() {
            input[self.index] == self.required
        } else {
            false
        }
    }
}

/// The condition that the token at `index` equals `required`.
pub fn matches_condition_at_index<T>(index: usize, required: T) -> (c: MatchesAtIndex<T>)
    ensures
        c == (MatchesAtIndex { index, required }),
{
    MatchesAtIndex { index, required }
}

/// The fragment parser that wraps `parse_basic_token`: every fragment is
/// accepted and yields no tokens; the state is untouched.
pub struct BasicTokenParser;

impl<Error, State> TokenParser<BasicToken, Error, State> for BasicTokenParser {
    open spec fn parse_spec(&self, fragment: Seq<char>, state: State) -> (
        Result<Seq<BasicToken>, Error>,
        State,
    ) {
        (Ok(Seq::<BasicToken>::empty()), state)
    }

    open spec fn obeys_spec(&self) -> bool {
        true
    }

    fn parse(&self, fragment: String, state: &mut State) -> (r: Result<Vec<BasicToken>, Error>) {
        match parse_basic_token(fragment) {
            Ok(tokens) => Ok(tokens),
            Err(_) => Ok(Vec::new()),
        }
    }
}

/// The tokens the symbol parser produces: one `Symbol` per character, in
/// order.
pub open spec fn symbol_tokens(fragment: Seq<char>) -> Seq<BasicToken>
    decreases fragment.len(),
{
    if fragment.len() == 0 {
        Seq::empty()
    } else {
        symbol_tokens(fragment.drop_last()).push(BasicToken::Symbol(fragment.last()))
    }
}

/// A fragment parser that turns every character of a fragment into a
/// `Symbol` token; the state is untouched.
pub struct SymbolParser;

impl<Error, State> TokenParser<BasicToken, Error, State> for SymbolParser {
    open spec fn parse_spec(&self, fragment: Seq<char>, state: State) -> (
        Result<Seq<BasicToken>, Error>,
        State,
    ) {
        (Ok(symbol_tokens(fragment)), state)
    }

    open spec fn obeys_spec(&self) -> bool {
        true
    }

    fn parse(&self, fragment: String, state: &mut State) -> (r: Result<Vec<BasicToken>, Error>) {
        let s = fragment.as_str();
        let n = s.unicode_len();
        let mut out: Vec<BasicToken> = Vec::new();
        let mut i: usize = 0;
        proof {
            assert(fragment@.take(0) =~= Seq::<char>::empty());
        }
        while i < n
            invariant
                s@ == fragment@,
                n == fragment@.len(),
                0 <= i <= n,
                out@ == symbol_tokens(fragment@.take(i as int)),
            decreases n - i,
        {
            let c = s.get_char(i);
            out.push(BasicToken::Symbol(c));
            proof {
                assert(fragment@.take(i + 1).drop_last() =~= fragment@.take(i as int));
                assert(fragment@.take(i + 1).last() == fragment@[i as int]);
            }
            i = i + 1;
        }
        proof {
            assert(fragment@.take(n as int) =~= fragment@);
        }
        Ok(out)
    }
}

/// The rule action that emits a matched line's tokens unchanged as codes;
/// the state is untouched.
pub struct EchoTokens;

impl<Token, Error, State> RuleAction<Token, Token, Error, State> for EchoTokens {
    open spec fn parse_spec(&self, input: Seq<Token>, state: State) -> (
        Result<Seq<Token>, Error>,
        State,
    ) {
        (Ok(input), state)
    }

    open spec fn obeys_spec(&self) -> bool {
        true
    }

    fn parse(&self, input: Vec<Token>, state: &mut State) -> (r: Result<Vec<Token>, Error>) {
        Ok(input)
    }
}

#[derive(Clone, Copy, Debug, PartialEq, Eq, Structural)]
/// The error for a line that matched no rule: how many tokens it held.
pub struct UnmatchedLine {
    /// The number of tokens in the unmatched line.
    pub token_count: usize,
}

/// The no-match handler that reports an `UnmatchedLine` error.
pub struct ReportUnmatched;

impl<Token> NoMatchHandler<Token, UnmatchedLine> for ReportUnmatched {
    open spec fn error_spec(&self, tokens: Seq<Token>) -> UnmatchedLine {
        UnmatchedLine { token_count: tokens.len() as usize }
    }

    open spec fn obeys_spec(&self) -> bool {
        true
    }

    fn no_match(&self, tokens: Vec<Token>) -> (e: UnmatchedLine) {
        UnmatchedLine { token_count: tokens.len() }
    }
}

} // verus!
