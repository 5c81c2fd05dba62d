//! A generic line-oriented tokenizing utility: input text is cut into lines,
//! each line is cut at caller-chosen splitter characters, every fragment is
//! handed to a caller-supplied token parser, and the first rule whose
//! condition matches a line's tokens turns them into output codes. A
//! caller-chosen state value threads through every step.

pub mod simple_rules;

use core::marker::PhantomData;
use vstd::prelude::*;

verus! {

/// Split a character sequence at every occurrence of any separator
/// character. Empty pieces are kept, so the result always holds exactly one
/// piece more than there are separator occurrences.
pub open spec fn split_on(s: Seq<char>, seps: Seq<char>) -> Seq<Seq<char>>
    decreases s.len(),
{
    if s.len() == 0 {
        seq![Seq::<char>::empty()]
    } else if seps.contains(s[0]) {
        seq![Seq::<char>::empty()] + split_on(s.drop_first(), seps)
    } else {
        let rest = split_on(s.drop_first(), seps);
        rest.update(0, seq![s[0]] + rest[0])
    }
}

/// A split never produces an empty list of pieces.
pub proof fn lemma_split_on_len(s: Seq<char>, seps: Seq<char>)
    ensures
        split_on(s, seps).len() >= 1,
    decreases s.len(),
{
    if s.len() > 0 {
        lemma_split_on_len(s.drop_first(), seps);
    }
}

/// A prefix glued onto the first piece of a split.
spec fn prepend_first(prefix: Seq<char>, pieces: Seq<Seq<char>>) -> Seq<Seq<char>>
    recommends
        pieces.len() >= 1,
{
    pieces.update(0, prefix + pieces[0])
}

proof fn lemma_split_on_skip(s: Seq<char>, seps: Seq<char>, i: int)
    requires
        0 <= i < s.len(),
    ensures
        seps.contains(s[i]) ==> split_on(s.skip(i), seps) == seq![Seq::<char>::empty()]
            + split_on(s.skip(i + 1), seps),
        !seps.contains(s[i]) ==> split_on(s.skip(i), seps) == prepend_first(
            seq![s[i]],
            split_on(s.skip(i + 1), seps),
        ),
{
    assert(s.skip(i).drop_first() =~= s.skip(i + 1));
    assert(s.skip(i)[0] == s[i]);
    assert(s.skip(i).len() > 0);
}

proof fn lemma_prepend_first_empty(pieces: Seq<Seq<char>>)
    requires
        pieces.len() >= 1,
    ensures
        prepend_first(Seq::<char>::empty(), pieces) == pieces,
{
    assert(Seq::<char>::empty() + pieces[0] =~= pieces[0]);
    assert(prepend_first(Seq::<char>::empty(), pieces) =~~= pieces);
}

proof fn lemma_prepend_first_twice(a: Seq<char>, b: Seq<char>, pieces: Seq<Seq<char>>)
    requires
        pieces.len() >= 1,
    ensures
        prepend_first(a, prepend_first(b, pieces)) == prepend_first(a + b, pieces),
{
    assert(a + (b + pieces[0]) =~= (a + b) + pieces[0]);
    assert(prepend_first(a, prepend_first(b, pieces)) =~~= prepend_first(a + b, pieces));
}

/// Whether a character occurs in the list.
fn contains_char(chars: &Vec<char>, c: char) -> (b: bool)
    ensures
        b == chars@.contains(c),
{
    let n = chars.len();
    let mut i: usize = 0;
    while i < n
        invariant
            n == chars@.len(),
            0 <= i <= n,
            forall|j: int| 0 <= j < i ==> chars@[j] != c,
        decreases n - i,
    {
        if chars[i] == c {
            return true;
        }
        i = i + 1;
    }
    false
}

/// Split a string at every occurrence of any splitter character, keeping
/// empty fragments, as the splitting of the tokenizer's lines does.
fn split_str(s: &str, splitters: &Vec<char>) -> (r: Vec<String>)
    ensures
        r@.map_values(|x: String| x@) == split_on(s@, splitters@),
{
    let n = s.unicode_len();
    let mut result: Vec<String> = Vec::new();
    let mut start: usize = 0;
    let mut i: usize = 0;
    proof {
        lemma_split_on_len(s@, splitters@);
        lemma_prepend_first_empty(split_on(s@, splitters@));
        assert(s@.skip(0) =~= s@);
        assert(s@.subrange(0, 0) =~= Seq::<char>::empty());
        assert(result@.map_values(|x: String| x@) =~~= Seq::<Seq<char>>::empty());
    }
    while i < n
        invariant
            n == s@.len(),
            0 <= start <= i <= n,
            split_on(s@, splitters@) == result@.map_values(|x: String| x@) + prepend_first(
                s@.subrange(start as int, i as int),
                split_on(s@.skip(i as int), splitters@),
            ),
        decreases n - i,
    {
        let ghost pieces_rest = split_on(s@.skip(i as int), splitters@);
        let ghost pieces_next = split_on(s@.skip(i + 1), splitters@);
        let ghost cur = s@.subrange(start as int, i as int);
        proof {
            lemma_split_on_skip(s@, splitters@, i as int);
            lemma_split_on_len(s@.skip(i + 1), splitters@);
        }
        let c = s.get_char(i);
        if contains_char(splitters, c) {
            let piece = s.substring_char(start, i);
            result.push(String::from_str(piece));
            proof {
                assert(cur + Seq::<char>::empty() =~= cur);
                assert(prepend_first(cur, seq![Seq::<char>::empty()] + pieces_next) =~~= seq![cur]
                    + pieces_next);
                lemma_prepend_first_empty(pieces_next);
                assert(result@.map_values(|x: String| x@) =~~= result@.drop_last().map_values(
                    |x: String| x@,
                ).push(cur));
                assert(result@.drop_last().map_values(|x: String| x@).push(cur) + pieces_next
                    =~~= result@.drop_last().map_values(|x: String| x@) + (seq![cur] + pieces_next));
            }
            start = i + 1;
            proof {
                assert(s@.subrange(start as int, i + 1) =~= Seq::<char>::empty());
            }
        } else {
            proof {
                lemma_prepend_first_twice(cur, seq![s@[i as int]], pieces_next);
                assert(cur + seq![s@[i as int]] =~= s@.subrange(start as int, i + 1));
            }
        }
        i = i + 1;
    }
    let piece = s.substring_char(start, n);
    result.push(String::from_str(piece));
    proof {
        assert(s@.skip(n as int) =~= Seq::<char>::empty());
        let cur = s@.subrange(start as int, n as int);
        assert(prepend_first(cur, split_on(s@.skip(n as int), splitters@)) =~~= seq![cur]);
        assert(result@.map_values(|x: String| x@) =~~= result@.drop_last().map_values(
            |x: String| x@,
        ).push(cur));
        assert(result@.drop_last().map_values(|x: String| x@).push(cur) =~~= result@.drop_last(
        ).map_values(|x: String| x@) + seq![cur]);
        assert(result@.map_values(|x: String| x@) =~~= split_on(s@, splitters@));
    }
    result
}

/// Strip one trailing carriage return: a line ending written as a carriage
/// return before the newline leaves it on the piece before the cut.
pub open spec fn strip_carriage_return(line: Seq<char>) -> Seq<char> {
    if line.len() > 0 && line.last() == '\r' {
        line.drop_last()
    } else {
        line
    }
}

/// Cut text into lines: pieces between newline characters, each stripped of
/// one trailing carriage return; a final line ending is optional and adds no
/// empty last line.
pub open spec fn split_lines(s: Seq<char>) -> Seq<Seq<char>> {
    let pieces = split_on(s, seq!['\n']);
    let kept = pieces.take(pieces.len() - 1).map_values(
        |p: Seq<char>| strip_carriage_return(p),
    );
    if pieces.last().len() == 0 {
        kept
    } else {
        kept + seq![pieces.last()]
    }
}

fn strip_carriage_return_exec(line: &String) -> (r: String)
    ensures
        r@ == strip_carriage_return(line@),
{
    let s = line.as_str();
    let n = s.unicode_len();
    if n > 0 && s.get_char(n - 1) == '\r' {
        proof {
            assert(line@.drop_last() =~= line@.subrange(0, n - 1));
        }
        String::from_str(s.substring_char(0, n - 1))
    } else {
        line.clone()
    }
}

/// Cut a string into lines, as `split_lines` describes.
fn split_into_lines(s: &str) -> (r: Vec<String>)
    ensures
        r@.map_values(|x: String| x@) == split_lines(s@),
{
    let mut seps: Vec<char> = Vec::new();
    seps.push('\n');
    proof {
        assert(seps@ =~= seq!['\n']);
    }
    let pieces = split_str(s, &seps);
    proof {
        lemma_split_on_len(s@, seps@);
    }
    let n = pieces.len();
    let ghost views = pieces@.map_values(|x: String| x@);
    let mut r: Vec<String> = Vec::new();
    let mut i: usize = 0;
    while i < n - 1
        invariant
            n == pieces@.len(),
            n >= 1,
            views == pieces@.map_values(|x: String| x@),
            views == split_on(s@, seq!['\n']),
            0 <= i <= n - 1,
            r@.map_values(|x: String| x@) =~~= views.take(i as int).map_values(
                |p: Seq<char>| strip_carriage_return(p),
            ),
        decreases n - i,
    {
        let line = strip_carriage_return_exec(&pieces[i]);
        r.push(line);
        proof {
            assert(views.take(i + 1) =~~= views.take(i as int).push(views[i as int]));
            assert(views.take(i + 1).map_values(|p: Seq<char>| strip_carriage_return(p))
                =~~= views.take(i as int).map_values(|p: Seq<char>| strip_carriage_return(p)).push(
                strip_carriage_return(views[i as int]),
            ));
            assert(r@.map_values(|x: String| x@) =~~= r@.drop_last().map_values(
                |x: String| x@,
            ).push(strip_carriage_return(views[i as int])));
        }
        i = i + 1;
    }
    proof {
        assert(views.take(n - 1) =~~= views.take(views.len() - 1));
    }
    let last = &pieces[n - 1];
    if last.as_str().unicode_len() > 0 {
        r.push(last.clone());
        proof {
            assert(views.last() == last@);
            assert(r@.map_values(|x: String| x@) =~~= r@.drop_last().map_values(
                |x: String| x@,
            ) + seq![views.last()]);
            assert(r@.map_values(|x: String| x@) =~~= split_lines(s@));
        }
    } else {
        proof {
            assert(views.last() == last@);
            assert(r@.map_values(|x: String| x@) =~~= split_lines(s@));
        }
    }
    r
}


/// Whether an executable token-or-code result agrees with a
/// specification-level one.
pub open spec fn result_matches<T, E>(r: Result<Vec<T>, E>, s: Result<Seq<T>, E>) -> bool {
    match r {
        Ok(v) => s == Ok::<Seq<T>, E>(v@),
        Err(e) => s == Err::<Seq<T>, E>(e),
    }
}

/// Turns one fragment of a line into tokens, threading a caller-chosen state
/// value. An implementor fixes its behaviour with `parse_spec` and proves its
/// executable code against it; the tokenizer's contracts are exact for every
/// implementor whose `obeys_spec` holds.
pub trait TokenParser<Token, Error, State>: Sized {
    /// The function the parser computes: the tokens or the error, and the
    /// state left behind.
    spec fn parse_spec(&self, fragment: Seq<char>, state: State) -> (
        Result<Seq<Token>, Error>,
        State,
    );

    /// Whether the executable parser is pinned to `parse_spec`.
    spec fn obeys_spec(&self) -> bool;

    /// Parse one fragment.
    fn parse(&self, fragment: String, state: &mut State) -> (r: Result<Vec<Token>, Error>)
        ensures
            self.obeys_spec() ==> ({
                let (sr, s2) = self.parse_spec(fragment@, *old(state));
                &&& result_matches(r, sr)
                &&& *final(state) == s2
            }),
    ;
}

/// Decides whether a rule applies to a line's tokens; it may read and update
/// the threaded state.
pub trait RuleCondition<Token, State>: Sized {
    /// The decision the condition computes, and the state left behind.
    spec fn check_spec(&self, input: Seq<Token>, state: State) -> (bool, State);

    /// Whether the executable condition is pinned to `check_spec`.
    spec fn obeys_spec(&self) -> bool;

    /// Test the condition against a line's tokens.
    fn check(&self, input: &Vec<Token>, state: &mut State) -> (b: bool)
        ensures
            self.obeys_spec() ==> ({
                let (br, s2) = self.check_spec(input@, *old(state));
                &&& b == br
                &&& *final(state) == s2
            }),
    ;
}

/// Turns a matched line's tokens into output codes.
pub trait RuleAction<Token, Code, Error, State>: Sized {
    /// The function the action computes: the codes or the error, and the
    /// state left behind.
    spec fn parse_spec(&self, input: Seq<Token>, state: State) -> (
        Result<Seq<Code>, Error>,
        State,
    );

    /// Whether the executable action is pinned to `parse_spec`.
    spec fn obeys_spec(&self) -> bool;

    /// Apply the rule to a matched line's tokens.
    fn parse(&self, input: Vec<Token>, state: &mut State) -> (r: Result<Vec<Code>, Error>)
        ensures
            self.obeys_spec() ==> ({
                let (sr, s2) = self.parse_spec(input@, *old(state));
                &&& result_matches(r, sr)
                &&& *final(state) == s2
            }),
    ;
}

/// Builds the error reported for a line that matched no rule.
pub trait NoMatchHandler<Token, Error>: Sized {
    /// The error built from the unmatched line's tokens.
    spec fn error_spec(&self, tokens: Seq<Token>) -> Error;

    /// Whether the executable handler is pinned to `error_spec`.
    spec fn obeys_spec(&self) -> bool;

    /// Build the error for an unmatched line.
    fn no_match(&self, tokens: Vec<Token>) -> (e: Error)
        ensures
            self.obeys_spec() ==> e == self.error_spec(tokens@),
    ;
}

/// What parsing the fragments from index `i` on yields: the concatenation of
/// every fragment's tokens, or the first error, with the state threaded
/// through each call in order.
pub open spec fn parse_fragments_from_spec<
    Token,
    Error,
    State,
    Parser: TokenParser<Token, Error, State>,
>(parser: Parser, frags: Seq<Seq<char>>, i: int, state: State) -> (Result<Seq<Token>, Error>, State)
    decreases frags.len() - i,
{
    if i < 0 || i >= frags.len() {
        (Ok(Seq::<Token>::empty()), state)
    } else {
        let (r0, s1) = parser.parse_spec(frags[i], state);
        match r0 {
            Err(e) => (Err(e), s1),
            Ok(tokens) => {
                let (rr, s2) = parse_fragments_from_spec(parser, frags, i + 1, s1);
                match rr {
                    Err(e) => (Err(e), s2),
                    Ok(more) => (Ok(tokens + more), s2),
                }
            },
        }
    }
}

/// What trying the rules from index `i` on yields: the first rule whose
/// condition matches decides the line; a line no rule matches becomes the
/// no-match error. Conditions run, and may update the state, until one
/// matches.
pub open spec fn process_line_from_spec<
    Token,
    Error,
    Code,
    State,
    Condition: RuleCondition<Token, State>,
    Action: RuleAction<Token, Code, Error, State>,
    MatchErrorFunction: NoMatchHandler<Token, Error>,
>(
    rules: Seq<(Condition, Action)>,
    no_match_fn: MatchErrorFunction,
    input: Seq<Token>,
    i: int,
    state: State,
) -> (Result<Seq<Code>, Error>, State)
    decreases rules.len() - i,
{
    if i < 0 || i >= rules.len() {
        (Err(no_match_fn.error_spec(input)), state)
    } else {
        let (matched, s1) = rules[i].0.check_spec(input, state);
        if matched {
            rules[i].1.parse_spec(input, s1)
        } else {
            process_line_from_spec(rules, no_match_fn, input, i + 1, s1)
        }
    }
}

/// The tokenizer: splitter characters, a fragment parser, an ordered rule
/// list, and the error builder for lines no rule matches.
pub struct Tokenizer<Token, Error, Code, Parser, MatchErrorFunction, Condition, Action, State>
    where
        Parser: TokenParser<Token, Error, State>,
        MatchErrorFunction: NoMatchHandler<Token, Error>,
        Condition: RuleCondition<Token, State>,
        Action: RuleAction<Token, Code, Error, State>,
{
    splitters: Vec<char>,
    parser: Parser,
    rules: Vec<(Condition, Action)>,
    no_match_fn: MatchErrorFunction,
    markers: PhantomData<(Token, Error, Code, State)>,
}

impl<Token, Error, Code, Parser, MatchErrorFunction, Condition, Action, State> Tokenizer<
    Token,
    Error,
    Code,
    Parser,
    MatchErrorFunction,
    Condition,
    Action,
    State,
> where
    Parser: TokenParser<Token, Error, State>,
    MatchErrorFunction: NoMatchHandler<Token, Error>,
    Condition: RuleCondition<Token, State>,
    Action: RuleAction<Token, Code, Error, State>,
{
    /// The characters lines are split at.
    pub closed spec fn spec_splitters(self) -> Seq<char> {
        self.splitters@
    }

    /// The fragment parser.
    pub closed spec fn spec_parser(self) -> Parser {
        self.parser
    }

    /// The ordered rules, each a condition paired with an action.
    pub closed spec fn spec_rules(self) -> Seq<(Condition, Action)> {
        self.rules@
    }

    /// The builder of the no-match error.
    pub closed spec fn spec_no_match(self) -> MatchErrorFunction {
        self.no_match_fn
    }

    /// Whether every part of the tokenizer is pinned to its specification;
    /// the contracts of `process_line` and `process` are exact exactly then.
    pub open spec fn obeys(self) -> bool {
        &&& self.spec_parser().obeys_spec()
        &&& self.spec_no_match().obeys_spec()
        &&& forall|i: int|
            0 <= i < self.spec_rules().len() ==> (#[trigger] self.spec_rules()[i]).0.obeys_spec()
                && self.spec_rules()[i].1.obeys_spec()
    }

    /// What `process_line` computes on a line's tokens.
    pub open spec fn process_line_spec(self, input: Seq<Token>, state: State) -> (
        Result<Seq<Code>, Error>,
        State,
    ) {
        process_line_from_spec(self.spec_rules(), self.spec_no_match(), input, 0, state)
    }

    /// What processing the lines from index `i` on yields: each line's
    /// fragments parsed to tokens, the line decided by its first matching
    /// rule, all codes concatenated, with the first error ending the run.
    pub open spec fn process_lines_spec(self, lines: Seq<Seq<char>>, i: int, state: State) -> (
        Result<Seq<Code>, Error>,
        State,
    )
        decreases lines.len() - i,
    {
        if i < 0 || i >= lines.len() {
            (Ok(Seq::<Code>::empty()), state)
        } else {
            let frags = split_on(lines[i], self.spec_splitters());
            let (tr, s1) = parse_fragments_from_spec(self.spec_parser(), frags, 0, state);
            match tr {
                Err(e) => (Err(e), s1),
                Ok(tokens) => {
                    let (lr, s2) = self.process_line_spec(tokens, s1);
                    match lr {
                        Err(e) => (Err(e), s2),
                        Ok(codes) => {
                            let (rr, s3) = self.process_lines_spec(lines, i + 1, s2);
                            match rr {
                                Err(e) => (Err(e), s3),
                                Ok(more) => (Ok(codes + more), s3),
                            }
                        },
                    }
                },
            }
        }
    }

    /// What `process` computes on input text and a starting state.
    pub open spec fn process_spec(self, input: Seq<char>, state: State) -> (
        Result<Seq<Code>, Error>,
        State,
    ) {
        self.process_lines_spec(split_lines(input), 0, state)
    }

    /// A tokenizer with no splitters and no rules.
    pub fn new(parser: Parser, no_match_fn: MatchErrorFunction) -> (t: Self)
        ensures
            t.spec_splitters() == Seq::<char>::empty(),
            t.spec_rules() == Seq::<(Condition, Action)>::empty(),
            t.spec_parser() == parser,
            t.spec_no_match() == no_match_fn,
    {
        Tokenizer {
            splitters: Vec::new(),
            parser,
            rules: Vec::new(),
            no_match_fn,
            markers: PhantomData,
        }
    }

    /// Append one rule: a condition and the action taken when it is the
    /// first to match a line.
    pub fn add_rule(self, condition: Condition, parse: Action) -> (t: Self)
        ensures
            t.spec_rules() == self.spec_rules().push((condition, parse)),
            t.spec_splitters() == self.spec_splitters(),
            t.spec_parser() == self.spec_parser(),
            t.spec_no_match() == self.spec_no_match(),
    {
        let mut t = self;
        t.rules.push((condition, parse));
        t
    }

    /// Append one splitter character.
    pub fn add_splitter(self, splitter: char) -> (t: Self)
        ensures
            t.spec_splitters() == self.spec_splitters().push(splitter),
            t.spec_rules() == self.spec_rules(),
            t.spec_parser() == self.spec_parser(),
            t.spec_no_match() == self.spec_no_match(),
    {
        let mut t = self;
        t.splitters.push(splitter);
        t
    }

    /// Decide one line of tokens by its first matching rule.
    pub fn process_line(&self, input: Vec<Token>, state: &mut State) -> (r: Result<
        Vec<Code>,
        Error,
    >)
        ensures
            self.obeys() ==> ({
                let (sr, s2) = self.process_line_spec(input@, *old(state));
                &&& result_matches(r, sr)
                &&& *final(state) == s2
            }),
    {
        self.process_line_from(input, 0, state)
    }

    fn process_line_from(&self, input: Vec<Token>, i: usize, state: &mut State) -> (r: Result<
        Vec<Code>,
        Error,
    >)
        requires
            i <= self.spec_rules().len(),
        ensures
            self.obeys() ==> ({
                let (sr, s2) = process_line_from_spec(
                    self.spec_rules(),
                    self.spec_no_match(),
                    input@,
                    i as int,
                    *old(state),
                );
                &&& result_matches(r, sr)
                &&& *final(state) == s2
            }),
        decreases self.spec_rules().len() - i,
    {
        if i >= self.rules.len() {
            Err(self.no_match_fn.no_match(input))
        } else {
            let rule = &self.rules[i];
            let matched = rule.0.check(&input, state);
            if matched {
                rule.1.parse(input, state)
            } else {
                self.process_line_from(input, i + 1, state)
            }
        }
    }

    fn parse_fragments(&self, frags: &Vec<String>, i: usize, state: &mut State) -> (r: Result<
        Vec<Token>,
        Error,
    >)
        requires
            i <= frags@.len(),
        ensures
            self.obeys() ==> ({
                let (sr, s2) = parse_fragments_from_spec(
                    self.spec_parser(),
                    frags@.map_values(|x: String| x@),
                    i as int,
                    *old(state),
                );
                &&& result_matches(r, sr)
                &&& *final(state) == s2
            }),
        decreases frags@.len() - i,
    {
        if i >= frags.len() {
            Ok(Vec::new())
        } else {
            let fr = self.parser.parse(frags[i].clone(), state);
            match fr {
                Err(e) => Err(e),
                Ok(tokens) => {
                    let rr = self.parse_fragments(frags, i + 1, state);
                    match rr {
                        Err(e) => Err(e),
                        Ok(mut more) => {
                            let mut out = tokens;
                            out.append(&mut more);
                            Ok(out)
                        },
                    }
                },
            }
        }
    }

    fn process_lines(&self, lines: &Vec<String>, i: usize, state: &mut State) -> (r: Result<
        Vec<Code>,
        Error,
    >)
        requires
            i <= lines@.len(),
        ensures
            self.obeys() ==> ({
                let (sr, s2) = self.process_lines_spec(
                    lines@.map_values(|x: String| x@),
                    i as int,
                    *old(state),
                );
                &&& result_matches(r, sr)
                &&& *final(state) == s2
            }),
        decreases lines@.len() - i,
    {
        if i >= lines.len() {
            Ok(Vec::new())
        } else {
            let frags = split_str(lines[i].as_str(), &self.splitters);
            let tr = self.parse_fragments(&frags, 0, state);
            match tr {
                Err(e) => Err(e),
                Ok(tokens) => {
                    let lr = self.process_line(tokens, state);
                    match lr {
                        Err(e) => Err(e),
                        Ok(codes) => {
                            let rr = self.process_lines(lines, i + 1, state);
                            match rr {
                                Err(e) => Err(e),
                                Ok(mut more) => {
                                    let mut out = codes;
                                    out.append(&mut more);
                                    Ok(out)
                                },
                            }
                        },
                    }
                },
            }
        }
    }

    /// Tokenize and interpret whole input text: cut it into lines, cut each
    /// line at the splitters, parse every fragment, decide every line by its
    /// first matching rule, and concatenate the codes of all lines; the
    /// first error anywhere ends the run with that error.
    pub fn process(self, input: String, initial_state: State) -> (r: Result<Vec<Code>, Error>)
        ensures
            self.obeys() ==> result_matches(r, self.process_spec(input@, initial_state).0),
    {
        let lines = split_into_lines(input.as_str());
        let mut state = initial_state;
        self.process_lines(&lines, 0, &mut state)
    }
}

} // verus!
