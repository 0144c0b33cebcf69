//! The command protocol: the one-letter commands that a short-lived
//! invocation leaves for the background process, and the requests that
//! carry them.

use crate::error::TimerError;
use crate::text::{first_token, first_token_bounds, str_equal};
use vstd::prelude::*;

verus! {

/// The pattern that an amount of minutes has to match before it is sent.
pub const AMOUNT_PATTERN: &'static str = "^\\d+$";

/// What the background process can be asked to do.
#[derive(Clone, Copy, Debug, PartialEq, Eq, Structural)]
pub enum Command {
    /// `t`: start tracking, or pause it.
    Toggle,
    /// `a`: add minutes by hand.
    Add,
    /// `s`: subtract minutes by hand.
    Subtract,
    /// `c`: complete the session.
    Complete,
    /// `e`: end the process.
    Exit,
    /// Anything else, the empty command too: do nothing.
    Noop,
}

/// The command that a word stands for.
pub open spec fn command_of(token: Seq<char>) -> Command {
    if token == seq!['t'] {
        Command::Toggle
    } else if token == seq!['a'] {
        Command::Add
    } else if token == seq!['s'] {
        Command::Subtract
    } else if token == seq!['c'] {
        Command::Complete
    } else if token == seq!['e'] {
        Command::Exit
    } else {
        Command::Noop
    }
}

/// The letter that stands for a command; none stands for `Noop`.
pub open spec fn code_of(command: Command) -> Seq<char> {
    match command {
        Command::Toggle => seq!['t'],
        Command::Add => seq!['a'],
        Command::Subtract => seq!['s'],
        Command::Complete => seq!['c'],
        Command::Exit => seq!['e'],
        Command::Noop => Seq::empty(),
    }
}

impl Command {
    /// Reads the command that the content of the command channel asks
    /// for: white space around it is ignored, and only its first word
    /// counts.
    pub fn parse(input: &str) -> (r: Command)
        ensures
            r == command_of(first_token(input@)),
    {
        let (start, end) = first_token_bounds(input);
        if end - start != 1 {
            assert(first_token(input@).len() != 1);
            return Command::Noop;
        }
        let c = input.get_char(start);
        proof {
            assert(first_token(input@) =~= seq![c]);
            assert(seq!['t'][0] == 't');
            assert(seq!['a'][0] == 'a');
            assert(seq!['s'][0] == 's');
            assert(seq!['c'][0] == 'c');
            assert(seq!['e'][0] == 'e');
        }
        if c == 't' {
            Command::Toggle
        } else if c == 'a' {
            Command::Add
        } else if c == 's' {
            Command::Subtract
        } else if c == 'c' {
            Command::Complete
        } else if c == 'e' {
            Command::Exit
        } else {
            Command::Noop
        }
    }

    /// The letter to write into the command channel.
    pub fn code(&self) -> (r: &'static str)
        ensures
            r@ == code_of(*self),
    {
        proof {
            reveal_strlit("t");
            reveal_strlit("a");
            reveal_strlit("s");
            reveal_strlit("c");
            reveal_strlit("e");
            reveal_strlit("");
        }
        let r = match self {
            Command::Toggle => "t",
            Command::Add => "a",
            Command::Subtract => "s",
            Command::Complete => "c",
            Command::Exit => "e",
            Command::Noop => "",
        };
        assert(r@ =~= code_of(*self));
        r
    }
}

/// Reading back the letter of a command gives the command.
pub proof fn law_code_round_trip(command: Command)
    ensures
        command_of(first_token(code_of(command))) == command,
{
    let code = code_of(command);
    if command != Command::Noop {
        assert(code.len() == 1);
        assert(!crate::text::is_whitespace(code[0]));
        assert(code.drop_first() =~= Seq::<char>::empty());
        assert(crate::text::leading_blank(code) == 0);
        assert(code.skip(0) =~= code);
        assert(crate::text::leading_word(code.drop_first()) == 0);
        assert(crate::text::leading_word(code) == 1);
        assert(code.take(1) =~= code);
    } else {
        assert(code.skip(0) =~= code);
        assert(first_token(code) =~= Seq::<char>::empty());
        assert(seq!['t'].len() == 1);
        assert(seq!['a'].len() == 1);
        assert(seq!['s'].len() == 1);
        assert(seq!['c'].len() == 1);
        assert(seq!['e'].len() == 1);
    }
}

/// What one invocation leaves for the background process: the command,
/// and the tag or the amount that goes with it.
#[derive(Debug)]
pub struct Request {
    pub command: Command,
    pub tag: Option<String>,
    pub amount: Option<String>,
}

/// What a request says, with its text as sequences of characters.
#[verifier::ext_equal]
pub struct RequestView {
    pub command: Command,
    pub tag: Option<Seq<char>>,
    pub amount: Option<Seq<char>>,
}

impl View for Request {
    type V = RequestView;

    open spec fn view(&self) -> RequestView {
        RequestView {
            command: self.command,
            tag: match self.tag {
                Some(t) => Some(t@),
                None => None,
            },
            amount: match self.amount {
                Some(a) => Some(a@),
                None => None,
            },
        }
    }
}

/// Whether the pattern `pattern` compiles and, if it does, whether it
/// matches somewhere in `text`: the answer of the regex library.
pub uninterp spec fn regex_match(pattern: Seq<char>, text: Seq<char>) -> Option<bool>;

/// Compiles `pattern` with `regex::Regex::new` and asks `Regex::is_match`
/// whether it matches somewhere in `text`. The answer is a function of
/// the two strings alone, and is nothing when the pattern is refused.
/// What the answer is for given strings is not stated here.
#[verifier::external_body]
fn pattern_matches(pattern: &str, text: &str) -> (r: Option<bool>)
    ensures
        r == regex_match(pattern@, text@),
{
    match regex::Regex::new(pattern) {
        Ok(re) => Some(re.is_match(text)),
        Err(_) => None,
    }
}

/// The request for `command` with `amount`, given what the pattern
/// library said of the amount: it goes out only if the pattern matched.
pub open spec fn amount_request(
    command: Command,
    amount: Seq<char>,
    matched: Option<bool>,
) -> Result<RequestView, TimerError> {
    match matched {
        Some(true) => Ok(RequestView { command, tag: None, amount: Some(amount) }),
        Some(false) => Err(TimerError::InvalidAmount),
        None => Err(TimerError::PatternRejected),
    }
}

/// Builds the request that carries `amount` with `command`, given the
/// answer of the pattern library on the amount.
pub fn checked_amount_request(command: Command, amount: String, matched: Option<bool>) -> (r:
    Result<Request, TimerError>)
    ensures
        match amount_request(command, amount@, matched) {
            Ok(v) => r is Ok && r->Ok_0@ == v,
            Err(e) => r is Err && r->Err_0 == e,
        },
{
    match matched {
        Some(true) => Ok(Request { command, tag: None, amount: Some(amount) }),
        Some(false) => Err(TimerError::InvalidAmount),
        None => Err(TimerError::PatternRejected),
    }
}

/// The request to add `minutes_to_add` minutes. The amount has to match
/// the pattern for amounts; one that does not is turned away.
pub fn add_minutes(minutes_to_add: String) -> (r: Result<Request, TimerError>)
    ensures
        match amount_request(
            Command::Add,
            minutes_to_add@,
            regex_match(AMOUNT_PATTERN@, minutes_to_add@),
        ) {
            Ok(v) => r is Ok && r->Ok_0@ == v,
            Err(e) => r is Err && r->Err_0 == e,
        },
{
    let matched = pattern_matches(AMOUNT_PATTERN, minutes_to_add.as_str());
    checked_amount_request(Command::Add, minutes_to_add, matched)
}

/// The request to subtract `minutes_to_subtract` minutes, under the same
/// rule as an addition.
pub fn subtract_minutes(minutes_to_subtract: String) -> (r: Result<Request, TimerError>)
    ensures
        match amount_request(
            Command::Subtract,
            minutes_to_subtract@,
            regex_match(AMOUNT_PATTERN@, minutes_to_subtract@),
        ) {
            Ok(v) => r is Ok && r->Ok_0@ == v,
            Err(e) => r is Err && r->Err_0 == e,
        },
{
    let matched = pattern_matches(AMOUNT_PATTERN, minutes_to_subtract.as_str());
    checked_amount_request(Command::Subtract, minutes_to_subtract, matched)
}

/// The request to start or pause tracking, under `tag` if one is given.
pub fn trigger_time(tag: Option<String>) -> (r: Request)
    ensures
        r@ == (RequestView {
            command: Command::Toggle,
            tag: match tag {
                Some(t) => Some(t@),
                None => None,
            },
            amount: None,
        }),
{
    Request { command: Command::Toggle, tag, amount: None }
}

/// The request to complete the session, under `tag` if one is given.
pub fn trigger_session_completion(tag: Option<String>) -> (r: Request)
    ensures
        r@ == (RequestView {
            command: Command::Complete,
            tag: match tag {
                Some(t) => Some(t@),
                None => None,
            },
            amount: None,
        }),
{
    Request { command: Command::Complete, tag, amount: None }
}

} // verus!
