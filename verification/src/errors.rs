//! The failures of start-up, and how each is worded.

use vstd::prelude::*;
use vstd::string::*;
use crate::text::chars_of;

verus! {

/// Why start-up stopped. Every failure is final: nothing is retried.
#[derive(Debug, PartialEq, Eq)]
pub enum ContextualError {
    /// The port was left to the system, and the system had none to give.
    PortAllocationError,
    /// The directory to serve is missing or out of reach. Holds the cause.
    PathResolutionError(String),
    /// A text did not parse. Holds the text, then the cause.
    ParseError(String, String),
    /// The listener could not be bound on every address. Holds the cause.
    BindError(String),
    /// A configuration file could not be used. No start-up mode reads one
    /// yet, so nothing returns this.
    ConfigFileError,
}

/// A failure as a value of mathematics: the texts are sequences of
/// characters.
pub enum Failure {
    PortAllocation,
    PathResolution(Seq<char>),
    Parse(Seq<char>, Seq<char>),
    Bind(Seq<char>),
    ConfigFile,
}

impl View for ContextualError {
    type V = Failure;

    open spec fn view(&self) -> Failure {
        match *self {
            ContextualError::PortAllocationError => Failure::PortAllocation,
            ContextualError::PathResolutionError(cause) => Failure::PathResolution(cause@),
            ContextualError::ParseError(what, cause) => Failure::Parse(what@, cause@),
            ContextualError::BindError(cause) => Failure::Bind(cause@),
            ContextualError::ConfigFileError => Failure::ConfigFile,
        }
    }
}

impl Failure {
    /// The wording of the failure: what was attempted on the first line,
    /// and the cause, where there is one, on a line of its own.
    pub open spec fn description(self) -> Seq<char> {
        match self {
            Failure::PortAllocation => "no free ports available"@,
            Failure::PathResolution(cause) => {
                "Failed to resolve path to be served\ncaused by: "@ + cause
            },
            Failure::Parse(what, cause) => "Failed to parse "@ + what + "\ncaused by: "@ + cause,
            Failure::Bind(cause) => "Failed to bind server\ncaused by: "@ + cause,
            Failure::ConfigFile => "Failed to read the configuration file"@,
        }
    }
}

impl Failure {
    /// The wording of the failure line by line: the attempt, then the
    /// cause where there is one.
    pub open spec fn chain(self) -> Seq<Seq<char>> {
        match self {
            Failure::PortAllocation => seq!["no free ports available"@],
            Failure::PathResolution(cause) => seq![
                "Failed to resolve path to be served"@,
                "caused by: "@ + cause,
            ],
            Failure::Parse(what, cause) => seq!["Failed to parse "@ + what, "caused by: "@ + cause],
            Failure::Bind(cause) => seq!["Failed to bind server"@, "caused by: "@ + cause],
            Failure::ConfigFile => seq!["Failed to read the configuration file"@],
        }
    }

    /// Whether each text that the failure holds is a single line, and the
    /// text of what was parsed does not end in a carriage return.
    pub open spec fn holds_single_lines(self) -> bool {
        match self {
            Failure::PortAllocation => true,
            Failure::PathResolution(cause) => is_single_line(cause),
            Failure::Parse(what, cause) => {
                &&& is_single_line(what)
                &&& is_single_line(cause)
                &&& (what.len() > 0 ==> what.last() != '\r')
            },
            Failure::Bind(cause) => is_single_line(cause),
            Failure::ConfigFile => true,
        }
    }
}

impl Clone for ContextualError {
    fn clone(&self) -> (copy: Self)
        ensures
            copy@ == self@,
    {
        match self {
            ContextualError::PortAllocationError => ContextualError::PortAllocationError,
            ContextualError::PathResolutionError(cause) => ContextualError::PathResolutionError(
                cause.clone(),
            ),
            ContextualError::ParseError(what, cause) => ContextualError::ParseError(
                what.clone(),
                cause.clone(),
            ),
            ContextualError::BindError(cause) => ContextualError::BindError(cause.clone()),
            ContextualError::ConfigFileError => ContextualError::ConfigFileError,
        }
    }
}

impl ContextualError {

    /// The failure in words.
    pub fn describe(&self) -> (out: String)
        ensures
            out@ == self@.description(),
    {
        match self {
            ContextualError::PortAllocationError => String::from_str("no free ports available"),
            ContextualError::PathResolutionError(cause) => {
                let mut out = String::from_str("Failed to resolve path to be served\ncaused by: ");
                out.append(cause.as_str());
                out
            },
            ContextualError::ParseError(what, cause) => {
                let mut out = String::from_str("Failed to parse ");
                out.append(what.as_str());
                out.append("\ncaused by: ");
                out.append(cause.as_str());
                out
            },
            ContextualError::BindError(cause) => {
                let mut out = String::from_str("Failed to bind server\ncaused by: ");
                out.append(cause.as_str());
                out
            },
            ContextualError::ConfigFileError => {
                String::from_str("Failed to read the configuration file")
            },
        }
    }
}

/// How many characters of `text` stand before its first line feed; the
/// length of `text` where it has none.
pub open spec fn first_line_len(text: Seq<char>) -> nat
    decreases text.len(),
{
    if text.len() == 0 || text[0] == '\n' {
        0
    } else {
        1 + first_line_len(text.drop_first())
    }
}

/// `line` without the carriage return at its end, if it has one.
pub open spec fn without_carriage_return(line: Seq<char>) -> Seq<char> {
    if line.len() > 0 && line.last() == '\r' {
        line.drop_last()
    } else {
        line
    }
}

/// The lines of `text`. A line ends at a line feed, or at a carriage
/// return directly followed by one; the line ending is not part of the
/// line. What follows the last line feed is a line too, unless it is
/// empty, and keeps a carriage return at its end.
pub open spec fn lines_of(text: Seq<char>) -> Seq<Seq<char>>
    decreases text.len(),
{
    if text.len() == 0 {
        Seq::empty()
    } else {
        let n = first_line_len(text) as int;
        if n >= text.len() {
            seq![text]
        } else {
            seq![without_carriage_return(text.take(n))] + lines_of(text.skip(n + 1))
        }
    }
}

/// Whether `text` holds no line feed.
pub open spec fn is_single_line(text: Seq<char>) -> bool {
    forall|i: int| 0 <= i < text.len() ==> text[i] != '\n'
}

/// `first_line_len` finds the first line feed.
pub proof fn lemma_first_line_len(text: Seq<char>, n: int)
    requires
        0 <= n <= text.len(),
        forall|j: int| 0 <= j < n ==> text[j] != '\n',
        n < text.len() ==> text[n] == '\n',
    ensures
        first_line_len(text) == n,
    decreases n,
{
    if n > 0 {
        let rest = text.drop_first();
        assert forall|j: int| 0 <= j < n - 1 implies rest[j] != '\n' by {
            assert(rest[j] == text[j + 1]);
        }
        lemma_first_line_len(rest, n - 1);
    }
}

/// A text without line feed and not empty is its own and only line.
pub proof fn lemma_lines_of_single_line(text: Seq<char>)
    requires
        is_single_line(text),
        text.len() > 0,
    ensures
        lines_of(text) == seq![text],
{
    lemma_first_line_len(text, text.len() as int);
}

/// Two single lines with a line feed between them are the two lines of
/// the whole, if the first does not end in a carriage return and the
/// second is not empty.
pub proof fn lemma_lines_of_two_lines(first: Seq<char>, second: Seq<char>)
    requires
        is_single_line(first),
        is_single_line(second),
        first.len() > 0 ==> first.last() != '\r',
        second.len() > 0,
    ensures
        lines_of(first + seq!['\n'] + second) == seq![first, second],
{
    let text = first + seq!['\n'] + second;
    let n = first.len() as int;
    lemma_first_line_len(text, n);
    assert(text.take(n) =~= first);
    assert(text.skip(n + 1) =~= second);
    lemma_lines_of_single_line(second);
    assert(seq![first] + seq![second] =~= seq![first, second]);
}

/// The chain of a failure that holds single lines is its attempt and its
/// cause: what `log_error_chain` returns for what `describe` returns.
pub proof fn lemma_chain_of_failure(failure: Failure)
    requires
        failure.holds_single_lines(),
    ensures
        lines_of(failure.description()) == failure.chain(),
{
    reveal_strlit("no free ports available");
    reveal_strlit("Failed to read the configuration file");
    reveal_strlit("Failed to resolve path to be served\ncaused by: ");
    reveal_strlit("Failed to resolve path to be served");
    reveal_strlit("Failed to parse ");
    reveal_strlit("\ncaused by: ");
    reveal_strlit("Failed to bind server\ncaused by: ");
    reveal_strlit("Failed to bind server");
    reveal_strlit("caused by: ");
    match failure {
        Failure::PortAllocation => {
            lemma_lines_of_single_line("no free ports available"@);
        },
        Failure::ConfigFile => {
            lemma_lines_of_single_line("Failed to read the configuration file"@);
        },
        Failure::PathResolution(cause) => {
            let first = "Failed to resolve path to be served"@;
            let second = "caused by: "@ + cause;
            lemma_lines_of_two_lines(first, second);
            assert(failure.description() =~= first + seq!['\n'] + second);
        },
        Failure::Parse(what, cause) => {
            let first = "Failed to parse "@ + what;
            let second = "caused by: "@ + cause;
            lemma_lines_of_two_lines(first, second);
            assert(failure.description() =~= first + seq!['\n'] + second);
        },
        Failure::Bind(cause) => {
            let first = "Failed to bind server"@;
            let second = "caused by: "@ + cause;
            lemma_lines_of_two_lines(first, second);
            assert(failure.description() =~= first + seq!['\n'] + second);
        },
    }
}

/// The chain of causes that `description` words, one per line, first
/// cause first.
pub fn log_error_chain(description: String) -> (chain: Vec<String>)
    ensures
        chain.deep_view() == lines_of(description@),
{
    let text = description.as_str();
    let chars = chars_of(text);
    let mut chain: Vec<String> = Vec::new();
    let mut start: usize = 0;
    let mut i: usize = 0;
    assert(text@.skip(0) =~= text@);
    assert(chain.deep_view() + lines_of(text@) =~= lines_of(text@));
    while i < chars.len()
        invariant
            chars@ == text@,
            start <= i <= chars.len(),
            forall|j: int| start <= j < i ==> chars@[j] != '\n',
            lines_of(text@) == chain.deep_view() + lines_of(text@.skip(start as int)),
        decreases chars.len() - i,
    {
        if chars[i] == '\n' {
            let ghost rest = text@.skip(start as int);
            let ghost n = i - start;
            proof {
                lemma_first_line_len(rest, n);
                assert(rest.skip(n + 1) =~= text@.skip(i + 1));
                assert(rest.take(n) =~= text@.subrange(start as int, i as int));
            }
            let end: usize = if i > start && chars[i - 1] == '\r' {
                i - 1
            } else {
                i
            };
            let line = text.substring_char(start, end).to_owned();
            assert(line@ =~= without_carriage_return(rest.take(n)));
            let ghost before = chain.deep_view();
            chain.push(line);
            assert(chain.deep_view() =~= before + seq![line@]);
            start = i + 1;
        }
        i = i + 1;
    }
    if start < chars.len() {
        let ghost rest = text@.skip(start as int);
        proof {
            lemma_first_line_len(rest, rest.len() as int);
            assert(rest =~= text@.subrange(start as int, text@.len() as int));
        }
        let line = text.substring_char(start, chars.len()).to_owned();
        let ghost before = chain.deep_view();
        chain.push(line);
        assert(chain.deep_view() =~= before + seq![line@]);
    } else {
        assert(text@.skip(start as int).len() == 0);
        assert(chain.deep_view() + Seq::<Seq<char>>::empty() =~= chain.deep_view());
    }
    chain
}

} // verus!
