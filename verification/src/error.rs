//! The errors a run can end with.

use vstd::prelude::*;

verus! {

/// Errors that can occur while running the briefing.
///
/// The payload of each variant is the message of the failure it stands for.
#[derive(Debug)]
pub enum Error {
    /// Error that may occur during I/O operations.
    Io(String),
    /// Error that may occur while loading the application config file.
    Config(String),
    /// Error that occur while parsing url from string.
    UrlParsing(String),
    /// Error that occur while processing web request.
    Reqwest(String),
    /// Error that occur while processing serialization.
    Serialize(String),
    /// Error returned by the Anthropic API.
    AnthropicApi(String),
    /// Error returned by the miniflux API.
    MinifluxApi(String),
    /// Error may occur by founding state path.
    StatePath,
    /// Error may occur while de parsing toml.
    TomlDeParsing(String),
    /// Error may occur while ser parsing toml.
    TomlSerParsing(String),
    /// Error may occur while parsing interval.
    IntervalParsing(String),
    /// Error may occur while date parsing toml.
    TomlDateParsing(String),
    /// The output directory of the report does not exist.
    OutputNotExist,
    /// The clock reads a time outside the years this library handles, or a
    /// window starts before them.
    TimeOutOfRange,
}

/// The message of an error: a fixed prefix, then the payload between backticks.
pub open spec fn framed(prefix: Seq<char>, detail: Seq<char>) -> Seq<char> {
    prefix + seq!['`'] + detail + seq!['`']
}

/// The text each error displays as.
pub open spec fn error_message(e: Error) -> Seq<char> {
    match e {
        Error::Io(m) => framed("IO error: "@, m@),
        Error::Config(m) => framed("Config file error: "@, m@),
        Error::UrlParsing(m) => framed("Url parsing error: "@, m@),
        Error::Reqwest(m) => framed("Reqwest error: "@, m@),
        Error::Serialize(m) => framed("Serialize error: "@, m@),
        Error::AnthropicApi(m) => framed("Anthropic API error: "@, m@),
        Error::MinifluxApi(m) => framed("Miniflux API error: "@, m@),
        Error::StatePath => "State path not found"@,
        Error::TomlDeParsing(m) => framed("Toml de parsing error: "@, m@),
        Error::TomlSerParsing(m) => framed("Toml ser parsing error: "@, m@),
        Error::IntervalParsing(m) => framed("Interval parsing error: "@, m@),
        Error::TomlDateParsing(m) => framed("Toml date parsing error: "@, m@),
        Error::OutputNotExist => "Output directory does not exist"@,
        Error::TimeOutOfRange => "Time out of range"@,
    }
}

fn frame(prefix: &str, detail: &String) -> (res: String)
    ensures
        res@ == framed(prefix@, detail@),
{
    proof {
        reveal_strlit("`");
    }
    let mut out = String::new();
    out.append(prefix);
    out.append("`");
    out.append(detail.as_str());
    out.append("`");
    assert(out@ =~= framed(prefix@, detail@));
    out
}

impl Error {
    /// The text this error displays as, e.g. ``IO error: `disk full` ``.
    pub fn message(&self) -> (res: String)
        ensures
            res@ == error_message(*self),
    {
        match self {
            Error::Io(m) => frame("IO error: ", m),
            Error::Config(m) => frame("Config file error: ", m),
            Error::UrlParsing(m) => frame("Url parsing error: ", m),
            Error::Reqwest(m) => frame("Reqwest error: ", m),
            Error::Serialize(m) => frame("Serialize error: ", m),
            Error::AnthropicApi(m) => frame("Anthropic API error: ", m),
            Error::MinifluxApi(m) => frame("Miniflux API error: ", m),
            Error::StatePath => String::from_str("State path not found"),
            Error::TomlDeParsing(m) => frame("Toml de parsing error: ", m),
            Error::TomlSerParsing(m) => frame("Toml ser parsing error: ", m),
            Error::IntervalParsing(m) => frame("Interval parsing error: ", m),
            Error::TomlDateParsing(m) => frame("Toml date parsing error: ", m),
            Error::OutputNotExist => String::from_str("Output directory does not exist"),
            Error::TimeOutOfRange => String::from_str("Time out of range"),
        }
    }
}

} // verus!
