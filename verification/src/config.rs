//! The settings a run is configured with: where the feeds come from, which
//! model summarizes them, and the topics to brief on.

use vstd::prelude::*;

use crate::error::Error;

verus! {

/// What `duration_str::parse` makes of a text: whole seconds and nanoseconds,
/// or its error message.
pub uninterp spec fn parsed_duration(text: Seq<char>) -> Result<(u64, u32), Seq<char>>;

/// `duration_str::parse` on `text`, the `Duration` given back as
/// `(as_secs, subsec_nanos)`. Claimed: the outcome is the one named by
/// `parsed_duration`; the nanoseconds are below one second, as `Duration`
/// documents; an empty text is refused, as the parser's first check shows.
#[verifier::external_body]
fn duration_parse(text: &str) -> (res: Result<(u64, u32), String>)
    ensures
        res is Ok ==> parsed_duration(text@) == Ok::<(u64, u32), Seq<char>>(res->Ok_0),
        res is Ok ==> res->Ok_0.1 < 1_000_000_000,
        res is Err ==> parsed_duration(text@) == Err::<(u64, u32), Seq<char>>(res->Err_0@),
        res is Ok ==> text@.len() > 0,
{
    match duration_str::parse(text) {
        Ok(d) => Ok((d.as_secs(), d.subsec_nanos())),
        Err(m) => Err(m),
    }
}

/// The model table: who to ask, and with what credentials.
#[derive(Debug)]
pub struct Claude {
    /// Anthropic API key. Optional when `api_key_file` is set.
    pub api_key: String,
    /// File holding the API key.
    pub api_key_file: Option<String>,
    /// Model id.
    pub model: String,
}

/// The `[miniflux]` table: where the feeds come from.
#[derive(Debug)]
pub struct Miniflux {
    /// Base URL of the Miniflux server.
    pub url: String,
    /// Account to read feeds as.
    pub username: String,
    /// That account's password. Optional when `password_file` is set.
    pub password: String,
    /// File holding the password, e.g. a sops-nix secret path.
    pub password_file: Option<String>,
}

/// One `[topic.x]` from the config: a question, and which feeds answer it.
#[derive(Debug)]
pub struct Topic {
    /// What the model is asked about this topic's entries.
    pub question: String,
    /// Feed title substrings; a feed matches if its title contains one.
    pub feeds: Vec<String>,
    /// How far back to look on a first run, as a duration like `"7d"`.
    pub interval: String,
    /// What the reader wants out of this topic specifically. Optional.
    pub context: String,
}

/// A topic with the name it has in the config and the state file.
#[derive(Debug)]
pub struct NamedTopic {
    /// The `x` of `[topic.x]`.
    pub name: String,
    /// Its settings.
    pub topic: Topic,
}

/// Configuration loaded from `config.toml`.
#[derive(Debug)]
pub struct Config {
    /// Where the feeds come from.
    pub miniflux: Miniflux,
    /// Which model summarizes them, and with what key.
    pub claude: Claude,
    /// The topics to brief on, one `[topic.x]` each, names distinct.
    pub topic: Vec<NamedTopic>,
    /// Output dir.
    pub output: String,
}

/// The message when neither `api_key` nor `api_key_file` gives a key.
pub const CLAUDE_KEY_MISSING: &'static str = "api key: set either `api_key` or `api_key_file`";

/// The message when neither `password` nor `password_file` gives a password.
pub const MINIFLUX_PASSWORD_MISSING: &'static str = "miniflux: set either `password` or `password_file`";

impl Claude {
    /// The API key.
    pub fn get_key(&self) -> (res: &str)
        ensures
            res@ == self.api_key@,
    {
        self.api_key.as_str()
    }

    /// The model id.
    pub fn get_model(&self) -> (res: &str)
        ensures
            res@ == self.model@,
    {
        self.model.as_str()
    }

    /// Settles the key once the config is read: `api_key_file` is consumed,
    /// and `secret`, the key read from that file (without its trailing newline), replaces
    /// `api_key` when given.
    ///
    /// # Errors
    ///
    /// [`Error::Config`] when no key is left, neither from the file nor from
    /// `api_key`.
    pub fn resolve(&mut self, secret: Option<String>) -> (res: Result<(), Error>)
        ensures
            final(self).api_key_file is None,
            final(self).model == old(self).model,
            final(self).api_key@ == (match secret {
                Some(k) => k@,
                None => old(self).api_key@,
            }),
            res is Ok <==> final(self).api_key@.len() > 0,
            res matches Err(Error::Config(m)) ==> m@ == CLAUDE_KEY_MISSING@,
            res matches Err(e) ==> e is Config,
    {
        self.api_key_file = None;
        if let Some(key) = secret {
            self.api_key = key;
        }
        if self.api_key.as_str().is_empty() {
            return Err(Error::Config(String::from_str(CLAUDE_KEY_MISSING)));
        }
        Ok(())
    }
}


impl Miniflux {
    /// Hands back `(url, username, password)`.
    pub fn get_all(&self) -> (res: (&str, &str, &str))
        ensures
            res.0@ == self.url@,
            res.1@ == self.username@,
            res.2@ == self.password@,
    {
        (self.url.as_str(), self.username.as_str(), self.password.as_str())
    }

    /// Settles the password once the config is read: `password_file` is
    /// consumed, and `secret`, the password read from that file (without its trailing newline),
    /// replaces `password` when given.
    ///
    /// # Errors
    ///
    /// [`Error::Config`] when no password is left, neither from the file nor
    /// from `password`.
    pub fn resolve(&mut self, secret: Option<String>) -> (res: Result<(), Error>)
        ensures
            final(self).password_file is None,
            final(self).url == old(self).url,
            final(self).username == old(self).username,
            final(self).password@ == (match secret {
                Some(k) => k@,
                None => old(self).password@,
            }),
            res is Ok <==> final(self).password@.len() > 0,
            res matches Err(e) ==> e is Config,
            res matches Err(Error::Config(m)) ==> m@ == MINIFLUX_PASSWORD_MISSING@,
    {
        self.password_file = None;
        if let Some(password) = secret {
            self.password = password;
        }
        if self.password.as_str().is_empty() {
            return Err(Error::Config(String::from_str(MINIFLUX_PASSWORD_MISSING)));
        }
        Ok(())
    }
}

impl Topic {
    /// The question put to the model.
    pub fn get_question(&self) -> (res: &str)
        ensures
            res@ == self.question@,
    {
        self.question.as_str()
    }

    /// The feed title substrings to match.
    pub fn get_feeds(&self) -> (res: &[String])
        ensures
            res@ == self.feeds@,
    {
        self.feeds.as_slice()
    }

    /// The configured interval, parsed, as `(seconds, nanoseconds)`.
    ///
    /// # Errors
    ///
    /// [`Error::IntervalParsing`], with the parser's message, if `interval`
    /// is not a duration `duration_str` understands.
    pub fn get_interval(&self) -> (res: Result<(u64, u32), Error>)
        ensures
            res matches Ok(v) ==> parsed_duration(self.interval@) == Ok::<(u64, u32), Seq<char>>(v) && v.1 < 1_000_000_000,
            res matches Err(e) ==> e is IntervalParsing && parsed_duration(self.interval@) is Err,
            res matches Err(Error::IntervalParsing(m)) ==> parsed_duration(self.interval@) == Err::<(u64, u32), Seq<char>>(m@),
            self.interval@.len() == 0 ==> res is Err,
    {
        match duration_parse(self.interval.as_str()) {
            Ok(v) => Ok(v),
            Err(m) => Err(Error::IntervalParsing(m)),
        }
    }

    /// What the reader wants out of this topic. Empty when unset.
    pub fn get_context(&self) -> (res: &str)
        ensures
            res@ == self.context@,
    {
        self.context.as_str()
    }
}

impl Default for Claude {
    fn default() -> (res: Claude)
        ensures
            res.api_key@.len() == 0,
            res.api_key_file is None,
            res.model@.len() == 0,
    {
        Claude { api_key: String::new(), api_key_file: None, model: String::new() }
    }
}

impl Default for Miniflux {
    fn default() -> (res: Miniflux)
        ensures
            res.url@.len() == 0,
            res.username@.len() == 0,
            res.password@.len() == 0,
            res.password_file is None,
    {
        Miniflux { url: String::new(), username: String::new(), password: String::new(), password_file: None }
    }
}

impl Default for Config {
    /// The configuration used when no file is found: everything empty.
    fn default() -> (res: Config)
        ensures
            res.topic@.len() == 0,
            res.output@.len() == 0,
            res.claude.api_key@.len() == 0,
            res.claude.api_key_file is None,
            res.claude.model@.len() == 0,
            res.miniflux.url@.len() == 0,
            res.miniflux.username@.len() == 0,
            res.miniflux.password@.len() == 0,
            res.miniflux.password_file is None,
    {
        Config {
            miniflux: Miniflux::default(),
            claude: Claude::default(),
            topic: Vec::new(),
            output: String::new(),
        }
    }
}

} // verus!
