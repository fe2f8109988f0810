//! Command-line configuration of the host.

use rand::distr::SampleString;
use vstd::prelude::*;

verus! {

/// Length of a generated API token.
pub const TOKEN_LENGTH: usize = 32;

/// `c` is an ASCII letter or digit.
pub open spec fn is_ascii_alphanumeric(c: char) -> bool {
    ||| 'a' <= c && c <= 'z'
    ||| 'A' <= c && c <= 'Z'
    ||| '0' <= c && c <= '9'
}

/// How `shell_words::split` splits `command` into words, or `None` when a quote is
/// left open.
pub uninterp spec fn shell_words_outcome(command: Seq<char>) -> Option<Seq<Seq<char>>>;

/// Calls `rand::distr::Alphanumeric.sample_string` with the thread-local generator.
/// Its source samples each character from `A`-`Z`, `a`-`z`, `0`-`9`; the contract
/// claims the length and that alphabet, and nothing of which characters come out.
#[verifier::external_body]
fn sample_alphanumeric(len: usize) -> (sampled: String)
    ensures
        sampled@.len() == len,
        forall|i: int| 0 <= i < len ==> is_ascii_alphanumeric(#[trigger] sampled@[i]),
{
    rand::distr::Alphanumeric.sample_string(&mut rand::rng(), len)
}

/// Calls `shell_words::split`; the contract claims only that the words, or the
/// failure, are those named by `shell_words_outcome`.
#[verifier::external_body]
fn split_shell_words(command: &str) -> (words: Option<Vec<String>>)
    ensures
        words is Some <==> shell_words_outcome(command@) is Some,
        words matches Some(w) ==> shell_words_outcome(command@)->0 == w@.map_values(
            |s: String| s@,
        ),
{
    match shell_words::split(command) {
        Ok(words) => Some(words),
        Err(_) => None,
    }
}

/// A fresh API token: 32 random ASCII letters and digits.
pub fn generate_token() -> (token: String)
    ensures
        token@.len() == TOKEN_LENGTH,
        forall|i: int| 0 <= i < TOKEN_LENGTH ==> is_ascii_alphanumeric(#[trigger] token@[i]),
{
    sample_alphanumeric(TOKEN_LENGTH)
}

/// Why the supervised command line was refused.
#[derive(Clone, Copy, Debug, PartialEq, Eq, Structural)]
pub enum CommandLineError {
    /// A quote is left open.
    MissingClosingQuote,
}

impl CommandLineError {
    /// The error's message.
    pub fn message(&self) -> (text: String)
        ensures
            text@ == "missing closing quote"@,
    {
        String::from_str("missing closing quote")
    }
}

/// The host's configuration.
///
/// `base_url` is the serialization of the shell backend's URL (see
/// `urls::parse_base_url`); `bind` is the host API's socket address written as
/// `host:port`.
#[derive(Clone, Debug)]
pub struct Cli {
    /// Webapp backend, e.g. http://127.0.0.1:12551/
    pub base_url: String,
    /// Native host bind address
    pub bind: String,
    /// API token
    pub token: String,
    /// Supervised child command; supports shell-style quoting but does not invoke a shell.
    pub webapp_command: Option<String>,
}

impl Cli {
    /// The API token to use: the given one, or a freshly generated one.
    pub fn token_or_generated(given: Option<String>) -> (token: String)
        ensures
            given matches Some(t) ==> token == t,
            given is None ==> token@.len() == TOKEN_LENGTH && forall|i: int|
                0 <= i < TOKEN_LENGTH ==> is_ascii_alphanumeric(#[trigger] token@[i]),
    {
        match given {
            Some(token) => token,
            None => generate_token(),
        }
    }

    /// Whether the host supervises the shell backend as a child process.
    pub fn manages_webapp(&self) -> (manages: bool)
        ensures
            manages == self.webapp_command is Some,
    {
        self.webapp_command.is_some()
    }

    /// The supervised command split into words with shell-style quoting (no shell is
    /// involved); `None` when no command is configured.
    pub fn parsed_webapp_command(&self) -> (command: Result<Option<Vec<String>>, CommandLineError>)
        ensures
            self.webapp_command is None ==> command == Ok::<_, CommandLineError>(
                None::<Vec<String>>,
            ),
            self.webapp_command matches Some(c) ==> match shell_words_outcome(c@) {
                Some(words) => command matches Ok(Some(v)) && v@.map_values(|s: String| s@)
                    == words,
                None => command == Err::<Option<Vec<String>>, _>(
                    CommandLineError::MissingClosingQuote,
                ),
            },
    {
        match &self.webapp_command {
            None => Ok(None),
            Some(command) => match split_shell_words(command.as_str()) {
                Some(words) => Ok(Some(words)),
                None => Err(CommandLineError::MissingClosingQuote),
            },
        }
    }
}

} // verus!
