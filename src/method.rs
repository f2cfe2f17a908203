use vstd::prelude::*;

use crate::error::ConfigError;
use crate::text::{is_stdin_word, path_key, starts_with, stdin_word, strip_prefix, url_key};
use crate::web::{parse_url, url_parse};

verus! {

/// Where fuzz input comes from.
#[derive(Clone, Debug, PartialEq, Eq)]
pub enum InputMethod {
    /// The process's standard input.
    Stdin,
    /// A file, named by its path; whether it exists is left to its reader.
    Path(String),
    /// A network endpoint, held as the serialization of a parsed absolute URL.
    Url(String),
}

/// Where the target's responses go.
#[derive(Clone, Debug, PartialEq, Eq)]
pub enum OutputMethod {
    /// The process's standard output.
    Stdout,
    /// A file, named by its path.
    Path(String),
}

/// `r` is what parsing `s` as an input method gives: `stdin` is `Stdin`,
/// `path=<p>` is `Path(p)`, `url=<u>` is `Url` of `u`'s serialization or
/// `MalformedUrl`, and anything else is `UnsupportedInputMethod`.
pub open spec fn input_outcome(s: Seq<char>, r: Result<InputMethod, ConfigError>) -> bool {
    if s == stdin_word() {
        r matches Ok(InputMethod::Stdin)
    } else if starts_with(s, path_key()) {
        match r {
            Ok(InputMethod::Path(p)) => p@ == s.skip(5),
            _ => false,
        }
    } else if starts_with(s, url_key()) {
        match url_parse(s.skip(4)) {
            Some(t) => match r {
                Ok(InputMethod::Url(u)) => u@ == t,
                _ => false,
            },
            None => r == Err::<InputMethod, ConfigError>(ConfigError::MalformedUrl),
        }
    } else {
        r == Err::<InputMethod, ConfigError>(ConfigError::UnsupportedInputMethod)
    }
}

/// `s` is accepted as an input method.
pub open spec fn input_accepted(s: Seq<char>) -> bool {
    ||| s == stdin_word()
    ||| starts_with(s, path_key())
    ||| starts_with(s, url_key()) && url_parse(s.skip(4)) is Some
}

/// `r` is what parsing `s` as an output method gives: `stdin` is `Stdout`,
/// `path=<p>` is `Path(p)`, and anything else is `UnsupportedOutputMethod`.
pub open spec fn output_outcome(s: Seq<char>, r: Result<OutputMethod, ConfigError>) -> bool {
    if s == stdin_word() {
        r matches Ok(OutputMethod::Stdout)
    } else if starts_with(s, path_key()) {
        match r {
            Ok(OutputMethod::Path(p)) => p@ == s.skip(5),
            _ => false,
        }
    } else {
        r == Err::<OutputMethod, ConfigError>(ConfigError::UnsupportedOutputMethod)
    }
}

/// `s` is accepted as an output method.
pub open spec fn output_accepted(s: Seq<char>) -> bool {
    s == stdin_word() || starts_with(s, path_key())
}

/// The three accepted forms of method text exclude one another.
proof fn keys_disjoint(s: Seq<char>)
    ensures
        s == stdin_word() ==> !starts_with(s, path_key()) && !starts_with(s, url_key()),
        starts_with(s, path_key()) ==> !starts_with(s, url_key()),
{
    if starts_with(s, path_key()) {
        assert(s[0] == s.take(5)[0]);
    }
    if starts_with(s, url_key()) {
        assert(s[0] == s.take(4)[0]);
    }
}

impl InputMethod {
    /// The input method for text after `url=`, given what the URL parser made
    /// of it: the serialization of the URL it accepted, or `None`.
    pub fn from_parsed_url(parsed: Option<String>) -> (r: Result<InputMethod, ConfigError>)
        ensures
            match parsed {
                Some(t) => r == Ok::<InputMethod, ConfigError>(InputMethod::Url(t)),
                None => r == Err::<InputMethod, ConfigError>(ConfigError::MalformedUrl),
            },
    {
        match parsed {
            Some(text) => Ok(InputMethod::Url(text)),
            None => Err(ConfigError::MalformedUrl),
        }
    }

    /// Parses `stdin`, `path=<p>` or `url=<u>`. Everything after the first `=`
    /// is kept as it stands, further `=` included.
    pub fn parse(s: &str) -> (r: Result<InputMethod, ConfigError>)
        ensures
            input_outcome(s@, r),
            r is Ok <==> input_accepted(s@),
    {
        let path = "path=";
        let url = "url=";
        proof {
            reveal_strlit("path=");
            reveal_strlit("url=");
            assert(path@ =~= path_key());
            assert(url@ =~= url_key());
            keys_disjoint(s@);
        }
        if is_stdin_word(s) {
            return Ok(InputMethod::Stdin);
        }
        if let Some(rest) = strip_prefix(s, path) {
            return Ok(InputMethod::Path(rest.to_owned()));
        }
        if let Some(rest) = strip_prefix(s, url) {
            let parsed = match parse_url(rest) {
                Ok(text) => Some(text),
                Err(_) => None,
            };
            return InputMethod::from_parsed_url(parsed);
        }
        Err(ConfigError::UnsupportedInputMethod)
    }
}

impl OutputMethod {
    /// Parses `stdin` (the keyword that selects standard output) or
    /// `path=<p>`. Everything after the first `=` is kept as it stands.
    pub fn parse(s: &str) -> (r: Result<OutputMethod, ConfigError>)
        ensures
            output_outcome(s@, r),
            r is Ok <==> output_accepted(s@),
    {
        let path = "path=";
        proof {
            reveal_strlit("path=");
            assert(path@ =~= path_key());
            keys_disjoint(s@);
        }
        if is_stdin_word(s) {
            return Ok(OutputMethod::Stdout);
        }
        if let Some(rest) = strip_prefix(s, path) {
            return Ok(OutputMethod::Path(rest.to_owned()));
        }
        Err(ConfigError::UnsupportedOutputMethod)
    }
}

impl std::str::FromStr for InputMethod {
    type Err = ConfigError;

    fn from_str(s: &str) -> (r: Result<InputMethod, ConfigError>)
        ensures
            input_outcome(s@, r),
            r is Ok <==> input_accepted(s@),
    {
        InputMethod::parse(s)
    }
}

impl std::str::FromStr for OutputMethod {
    type Err = ConfigError;

    fn from_str(s: &str) -> (r: Result<OutputMethod, ConfigError>)
        ensures
            output_outcome(s@, r),
            r is Ok <==> output_accepted(s@),
    {
        OutputMethod::parse(s)
    }
}

} // verus!
