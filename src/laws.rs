//! Properties of method parsing, stated over the relations that the parsers'
//! own contracts establish.
use vstd::prelude::*;

use crate::error::ConfigError;
use crate::method::{InputMethod, OutputMethod, input_outcome, output_outcome};
use crate::text::{path_key, starts_with, stdin_word, url_key};
use crate::web::url_parse;

verus! {

/// The keyword `stdin` always parses as the standard input, and never fails.
pub proof fn stdin_input_law(r: Result<InputMethod, ConfigError>)
    requires
        input_outcome(stdin_word(), r),
    ensures
        r matches Ok(InputMethod::Stdin),
{
}

/// `path=` followed by any text parses as a path holding exactly that text,
/// every `=` in it included.
pub proof fn path_input_law(p: Seq<char>, r: Result<InputMethod, ConfigError>)
    requires
        input_outcome(path_key() + p, r),
    ensures
        r matches Ok(InputMethod::Path(q)) && q@ == p,
{
    let s = path_key() + p;
    assert(s.take(5) =~= path_key());
    assert(s.skip(5) =~= p);
    assert(s != stdin_word()) by {
        assert(s[0] != stdin_word()[0]);
    }
}

/// `url=` followed by text that the URL parser accepts gives that URL's
/// serialization; followed by text that it refuses, `MalformedUrl`.
pub proof fn url_input_law(u: Seq<char>, r: Result<InputMethod, ConfigError>)
    requires
        input_outcome(url_key() + u, r),
    ensures
        url_parse(u) matches Some(t) ==> r matches Ok(InputMethod::Url(v)) && v@ == t,
        url_parse(u) is None ==> r == Err::<InputMethod, ConfigError>(ConfigError::MalformedUrl),
{
    let s = url_key() + u;
    assert(s.take(4) =~= url_key());
    assert(s.skip(4) =~= u);
    assert(s != stdin_word()) by {
        assert(s[0] != stdin_word()[0]);
    }
    assert(!starts_with(s, path_key())) by {
        assert(s[0] != path_key()[0]);
        if starts_with(s, path_key()) {
            assert(s.take(5)[0] == s[0]);
        }
    }
}

/// Text that is not `stdin` and starts with neither `path=` nor `url=` is
/// refused as an input method.
pub proof fn other_input_law(s: Seq<char>, r: Result<InputMethod, ConfigError>)
    requires
        s != stdin_word(),
        !starts_with(s, path_key()),
        !starts_with(s, url_key()),
        input_outcome(s, r),
    ensures
        r == Err::<InputMethod, ConfigError>(ConfigError::UnsupportedInputMethod),
{
}

/// The keyword `stdin` parses as the standard output.
pub proof fn stdin_output_law(r: Result<OutputMethod, ConfigError>)
    requires
        output_outcome(stdin_word(), r),
    ensures
        r matches Ok(OutputMethod::Stdout),
{
}

/// `path=` followed by any text parses as an output path holding exactly that
/// text.
pub proof fn path_output_law(p: Seq<char>, r: Result<OutputMethod, ConfigError>)
    requires
        output_outcome(path_key() + p, r),
    ensures
        r matches Ok(OutputMethod::Path(q)) && q@ == p,
{
    let s = path_key() + p;
    assert(s.take(5) =~= path_key());
    assert(s.skip(5) =~= p);
    assert(s != stdin_word()) by {
        assert(s[0] != stdin_word()[0]);
    }
}

/// Text that is neither `stdin` nor starts with `path=` is refused as an
/// output method.
pub proof fn other_output_law(s: Seq<char>, r: Result<OutputMethod, ConfigError>)
    requires
        s != stdin_word(),
        !starts_with(s, path_key()),
        output_outcome(s, r),
    ensures
        r == Err::<OutputMethod, ConfigError>(ConfigError::UnsupportedOutputMethod),
{
}

} // verus!
