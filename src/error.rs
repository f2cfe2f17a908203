use vstd::prelude::*;

verus! {

/// Why a piece of configuration text was rejected.
#[derive(Clone, Copy, Debug, PartialEq, Eq, Structural)]
pub enum ConfigError {
    /// The input method text is none of `stdin`, `path=<p>` or `url=<u>`.
    UnsupportedInputMethod,
    /// The output method text is neither `stdin` nor `path=<p>`.
    UnsupportedOutputMethod,
    /// The text after `url=` is not a valid absolute URL.
    MalformedUrl,
    /// Reserved for platforms on which building a path can fail; every string
    /// is a path here, so no parser of this crate returns it.
    MalformedPath,
}

} // verus!
