use vstd::prelude::*;

verus! {

/// `s` begins with `p`.
pub open spec fn starts_with(s: Seq<char>, p: Seq<char>) -> bool {
    p.len() <= s.len() && s.take(p.len() as int) == p
}

/// The keyword that selects the standard streams.
pub open spec fn stdin_word() -> Seq<char> {
    seq!['s', 't', 'd', 'i', 'n']
}

/// The prefix that introduces a filesystem path.
pub open spec fn path_key() -> Seq<char> {
    seq!['p', 'a', 't', 'h', '=']
}

/// The prefix that introduces a URL.
pub open spec fn url_key() -> Seq<char> {
    seq!['u', 'r', 'l', '=']
}

/// Relies on `str::strip_prefix`: `Some` of what follows `prefix` exactly when
/// `s` begins with `prefix`, `None` otherwise.
#[verifier::external_body]
pub(crate) fn strip_prefix<'a>(s: &'a str, prefix: &str) -> (r: Option<&'a str>)
    ensures
        r is Some <==> starts_with(s@, prefix@),
        r matches Some(rest) ==> rest@ == s@.skip(prefix@.len() as int),
{
    s.strip_prefix(prefix)
}

/// `s` is exactly the keyword `stdin`.
pub(crate) fn is_stdin_word(s: &str) -> (r: bool)
    ensures
        r == (s@ == stdin_word()),
{
    let word = "stdin";
    proof {
        reveal_strlit("stdin");
        assert(word@ =~= stdin_word());
    }
    match strip_prefix(s, word) {
        Some(rest) => {
            if rest.is_empty() {
                assert(s@ =~= s@.take(5));
                true
            } else {
                false
            }
        },
        None => {
            assert(s@ == stdin_word() ==> s@.take(5) =~= s@);
            false
        },
    }
}

} // verus!
