use vstd::prelude::*;

verus! {

/// What resolving the relative reference `rel` against the base URL `base`
/// serializes to, or `None` when `base` is not an absolute URL or the
/// resolution fails. WHATWG URL resolution is far too large to restate here,
/// so the outcome is only given this name; it depends on the two strings
/// alone.
pub uninterp spec fn url_join(base: Seq<char>, rel: Seq<char>) -> Option<Seq<char>>;

/// Relies on url::Url::join (with url::Url::parse turning `base` into the
/// base URL it needs): resolves `rel` against `base` and serializes the
/// result, a function of the two strings alone.
#[verifier::external_body]
pub(crate) fn join_url(base: &str, rel: &str) -> (r: Option<String>)
    ensures
        match r {
            Some(s) => url_join(base@, rel@) == Some(s@),
            None => url_join(base@, rel@) is None,
        },
{
    match url::Url::parse(base) {
        Ok(b) => match b.join(rel) {
            Ok(joined) => Some(String::from(joined)),
            Err(_) => None,
        },
        Err(_) => None,
    }
}

} // verus!
