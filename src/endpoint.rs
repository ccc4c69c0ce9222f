//! Parsing of the configured upstream base URLs.
use vstd::prelude::*;

verus! {

/// The serialisation of `s` parsed as an absolute URL, or `None` where it is
/// not one.
pub uninterp spec fn url_serialization(s: Seq<char>) -> Option<Seq<char>>;

/// Relies on url's `Url::parse`, as reqwest re-exports it, and on
/// `String::from(Url)`, which hands back the parsed URL's serialisation.
#[verifier::external_body]
pub(crate) fn parse_url(s: &str) -> (r: Option<String>)
    ensures
        match r {
            Some(u) => url_serialization(s@) == Some(u@),
            None => url_serialization(s@) is None,
        },
{
    reqwest::Url::parse(s).ok().map(String::from)
}


/// `path` placed under `base`, with one `/` between them where `base` does not
/// end in one.
pub open spec fn joined_path(base: Seq<char>, path: Seq<char>) -> Seq<char> {
    if base.len() > 0 && base.last() == '/' {
        base + path
    } else {
        base + seq!['/'] + path
    }
}

/// Places `path` under `base`, adding the `/` between them where it is missing.
pub fn join_path(base: &str, path: &str) -> (r: String)
    ensures
        r@ == joined_path(base@, path@),
{
    let n = base.unicode_len();
    let mut u = String::from_str(base);
    if n == 0 || base.get_char(n - 1) != '/' {
        proof {
            reveal_strlit("/");
        }
        u.append("/");
    }
    u.append(path);
    u
}

} // verus!
