//! URL construction for the store's HTTP API.
//!
//! Every API request goes to `base + "/api/" + path` where any leading
//! separators of `path` are stripped first, so callers may pass `"foo"` or
//! `"/foo"` interchangeably.

use vstd::prelude::*;

verus! {

/// The characters of `path` after all leading `'/'` separators.
pub open spec fn strip_leading_slashes(path: Seq<char>) -> Seq<char>
    decreases path.len(),
{
    if path.len() > 0 && path[0] == '/' {
        strip_leading_slashes(path.skip(1))
    } else {
        path
    }
}

/// The full URL of an API request for `path` against `endpoint`.
pub open spec fn api_url_spec(endpoint: Seq<char>, path: Seq<char>) -> Seq<char> {
    endpoint + "/api/"@ + strip_leading_slashes(path)
}

/// Builds the URL of the API request for `path` against the base `endpoint`:
/// `endpoint + "/api/" + path`, with leading separators of `path` stripped so
/// that no duplicate separator can appear, whatever the caller passed.
pub fn api_url(endpoint: &str, path: &str) -> (url: String)
    ensures
        url@ == api_url_spec(endpoint@, path@),
{
    let n = path.unicode_len();
    let mut i: usize = 0;
    proof {
        assert(path@.skip(0) =~= path@);
    }
    while i < n && path.get_char(i) == '/'
        invariant
            i <= n,
            n == path@.len(),
            strip_leading_slashes(path@) == strip_leading_slashes(path@.skip(i as int)),
        decreases n - i,
    {
        proof {
            assert(path@.skip(i as int)[0] == path@[i as int]);
            assert(path@.skip(i as int).skip(1) =~= path@.skip(i + 1));
        }
        i = i + 1;
    }
    proof {
        if i < n {
            assert(path@.skip(i as int)[0] == path@[i as int]);
            assert(strip_leading_slashes(path@.skip(i as int)) == path@.skip(i as int));
        } else {
            assert(path@.skip(i as int) =~= Seq::<char>::empty());
        }
    }
    let tail = path.substring_char(i, n);
    proof {
        assert(tail@ =~= path@.skip(i as int));
    }
    let url = String::from_str(endpoint).concat("/api/").concat(tail);
    proof {
        assert(url@ =~= api_url_spec(endpoint@, path@));
    }
    url
}

/// Law: a leading separator on the requested path makes no difference — the
/// same URL comes out with or without it.
pub proof fn lemma_url_ignores_leading_slash(endpoint: Seq<char>, path: Seq<char>)
    ensures
        api_url_spec(endpoint, seq!['/'] + path) == api_url_spec(endpoint, path),
{
    assert((seq!['/'] + path)[0] == '/');
    assert((seq!['/'] + path).skip(1) =~= path);
}

/// Law: the stripped path never begins with a separator, so the constructed
/// URL never holds a duplicate separator after `/api/`; stripping twice does
/// no more than stripping once.
pub proof fn lemma_no_leading_separator(path: Seq<char>)
    ensures
        strip_leading_slashes(path).len() > 0 ==> strip_leading_slashes(path)[0] != '/',
        strip_leading_slashes(strip_leading_slashes(path)) == strip_leading_slashes(path),
    decreases path.len(),
{
    if path.len() > 0 && path[0] == '/' {
        lemma_no_leading_separator(path.skip(1));
    }
}

} // verus!
