//! Record addressing. A record lives at `collection/key`; the first segment
//! of such a path names the collection and everything after the first
//! separator is the key — a key may itself contain separators, so the
//! remaining segments are joined back together. A path without any separator
//! names no record and is malformed.

use vstd::prelude::*;

verus! {

/// How a record path splits: the text before the first `'/'` is the
/// collection, the text after it is the key, or nothing when the path holds
/// no separator at all.
pub open spec fn split_path_spec(path: Seq<char>) -> Option<(Seq<char>, Seq<char>)> {
    match path.index_of_first('/') {
        Some(i) => Some((path.take(i), path.skip(i + 1))),
        None => None,
    }
}

/// Splits a record path into its collection and key, or rejects it as
/// malformed when it holds no separator.
pub fn parse_path(path: &str) -> (r: Option<(String, String)>)
    ensures
        r matches Some(p) ==> (split_path_spec(path@) matches Some(q) && p.0@ == q.0 && p.1@
            == q.1),
        r is None <==> split_path_spec(path@) is None,
{
    proof {
        path@.index_of_first_ensures('/');
    }
    let n = path.unicode_len();
    let mut i: usize = 0;
    while i < n && path.get_char(i) != '/'
        invariant
            i <= n,
            n == path@.len(),
            forall|j: int| 0 <= j < i ==> path@[j] != '/',
        decreases n - i,
    {
        i = i + 1;
    }
    if i == n {
        proof {
            if path@.index_of_first('/') is Some {
                let k: int = path@.index_of_first('/').unwrap();
                assert(path@[k] == '/');
            }
        }
        return None;
    }
    proof {
        assert(path@[i as int] == '/');
        assert(path@.contains('/')) by {
            assert(path@[i as int] == '/');
        }
        let k: int = path@.index_of_first('/').unwrap();
        if k < i {
            assert(path@[k] != '/');
        }
        if k > i {
            assert(path@[i as int] != '/');
        }
        assert(k == i);
    }
    let collection = path.substring_char(0, i);
    let key = path.substring_char(i + 1, n);
    proof {
        assert(collection@ =~= path@.take(i as int));
        assert(key@ =~= path@.skip(i + 1));
    }
    Some((String::from_str(collection), String::from_str(key)))
}

/// Law: splitting is the inverse of joining. For a collection name that holds
/// no separator, the record path `collection + "/" + key` splits back into
/// exactly that collection and key — whatever separators the key itself
/// holds, they stay part of the key.
pub proof fn lemma_split_joins_back(collection: Seq<char>, key: Seq<char>)
    requires
        forall|i: int| 0 <= i < collection.len() ==> collection[i] != '/',
    ensures
        split_path_spec(collection + seq!['/'] + key) == Some((collection, key)),
{
    let s = collection + seq!['/'] + key;
    let sep: int = collection.len() as int;
    s.index_of_first_ensures('/');
    assert(s[sep] == '/');
    assert(s.contains('/')) by {
        assert(s[sep] == '/');
    }
    let k: int = s.index_of_first('/').unwrap();
    if k < sep {
        assert(s[k] == collection[k]);
        assert(false);
    }
    if k > sep {
        assert(s[sep] != '/');
        assert(false);
    }
    assert(s.take(sep) =~= collection);
    assert(s.skip(sep + 1) =~= key);
}

} // verus!
