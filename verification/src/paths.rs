//! Resolution of a request path to candidate files under the source root.
//!
//! A request path is the decoded path portion of the request after the
//! leading `/`; the empty path denotes the root request. The resolver
//! first tries the path itself (`index.html` for the root request) and,
//! when that read fails, falls back to `<path>/index.html`.

use vstd::prelude::*;

verus! {

/// The name of the file served for a directory-like request.
pub open spec fn index_name() -> Seq<char> {
    seq!['i', 'n', 'd', 'e', 'x', '.', 'h', 't', 'm', 'l']
}

/// The path first tried for a request: the request path itself, or
/// `index.html` for the root request.
pub open spec fn first_candidate_spec(p: Seq<char>) -> Seq<char> {
    if p.len() == 0 {
        index_name()
    } else {
        p
    }
}

/// The path tried when the first candidate cannot be read:
/// `<path>/index.html` (plain `index.html` for the root request).
pub open spec fn fallback_candidate_spec(p: Seq<char>) -> Seq<char> {
    if p.len() == 0 {
        index_name()
    } else {
        p + seq!['/'] + index_name()
    }
}

/// Position of the dot that starts the extension of `p`: the last `.`
/// of the final path segment, or `None` when that segment has no dot.
pub open spec fn extension_index(p: Seq<char>) -> Option<int>
    decreases p.len(),
{
    if p.len() == 0 {
        None
    } else if p.last() == '.' {
        Some(p.len() - 1)
    } else if p.last() == '/' {
        None
    } else {
        extension_index(p.drop_last())
    }
}

/// The extension of a path: the characters after the last `.` of the
/// final path segment, empty when that segment has no dot.
pub open spec fn extension_of(p: Seq<char>) -> Seq<char> {
    match extension_index(p) {
        Some(i) => p.subrange(i + 1, p.len() as int),
        None => Seq::empty(),
    }
}

/// Build the first candidate for a request path.
pub fn first_candidate(path: &str) -> (r: String)
    ensures
        r@ == first_candidate_spec(path@),
{
    if path.is_empty() {
        index_file_name()
    } else {
        path.to_owned()
    }
}

/// Build the index fallback candidate for a request path.
pub fn fallback_candidate(path: &str) -> (r: String)
    ensures
        r@ == fallback_candidate_spec(path@),
{
    if path.is_empty() {
        index_file_name()
    } else {
        let mut r = path.to_owned();
        r.append("/index.html");
        proof {
            reveal_strlit("/index.html");
            reveal_strlit("/");
            reveal_strlit("index.html");
            assert(r@ =~= path@ + seq!['/'] + index_name());
        }
        r
    }
}

/// The literal `index.html`.
fn index_file_name() -> (r: String)
    ensures
        r@ == index_name(),
{
    let r = String::from_str("index.html");
    proof {
        reveal_strlit("index.html");
        assert(r@ =~= index_name());
    }
    r
}

/// Extract the extension of a path: the characters after the last `.`
/// of the final path segment.
pub fn extension_of_path(p: &str) -> (r: String)
    ensures
        r@ == extension_of(p@),
{
    let n = p.unicode_len();
    let mut i = n;
    proof {
        assert(p@.take(n as int) =~= p@);
    }
    loop
        invariant
            0 <= i <= n,
            n == p@.len(),
            extension_index(p@) == extension_index(p@.take(i as int)),
        decreases i,
    {
        if i == 0 {
            proof {
                assert(p@.take(0) =~= Seq::<char>::empty());
            }
            return String::new();
        }
        let c = p.get_char(i - 1);
        proof {
            assert(p@.take(i as int).last() == c);
        }
        if c == '.' {
            let ext = p.substring_char(i, n).to_owned();
            proof {
                assert(extension_index(p@.take(i as int)) == Some(i - 1));
            }
            return ext;
        }
        if c == '/' {
            proof {
                assert(extension_index(p@.take(i as int)) is None);
            }
            return String::new();
        }
        proof {
            assert(p@.take(i as int).drop_last() =~= p@.take(i - 1));
        }
        i = i - 1;
    }
}

/// The fallback candidate always ends in `index.html`, so its
/// extension is `html` for every request path.
pub proof fn lemma_fallback_extension(p: Seq<char>)
    ensures
        extension_of(fallback_candidate_spec(p)) == "html"@,
{
    let q = fallback_candidate_spec(p);
    assert(q.len() >= 10);
    assert(q.subrange(q.len() - 10, q.len() as int) =~= index_name());
    lemma_extension_index_suffix(q);
    reveal_strlit("html");
    assert(extension_of(q) =~= "html"@);
}

/// A path ending in `index.html` has its extension dot five characters
/// from the end.
proof fn lemma_extension_index_suffix(q: Seq<char>)
    requires
        q.len() >= 10,
        q.subrange(q.len() - 10, q.len() as int) == index_name(),
    ensures
        extension_index(q) == Some(q.len() - 5),
{
    let n = q.len() as int;
    let q1 = q.drop_last();
    let q2 = q1.drop_last();
    let q3 = q2.drop_last();
    let q4 = q3.drop_last();
    assert(q.last() == 'l');
    assert(extension_index(q) == extension_index(q1));
    assert(q1.last() == 'm');
    assert(extension_index(q1) == extension_index(q2));
    assert(q2.last() == 't');
    assert(extension_index(q2) == extension_index(q3));
    assert(q3.last() == 'h');
    assert(extension_index(q3) == extension_index(q4));
    assert(q4.last() == '.');
    assert(extension_index(q4) == Some(n - 5));
}

} // verus!
