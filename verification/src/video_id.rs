use vstd::prelude::*;

use crate::error::YouDlError;
use crate::strutil::{chars_to_string, occurs, str_to_chars, take_until, take_until_exec};
use crate::strutil::lemma_take_until_absent;

verus! {

/// The host's canonical watch-page form: the identifier is carried in the
/// `v` query parameter after this prefix.
pub open spec fn watch_prefix() -> Seq<char> {
    "https://www.youtube.com/watch?"@
}

/// The host's short-link form: the identifier is the final path segment
/// after this prefix.
pub open spec fn short_prefix() -> Seq<char> {
    "https://youtu.be/"@
}

/// Whether `p` is a prefix of `s`.
pub open spec fn has_prefix(s: Seq<char>, p: Seq<char>) -> bool {
    s.len() >= p.len() && s.subrange(0, p.len() as int) == p
}

/// The value of the `v` parameter in the query string `q`, where a parameter
/// counts only at the start of `q` or right after a `'&'` separator; the
/// value runs up to the next `'&'`. `at_seg_start` tracks whether the scan
/// stands at a segment boundary.
pub open spec fn param_v(q: Seq<char>, at_seg_start: bool) -> Option<Seq<char>>
    decreases q.len(),
{
    if at_seg_start && q.len() >= 2 && q[0] == 'v' && q[1] == '=' {
        Some(take_until(q.skip(2), '&'))
    } else if q.len() == 0 {
        None
    } else {
        param_v(q.skip(1), q[0] == '&')
    }
}

/// The identifier encoded in `url`, when `url` is one of the two recognized
/// shapes and carries a non-empty identifier.
pub open spec fn spec_extract_video_id(url: Seq<char>) -> Option<Seq<char>> {
    if has_prefix(url, watch_prefix()) {
        match param_v(url.skip(watch_prefix().len() as int), true) {
            Some(id) => if id.len() > 0 {
                Some(id)
            } else {
                None
            },
            None => None,
        }
    } else if has_prefix(url, short_prefix()) {
        let id = take_until(url.skip(short_prefix().len() as int), '?');
        if id.len() > 0 && !occurs(id, '/') {
            Some(id)
        } else {
            None
        }
    } else {
        None
    }
}

fn has_prefix_exec(v: &Vec<char>, p: &Vec<char>) -> (r: bool)
    ensures
        r == has_prefix(v@, p@),
{
    if v.len() < p.len() {
        return false;
    }
    let n: usize = p.len();
    let mut i: usize = 0;
    while i < n
        invariant
            i <= n,
            n == p@.len() <= v@.len(),
            forall|k: int| 0 <= k < i ==> v@[k] == p@[k],
        decreases n - i,
    {
        if v[i] != p[i] {
            proof {
                assert(v@.subrange(0, n as int)[i as int] != p@[i as int]);
            }
            return false;
        }
        i = i + 1;
    }
    proof {
        assert(v@.subrange(0, n as int) =~= p@);
    }
    true
}

fn contains_char(v: &Vec<char>, c: char) -> (r: bool)
    ensures
        r == occurs(v@, c),
{
    let n: usize = v.len();
    let mut i: usize = 0;
    while i < n
        invariant
            i <= n,
            n == v@.len(),
            forall|k: int| 0 <= k < i ==> v@[k] != c,
        decreases n - i,
    {
        if v[i] == c {
            return true;
        }
        i = i + 1;
    }
    false
}

fn param_v_exec(v: &Vec<char>, start: usize) -> (r: Option<Vec<char>>)
    requires
        start <= v@.len(),
    ensures
        match r {
            Some(id) => param_v(v@.skip(start as int), true) == Some(id@),
            None => param_v(v@.skip(start as int), true) is None,
        },
{
    let n: usize = v.len();
    let mut i: usize = start;
    let mut at_seg_start: bool = true;
    while i < n
        invariant
            start <= i <= n,
            n == v@.len(),
            param_v(v@.skip(start as int), true) == param_v(v@.skip(i as int), at_seg_start),
        decreases n - i,
    {
        if at_seg_start && n - i >= 2 && v[i] == 'v' && v[i + 1] == '=' {
            let id = take_until_exec(v, i + 2, '&');
            proof {
                let q = v@.skip(i as int);
                assert(q.len() >= 2 && q[0] == 'v' && q[1] == '=');
                assert(q.skip(2) =~= v@.skip(i as int + 2));
            }
            return Some(id);
        }
        proof {
            let q = v@.skip(i as int);
            assert(q.len() > 0);
            assert(!(at_seg_start && q.len() >= 2 && q[0] == 'v' && q[1] == '='));
            assert(q.skip(1) =~= v@.skip(i as int + 1));
            assert(q[0] == v@[i as int]);
        }
        at_seg_start = v[i] == '&';
        i = i + 1;
    }
    proof {
        assert(v@.skip(n as int).len() == 0);
    }
    None
}

/// Parses a URL into the video identifier it carries. Recognizes the
/// watch-page form (identifier in the `v` query parameter) and the
/// short-link form (identifier as the final path segment, up to an optional
/// query string); any other shape, or a missing or empty identifier, is
/// `InvalidUrl`. Pure: no I/O, no side effects.
pub fn extract_video_id(url: &str) -> (r: Result<String, YouDlError>)
    ensures
        match r {
            Ok(id) => spec_extract_video_id(url@) == Some(id@),
            Err(e) => spec_extract_video_id(url@) is None && e == YouDlError::InvalidUrl,
        },
{
    let v = str_to_chars(url);
    let wp = str_to_chars("https://www.youtube.com/watch?");
    if has_prefix_exec(&v, &wp) {
        match param_v_exec(&v, wp.len()) {
            Some(id) => {
                if id.len() > 0 {
                    Ok(chars_to_string(&id))
                } else {
                    Err(YouDlError::InvalidUrl)
                }
            },
            None => Err(YouDlError::InvalidUrl),
        }
    } else {
        let sp = str_to_chars("https://youtu.be/");
        if has_prefix_exec(&v, &sp) {
            let id = take_until_exec(&v, sp.len(), '?');
            if id.len() > 0 && !contains_char(&id, '/') {
                Ok(chars_to_string(&id))
            } else {
                Err(YouDlError::InvalidUrl)
            }
        } else {
            Err(YouDlError::InvalidUrl)
        }
    }
}

/// An identifier in which none of the characters that delimit the two URL
/// shapes occurs.
pub open spec fn plain_video_id(id: Seq<char>) -> bool {
    id.len() > 0 && forall|i: int|
        0 <= i < id.len() ==> id[i] != '&' && id[i] != '?' && id[i] != '/' && id[i] != '='
}

/// A watch-page URL and a short-link URL that encode the same identifier
/// resolve to that same identifier.
pub proof fn lemma_watch_and_short_agree(id: Seq<char>)
    requires
        plain_video_id(id),
    ensures
        spec_extract_video_id(watch_prefix() + "v="@ + id) == Some(id),
        spec_extract_video_id(short_prefix() + id) == Some(id),
{
    reveal_strlit("https://www.youtube.com/watch?");
    reveal_strlit("https://youtu.be/");
    reveal_strlit("v=");
    let w = watch_prefix() + "v="@ + id;
    assert(w.subrange(0, watch_prefix().len() as int) =~= watch_prefix());
    assert(has_prefix(w, watch_prefix()));
    let q = w.skip(watch_prefix().len() as int);
    assert(q =~= "v="@ + id);
    assert(q[0] == 'v' && q[1] == '=');
    assert(q.skip(2) =~= id);
    assert(!occurs(id, '&'));
    lemma_take_until_absent(id, '&');
    assert(param_v(q, true) == Some(id));

    let s = short_prefix() + id;
    if has_prefix(s, watch_prefix()) {
        assert(s.subrange(0, watch_prefix().len() as int)[8] == s[8]);
        assert(s[8] == short_prefix()[8]);
        assert(short_prefix()[8] == 'y' && watch_prefix()[8] == 'w');
        assert(false);
    }
    assert(s.subrange(0, short_prefix().len() as int) =~= short_prefix());
    assert(has_prefix(s, short_prefix()));
    assert(s.skip(short_prefix().len() as int) =~= id);
    assert(!occurs(id, '?'));
    lemma_take_until_absent(id, '?');
    assert(!occurs(id, '/'));
}

} // verus!
