use vstd::prelude::*;

verus! {

/// Collects the characters of a string slice into a vector, so that the
/// character-level logic of this crate can index them directly.
pub fn str_to_chars(s: &str) -> (r: Vec<char>)
    ensures
        r@ == s@,
{
    let n: usize = s.unicode_len();
    let mut v: Vec<char> = Vec::new();
    let mut i: usize = 0;
    while i < n
        invariant
            i <= n,
            n == s@.len(),
            v@ == s@.subrange(0, i as int),
        decreases n - i,
    {
        let c = s.get_char(i);
        v.push(c);
        proof {
            assert(v@ =~= s@.subrange(0, i as int + 1));
        }
        i = i + 1;
    }
    proof {
        assert(v@ =~= s@);
    }
    v
}

/// Relies on `String: FromIterator<char>`: collecting characters yields the
/// string made of exactly those characters in order.
#[verifier::external_body]
pub fn chars_to_string(v: &Vec<char>) -> (s: String)
    ensures
        s@ == v@,
{
    v.iter().collect()
}

/// The prefix of `s` up to (not including) the first occurrence of `stop`;
/// all of `s` when `stop` does not occur.
pub open spec fn take_until(s: Seq<char>, stop: char) -> Seq<char>
    decreases s.len(),
{
    if s.len() == 0 {
        Seq::empty()
    } else if s[0] == stop {
        Seq::empty()
    } else {
        seq![s[0]] + take_until(s.skip(1), stop)
    }
}

/// Whether `c` occurs in `s`.
pub open spec fn occurs(s: Seq<char>, c: char) -> bool {
    exists|i: int| 0 <= i < s.len() && s[i] == c
}

/// When the first occurrence of `stop` in `s` is at `j` (or `stop` does not
/// occur and `j == s.len()`), `take_until` is the prefix of length `j`.
pub proof fn lemma_take_until_is_prefix(s: Seq<char>, stop: char, j: int)
    requires
        0 <= j <= s.len(),
        forall|k: int| 0 <= k < j ==> s[k] != stop,
        j == s.len() || s[j] == stop,
    ensures
        take_until(s, stop) == s.subrange(0, j),
    decreases j,
{
    if s.len() == 0 {
        assert(take_until(s, stop) =~= s.subrange(0, 0));
    } else if j == 0 {
        assert(take_until(s, stop) =~= s.subrange(0, 0));
    } else {
        lemma_take_until_is_prefix(s.skip(1), stop, j - 1);
        assert(seq![s[0]] + s.skip(1).subrange(0, j - 1) =~= s.subrange(0, j));
    }
}

/// When `stop` does not occur in `s`, `take_until` returns `s` itself.
pub proof fn lemma_take_until_absent(s: Seq<char>, stop: char)
    requires
        !occurs(s, stop),
    ensures
        take_until(s, stop) == s,
{
    lemma_take_until_is_prefix(s, stop, s.len() as int);
    assert(s.subrange(0, s.len() as int) =~= s);
}

/// Copies the prefix of `v` (starting at `start`) up to the first occurrence
/// of `stop`, mirroring `take_until` on the corresponding suffix.
pub fn take_until_exec(v: &Vec<char>, start: usize, stop: char) -> (r: Vec<char>)
    requires
        start <= v@.len(),
    ensures
        r@ == take_until(v@.skip(start as int), stop),
{
    let n: usize = v.len();
    let mut j: usize = start;
    while j < n && v[j] != stop
        invariant
            start <= j <= n,
            n == v@.len(),
            forall|k: int| start <= k < j ==> v@[k] != stop,
        decreases n - j,
    {
        j = j + 1;
    }
    let mut r: Vec<char> = Vec::new();
    let mut i: usize = start;
    while i < j
        invariant
            start <= i <= j <= n,
            n == v@.len(),
            r@ == v@.subrange(start as int, i as int),
        decreases j - i,
    {
        r.push(v[i]);
        proof {
            assert(r@ =~= v@.subrange(start as int, i as int + 1));
        }
        i = i + 1;
    }
    proof {
        let s = v@.skip(start as int);
        assert(forall|k: int| 0 <= k < j - start ==> s[k] != stop);
        assert(j - start == s.len() || s[j - start] == stop);
        lemma_take_until_is_prefix(s, stop, j - start);
        assert(s.subrange(0, j - start) =~= v@.subrange(start as int, j as int));
    }
    r
}

/// The suffix of `s` after the first occurrence of `mark`; empty when `mark`
/// does not occur.
pub open spec fn after_char(s: Seq<char>, mark: char) -> Seq<char>
    decreases s.len(),
{
    if s.len() == 0 {
        Seq::empty()
    } else if s[0] == mark {
        s.skip(1)
    } else {
        after_char(s.skip(1), mark)
    }
}

/// When the first occurrence of `mark` in `s` is at `j`, `after_char` is the
/// suffix starting right behind `j`.
pub proof fn lemma_after_char_at(s: Seq<char>, mark: char, j: int)
    requires
        0 <= j < s.len(),
        forall|k: int| 0 <= k < j ==> s[k] != mark,
        s[j] == mark,
    ensures
        after_char(s, mark) == s.skip(j + 1),
    decreases j,
{
    if j == 0 {
    } else {
        lemma_after_char_at(s.skip(1), mark, j - 1);
        assert(s.skip(1).skip(j) =~= s.skip(j + 1));
    }
}

/// Whether `c` may not appear in a file name on common filesystems.
pub open spec fn illegal_in_file_name(c: char) -> bool {
    c == '/' || c == '\\' || c == ':' || c == '?' || c == '*' || c == '"' || c == '<' || c == '>'
        || c == '|'
}

/// A title with every filesystem-illegal character replaced by `'_'`.
pub open spec fn sanitized(s: Seq<char>) -> Seq<char> {
    s.map_values(|c: char| if illegal_in_file_name(c) { '_' } else { c })
}

fn illegal_in_file_name_exec(c: char) -> (r: bool)
    ensures
        r == illegal_in_file_name(c),
{
    c == '/' || c == '\\' || c == ':' || c == '?' || c == '*' || c == '"' || c == '<' || c == '>'
        || c == '|'
}

/// Replaces every filesystem-illegal character of `v` by `'_'`.
pub fn sanitize_chars(v: &Vec<char>) -> (r: Vec<char>)
    ensures
        r@ == sanitized(v@),
{
    let n: usize = v.len();
    let mut r: Vec<char> = Vec::new();
    let mut i: usize = 0;
    while i < n
        invariant
            i <= n,
            n == v@.len(),
            r@ == sanitized(v@.subrange(0, i as int)),
        decreases n - i,
    {
        let c = v[i];
        if illegal_in_file_name_exec(c) {
            r.push('_');
        } else {
            r.push(c);
        }
        proof {
            assert(r@ =~= sanitized(v@.subrange(0, i as int + 1)));
        }
        i = i + 1;
    }
    proof {
        assert(v@.subrange(0, n as int) =~= v@);
    }
    r
}

/// Sanitization leaves no filesystem-illegal character behind, keeps the
/// length, and, being a function of the title alone, is deterministic.
pub proof fn lemma_sanitized_clean(s: Seq<char>)
    ensures
        sanitized(s).len() == s.len(),
        forall|i: int| 0 <= i < sanitized(s).len() ==> !illegal_in_file_name(sanitized(s)[i]),
{
}

} // verus!
