use vstd::prelude::*;

verus! {

/// Position of the last occurrence of `c` in `s`, or -1 when `c` does not occur.
pub open spec fn last_pos(s: Seq<char>, c: char) -> int
    decreases s.len(),
{
    if s.len() == 0 {
        -1
    } else if s.last() == c {
        s.len() - 1
    } else {
        last_pos(s.drop_last(), c)
    }
}

/// The URL with its final `/`-segment and that separator removed; empty when
/// the URL holds no `/`.
pub open spec fn base_path_of(s: Seq<char>) -> Seq<char> {
    let k = last_pos(s, '/');
    if k < 0 {
        Seq::empty()
    } else {
        s.subrange(0, k)
    }
}

/// The text after the last `.`; the whole URL when it holds no `.`.
pub open spec fn ext_of(s: Seq<char>) -> Seq<char> {
    s.subrange(last_pos(s, '.') + 1, s.len() as int)
}

proof fn lemma_last_pos_at(s: Seq<char>, c: char, k: int)
    requires
        -1 <= k < s.len(),
        k >= 0 ==> s[k] == c,
        forall|j: int| k < j < s.len() ==> s[j] != c,
    ensures
        last_pos(s, c) == k,
    decreases s.len(),
{
    if s.len() > 0 && s.len() - 1 != k {
        assert(s.last() != c);
        let t = s.drop_last();
        assert forall|j: int| k < j < t.len() implies t[j] != c by {
            assert(t[j] == s[j]);
        }
        lemma_last_pos_at(t, c, k);
    }
}

proof fn lemma_last_pos_range(s: Seq<char>, c: char)
    ensures
        -1 <= last_pos(s, c) < s.len(),
    decreases s.len(),
{
    if s.len() > 0 && s.last() != c {
        lemma_last_pos_range(s.drop_last(), c);
    }
}

/// Index of the last `c` in `s`, found by scanning from the end.
fn find_last(s: &str, c: char) -> (r: Option<usize>)
    ensures
        match r {
            Some(k) => last_pos(s@, c) == k as int && k < s@.len(),
            None => last_pos(s@, c) == -1,
        },
{
    let n = s.unicode_len();
    let mut i: usize = n;
    while i > 0
        invariant
            i <= n,
            n == s@.len(),
            forall|j: int| i <= j < n ==> s@[j] != c,
        decreases i,
    {
        if s.get_char(i - 1) == c {
            proof {
                lemma_last_pos_at(s@, c, i - 1);
            }
            return Some(i - 1);
        }
        i = i - 1;
    }
    proof {
        lemma_last_pos_at(s@, c, -1);
    }
    None
}

/// Drops the final `/`-segment of a URL: the directory that holds the file.
pub fn get_base_path(original_url: String) -> (r: String)
    ensures
        r@ == base_path_of(original_url@),
{
    let s = original_url.as_str();
    match find_last(s, '/') {
        Some(k) => String::from_str(s.substring_char(0, k)),
        None => String::new(),
    }
}

/// The file extension of a URL: what follows its last `.`.
pub fn get_ext(original_url: String) -> (r: String)
    ensures
        r@ == ext_of(original_url@),
{
    let s = original_url.as_str();
    let n = s.unicode_len();
    proof {
        lemma_last_pos_range(s@, '.');
    }
    match find_last(s, '.') {
        Some(k) => String::from_str(s.substring_char(k + 1, n)),
        None => String::from_str(s.substring_char(0, n)),
    }
}

} // verus!
