//! Ticker symbols read from the text of a symbol list, written as a sequence
//! of quoted `'key': 'value'` pairs: only the keys are kept.
use vstd::prelude::*;

verus! {

/// The separator between two entries.
pub open spec fn entry_sep() -> Seq<char> {
    seq![',', ' ', '\'']
}

/// The separator between a key and its value.
pub open spec fn value_sep() -> Seq<char> {
    seq!['\'', ':', ' ', '\'']
}

pub open spec fn occurs_at(s: Seq<char>, p: Seq<char>, i: int) -> bool {
    0 <= i && i + p.len() <= s.len() && s.subrange(i, i + p.len()) == p
}

/// The first place at or after `from` where `p` occurs in `s`.
pub open spec fn first_occurrence(s: Seq<char>, p: Seq<char>, from: int) -> Option<int>
    decreases s.len() + 1 - from,
{
    if from < 0 || from + p.len() > s.len() {
        None
    } else if occurs_at(s, p, from) {
        Some(from)
    } else {
        first_occurrence(s, p, from + 1)
    }
}

/// The pieces of `s` from `start` on, split at each non-overlapping
/// occurrence of the entry separator, left to right.
pub open spec fn entries_from(s: Seq<char>, start: int) -> Seq<Seq<char>>
    decreases s.len() + 1 - start,
{
    if start < 0 || start > s.len() {
        Seq::empty()
    } else {
        match first_occurrence(s, entry_sep(), start) {
            Some(i) => if start <= i <= s.len() - 3 {
                seq![s.subrange(start, i)] + entries_from(s, i + 3)
            } else {
                Seq::empty()
            },
            None => seq![s.subrange(start, s.len() as int)],
        }
    }
}

/// The part of an entry before its first key-value separator.
pub open spec fn key_part(e: Seq<char>) -> Seq<char> {
    match first_occurrence(e, value_sep(), 0) {
        Some(i) => e.subrange(0, i),
        None => e,
    }
}

pub open spec fn is_quote_or_brace(c: char) -> bool {
    c == '\'' || c == '{'
}

pub open spec fn trim_start(t: Seq<char>) -> Seq<char>
    decreases t.len(),
{
    if t.len() > 0 && is_quote_or_brace(t[0]) {
        trim_start(t.drop_first())
    } else {
        t
    }
}

pub open spec fn trim_end(t: Seq<char>) -> Seq<char>
    decreases t.len(),
{
    if t.len() > 0 && is_quote_or_brace(t.last()) {
        trim_end(t.drop_last())
    } else {
        t
    }
}

/// A key: the key part of an entry with quotes and braces trimmed from both ends.
pub open spec fn key_of(e: Seq<char>) -> Seq<char> {
    trim_end(trim_start(key_part(e)))
}

/// The keys of the text `s`, one for each entry.
pub open spec fn keys_of(s: Seq<char>) -> Seq<Seq<char>> {
    entries_from(s, 0).map_values(|e: Seq<char>| key_of(e))
}

/// Relies on str::chars, collected into a Vec: the characters in order.
#[verifier::external_body]
fn chars_of(s: &str) -> (r: Vec<char>)
    ensures
        r@ == s@,
{
    s.chars().collect()
}

/// Relies on String's FromIterator<char>: the string holds the characters in order.
#[verifier::external_body]
fn string_of(cs: Vec<char>) -> (r: String)
    ensures
        r@ == cs@,
{
    cs.into_iter().collect()
}

proof fn lemma_first_occurrence_bounds(s: Seq<char>, p: Seq<char>, from: int)
    ensures
        first_occurrence(s, p, from) matches Some(i) ==> from <= i && occurs_at(s, p, i),
    decreases s.len() + 1 - from,
{
    if from >= 0 && from + p.len() <= s.len() && !occurs_at(s, p, from) {
        lemma_first_occurrence_bounds(s, p, from + 1);
    }
}

/// Whether `p` occurs in `s` at `i`.
fn matches_at(s: &Vec<char>, p: &Vec<char>, i: usize) -> (r: bool)
    requires
        i <= s.len(),
    ensures
        r == occurs_at(s@, p@, i as int),
{
    if p.len() > s.len() - i {
        return false;
    }
    let mut k: usize = 0;
    while k < p.len()
        invariant
            i + p.len() <= s.len(),
            k <= p.len(),
            forall|j: int| 0 <= j < k ==> s@[i + j] == p@[j],
        decreases p.len() - k,
    {
        if s[i + k] != p[k] {
            assert(s@.subrange(i as int, i + p.len())[k as int] != p@[k as int]);
            return false;
        }
        k = k + 1;
    }
    assert(s@.subrange(i as int, i + p.len()) =~= p@);
    true
}

/// The first place at or after `from` where `p` occurs in `s[..end]`.
fn find_from(s: &Vec<char>, p: &Vec<char>, from: usize, end: usize) -> (r: Option<usize>)
    requires
        from <= end <= s.len(),
    ensures
        r matches Some(i) ==> first_occurrence(s@.subrange(0, end as int), p@, from as int) == Some(
            i as int,
        ),
        r is None ==> first_occurrence(s@.subrange(0, end as int), p@, from as int) is None,
{
    let ghost t = s@.subrange(0, end as int);
    let mut i: usize = from;
    while i < end
        invariant
            from <= i <= end <= s.len(),
            t == s@.subrange(0, end as int),
            first_occurrence(t, p@, from as int) == first_occurrence(t, p@, i as int),
        decreases end - i,
    {
        if p.len() > end - i {
            assert(first_occurrence(t, p@, i as int) is None);
            return None;
        }
        let hit = matches_at(s, p, i);
        assert(occurs_at(s@, p@, i as int) == occurs_at(t, p@, i as int)) by {
            if i + p.len() <= end {
                assert(s@.subrange(i as int, i + p.len()) =~= t.subrange(i as int, i + p.len()));
            }
        }
        if hit {
            return Some(i);
        }
        i = i + 1;
    }
    if p.len() == 0 {
        assert(occurs_at(t, p@, i as int)) by {
            assert(t.subrange(i as int, i as int) =~= p@);
        }
        return Some(i);
    }
    None
}

/// The characters `s[lo..hi]`.
fn slice_chars(s: &Vec<char>, lo: usize, hi: usize) -> (r: Vec<char>)
    requires
        lo <= hi <= s.len(),
    ensures
        r@ == s@.subrange(lo as int, hi as int),
{
    let mut r: Vec<char> = Vec::new();
    let mut i: usize = lo;
    while i < hi
        invariant
            lo <= i <= hi <= s.len(),
            r@ == s@.subrange(lo as int, i as int),
        decreases hi - i,
    {
        r.push(s[i]);
        i = i + 1;
        assert(r@ =~= s@.subrange(lo as int, i as int));
    }
    r
}

fn quote_or_brace(c: char) -> (r: bool)
    ensures
        r == is_quote_or_brace(c),
{
    c == '\'' || c == '{'
}

/// The key of the entry `s[lo..hi]`.
fn key_in(s: &Vec<char>, vsep: &Vec<char>, lo: usize, hi: usize) -> (r: String)
    requires
        lo <= hi <= s.len(),
        vsep@ == value_sep(),
    ensures
        r@ == key_of(s@.subrange(lo as int, hi as int)),
{
    let ghost e = s@.subrange(lo as int, hi as int);
    let cut = find_from(s, vsep, lo, hi);
    let ghost t = s@.subrange(0, hi as int);
    proof {
        lemma_shifted_occurrence(t, value_sep(), lo as int, 0);
        lemma_first_occurrence_bounds(t, value_sep(), lo as int);
    }
    let mut b: usize = match cut {
        Some(i) => i,
        None => hi,
    };
    assert(key_part(e) == s@.subrange(lo as int, b as int)) by {
        assert(t.subrange(lo as int, hi as int) =~= e);
        if cut is Some {
            assert(e.subrange(0, b - lo) =~= s@.subrange(lo as int, b as int));
        }
    }
    let mut a: usize = lo;
    while a < b && quote_or_brace(s[a])
        invariant
            lo <= a <= b <= hi <= s.len(),
            trim_start(key_part(e)) == trim_start(s@.subrange(a as int, b as int)),
        decreases b - a,
    {
        assert(s@.subrange(a as int, b as int).drop_first() =~= s@.subrange(a + 1, b as int));
        a = a + 1;
    }
    assert(trim_start(key_part(e)) == s@.subrange(a as int, b as int));
    while b > a && quote_or_brace(s[b - 1])
        invariant
            lo <= a <= b <= hi <= s.len(),
            trim_end(trim_start(key_part(e))) == trim_end(s@.subrange(a as int, b as int)),
        decreases b - a,
    {
        assert(s@.subrange(a as int, b as int).drop_last() =~= s@.subrange(a as int, b - 1));
        b = b - 1;
    }
    string_of(slice_chars(s, a, b))
}

/// Where `p` first occurs in `t` from `lo + k` on is `lo` past where it first
/// occurs in `t[lo..]` from `k` on.
proof fn lemma_shifted_occurrence(t: Seq<char>, p: Seq<char>, lo: int, k: int)
    requires
        0 <= lo <= t.len(),
        0 <= k,
    ensures
        first_occurrence(t, p, lo + k) matches Some(i) ==> first_occurrence(
            t.subrange(lo, t.len() as int),
            p,
            k,
        ) == Some(i - lo),
        first_occurrence(t, p, lo + k) is None ==> first_occurrence(
            t.subrange(lo, t.len() as int),
            p,
            k,
        ) is None,
    decreases t.len() + 1 - lo - k,
{
    let u = t.subrange(lo, t.len() as int);
    if lo + k + p.len() <= t.len() {
        assert(u.subrange(k, k + p.len()) =~= t.subrange(lo + k, lo + k + p.len()));
        if !occurs_at(t, p, lo + k) {
            lemma_shifted_occurrence(t, p, lo, k + 1);
        }
    }
}

/// The keys of a symbol list: the text is split at each `, '`, each entry
/// cut at its first `': '`, and quotes and braces trimmed from both ends of
/// what is left. An empty text has one empty key.
pub fn extract_keys(contents: &String) -> (r: Vec<String>)
    ensures
        r@.map_values(|k: String| k@) == keys_of(contents@),
{
    let s = chars_of(contents.as_str());
    let sep = chars_of(", '");
    let vsep = chars_of("': '");
    proof {
        reveal_strlit(", '");
        reveal_strlit("': '");
        assert(sep@ =~= entry_sep());
        assert(vsep@ =~= value_sep());
    }
    let mut keys: Vec<String> = Vec::new();
    let ghost mut done: Seq<Seq<char>> = Seq::empty();
    let mut start: usize = 0;
    loop
        invariant
            start <= s.len(),
            s@ == contents@,
            sep@ == entry_sep(),
            vsep@ == value_sep(),
            entries_from(s@, 0) == done + entries_from(s@, start as int),
            keys@.map_values(|k: String| k@) == done.map_values(|e: Seq<char>| key_of(e)),
        decreases s.len() - start,
    {
        let found = find_from(&s, &sep, start, s.len());
        assert(s@.subrange(0, s.len() as int) =~= s@);
        proof {
            lemma_first_occurrence_bounds(s@, entry_sep(), start as int);
        }
        match found {
            Some(i) => {
                let ghost piece = s@.subrange(start as int, i as int);
                let key = key_in(&s, &vsep, start, i);
                assert(entries_from(s@, start as int) == seq![piece] + entries_from(s@, i + 3));
                let ghost old_keys = keys@;
                let ghost old_done = done;
                keys.push(key);
                proof {
                    assert(done + entries_from(s@, start as int) =~= (done.push(piece))
                        + entries_from(s@, i + 3));
                    done = done.push(piece);
                    assert(keys@.map_values(|k: String| k@) =~= old_keys.map_values(
                        |k: String| k@,
                    ).push(key_of(piece)));
                    assert(done.map_values(|e: Seq<char>| key_of(e)) =~= old_done.map_values(
                        |e: Seq<char>| key_of(e),
                    ).push(key_of(piece)));
                }
                start = i + 3;
            },
            None => {
                let ghost piece = s@.subrange(start as int, s.len() as int);
                let key = key_in(&s, &vsep, start, s.len());
                assert(entries_from(s@, start as int) == seq![piece]);
                let ghost old_keys = keys@;
                let ghost old_done = done;
                keys.push(key);
                proof {
                    done = done.push(piece);
                    assert(keys@.map_values(|k: String| k@) =~= old_keys.map_values(
                        |k: String| k@,
                    ).push(key_of(piece)));
                    assert(done.map_values(|e: Seq<char>| key_of(e)) =~= old_done.map_values(
                        |e: Seq<char>| key_of(e),
                    ).push(key_of(piece)));
                }
                assert(entries_from(s@, 0) =~= done);
                return keys;
            },
        }
    }
}

} // verus!
