//! The pull-request URL grammar and its parser.
//!
//! A URL designates a pull request when, somewhere in it, the marker
//! `github.com/` is followed by a non-empty slash-free owner segment, a
//! slash, a non-empty slash-free repository segment, the marker `/pull/`
//! and at least one decimal digit.  The match used is the leftmost one,
//! its number the longest digit run; text after the digits is ignored.

use vstd::prelude::*;
use vstd::string::StrSliceExecFns;

verus! {

/// The characters of the host marker `github.com/`.
pub open spec fn host_char_spec(k: int) -> char {
    if k == 0 {
        'g'
    } else if k == 1 {
        'i'
    } else if k == 2 {
        't'
    } else if k == 3 {
        'h'
    } else if k == 4 {
        'u'
    } else if k == 5 {
        'b'
    } else if k == 6 {
        '.'
    } else if k == 7 {
        'c'
    } else if k == 8 {
        'o'
    } else if k == 9 {
        'm'
    } else {
        '/'
    }
}

/// The host marker `github.com/`.
pub open spec fn host_marker() -> Seq<char> {
    Seq::new(11, |k: int| host_char_spec(k))
}

/// The characters of the path marker `pull/`.
pub open spec fn pull_char_spec(k: int) -> char {
    if k == 0 {
        'p'
    } else if k == 1 {
        'u'
    } else if k == 2 {
        'l'
    } else if k == 3 {
        'l'
    } else {
        '/'
    }
}

/// The path marker `pull/`.
pub open spec fn pull_marker() -> Seq<char> {
    Seq::new(5, |k: int| pull_char_spec(k))
}

/// The literal `lit` occurs in `s` at position `i`.
pub open spec fn lit_at(s: Seq<char>, i: int, lit: Seq<char>) -> bool {
    &&& 0 <= i
    &&& i + lit.len() <= s.len()
    &&& forall|k: int| 0 <= k < lit.len() ==> s[i + k] == lit[k]
}

/// A decimal digit.
pub open spec fn is_digit(c: char) -> bool {
    48 <= c as u32 <= 57
}

/// The position of the first `/` at or after `from`, or `s.len()` when
/// there is none.
pub open spec fn slash_pos(s: Seq<char>, from: int) -> int
    decreases s.len() - from,
{
    if from < 0 || from >= s.len() {
        s.len() as int
    } else if s[from] == '/' {
        from
    } else {
        slash_pos(s, from + 1)
    }
}

/// The position right after the digit run starting at `start` (equal to
/// `start` when `s[start]` is no digit).
pub open spec fn run_end(s: Seq<char>, start: int) -> int
    decreases s.len() - start,
{
    if start < 0 || start >= s.len() {
        start
    } else if !is_digit(s[start]) {
        start
    } else {
        run_end(s, start + 1)
    }
}

/// The numeric value of a digit sequence (most significant first).
pub open spec fn digits_val(ds: Seq<char>) -> int
    decreases ds.len(),
{
    if ds.len() == 0 {
        0
    } else {
        digits_val(ds.drop_last()) * 10 + (ds.last() as u32 - 48)
    }
}

/// Where the owner segment of a match starting at `i` ends.
pub open spec fn owner_end(s: Seq<char>, i: int) -> int {
    slash_pos(s, i + 11)
}

/// Where the repository segment of a match starting at `i` ends.
pub open spec fn repo_end(s: Seq<char>, i: int) -> int {
    slash_pos(s, owner_end(s, i) + 1)
}

/// The grammar matches at position `i`.  Both segments are the full
/// slash-delimited path components, so the match at a given position is
/// unambiguous.
pub open spec fn match_at(s: Seq<char>, i: int) -> bool {
    let j1 = owner_end(s, i);
    let j2 = repo_end(s, i);
    &&& lit_at(s, i, host_marker())
    &&& j1 < s.len()
    &&& j1 > i + 11
    &&& j2 < s.len()
    &&& j2 > j1 + 1
    &&& lit_at(s, j2 + 1, pull_marker())
    &&& j2 + 6 < s.len()
    &&& is_digit(s[j2 + 6])
}

/// The owner segment of the match at `i`.
pub open spec fn owner_of(s: Seq<char>, i: int) -> Seq<char> {
    s.subrange(i + 11, owner_end(s, i))
}

/// The repository segment of the match at `i`.
pub open spec fn repo_of(s: Seq<char>, i: int) -> Seq<char> {
    s.subrange(owner_end(s, i) + 1, repo_end(s, i))
}

/// The digit run of the match at `i`.
pub open spec fn digits_of(s: Seq<char>, i: int) -> Seq<char> {
    s.subrange(repo_end(s, i) + 6, run_end(s, repo_end(s, i) + 6))
}

/// The pull-request number of the match at `i`.
pub open spec fn number_of(s: Seq<char>, i: int) -> int {
    digits_val(digits_of(s, i))
}

/// The first matching position at or after `i`, or `s.len()` when the
/// grammar matches nowhere.
pub open spec fn first_match_pos(s: Seq<char>, i: int) -> int
    decreases s.len() - i,
{
    if i < 0 || i >= s.len() {
        s.len() as int
    } else if match_at(s, i) {
        i
    } else {
        first_match_pos(s, i + 1)
    }
}

/// What a successfully parsed URL yields.
#[derive(Debug, PartialEq, Eq)]
pub struct ParsedPr {
    pub owner: String,
    pub repo: String,
    pub number: u64,
}

/// Skipping positions without a match does not move the first match.
proof fn lemma_first_match_skip(s: Seq<char>, a: int, b: int)
    requires
        0 <= a <= b <= s.len(),
        forall|k: int| a <= k < b ==> !match_at(s, k),
    ensures
        first_match_pos(s, a) == first_match_pos(s, b),
    decreases b - a,
{
    if a < b {
        assert(!match_at(s, a));
        lemma_first_match_skip(s, a + 1, b);
    }
}

/// Everything strictly inside the digit run is a digit, and the run stays
/// within the sequence.
proof fn lemma_run_end_digits(s: Seq<char>, start: int)
    requires
        0 <= start <= s.len(),
    ensures
        start <= run_end(s, start) <= s.len(),
        forall|k: int| start <= k < run_end(s, start) ==> is_digit(s[k]),
    decreases s.len() - start,
{
    if start < s.len() && is_digit(s[start]) {
        lemma_run_end_digits(s, start + 1);
    }
}

/// A digit sequence has a non-negative value.
proof fn lemma_digits_val_nonneg(ds: Seq<char>)
    requires
        forall|k: int| 0 <= k < ds.len() ==> is_digit(#[trigger] ds[k]),
    ensures
        digits_val(ds) >= 0,
    decreases ds.len(),
{
    if ds.len() > 0 {
        lemma_digits_val_nonneg(ds.drop_last());
    }
}

/// A prefix of a digit sequence never exceeds the whole sequence's value.
proof fn lemma_digits_val_prefix(ds: Seq<char>, m: int)
    requires
        0 <= m <= ds.len(),
        forall|k: int| 0 <= k < ds.len() ==> is_digit(#[trigger] ds[k]),
    ensures
        digits_val(ds.take(m)) <= digits_val(ds),
    decreases ds.len() - m,
{
    if m < ds.len() {
        lemma_digits_val_prefix(ds, m + 1);
        let shorter = ds.take(m);
        let longer = ds.take(m + 1);
        assert(longer.drop_last() =~= shorter);
        assert(longer.last() == ds[m]);
        assert forall|k: int| 0 <= k < shorter.len() implies is_digit(#[trigger] shorter[k]) by {
            assert(shorter[k] == ds[k]);
        }
        lemma_digits_val_nonneg(shorter);
        assert(digits_val(longer) == digits_val(shorter) * 10 + (ds[m] as u32 - 48));
        assert(digits_val(shorter) <= digits_val(longer));
    } else {
        assert(ds.take(m) =~= ds);
    }
}

/// Reads the host marker character by character.
fn host_char(k: usize) -> (c: char)
    requires
        k < 11,
    ensures
        c == host_marker()[k as int],
{
    match k {
        0 => 'g',
        1 => 'i',
        2 => 't',
        3 => 'h',
        4 => 'u',
        5 => 'b',
        6 => '.',
        7 => 'c',
        8 => 'o',
        9 => 'm',
        _ => '/',
    }
}

/// Reads the path marker character by character.
fn pull_char(k: usize) -> (c: char)
    requires
        k < 5,
    ensures
        c == pull_marker()[k as int],
{
    match k {
        0 => 'p',
        1 => 'u',
        2 => 'l',
        3 => 'l',
        _ => '/',
    }
}

/// Whether the host marker occurs at position `i`.
fn host_at(url: &str, i: usize, len: usize) -> (r: bool)
    requires
        len == url@.len(),
        i <= len,
    ensures
        r == lit_at(url@, i as int, host_marker()),
{
    if len - i < 11 {
        return false;
    }
    let mut k: usize = 0;
    while k < 11
        invariant
            len == url@.len(),
            i + 11 <= len,
            0 <= k <= 11,
            forall|m: int| 0 <= m < k ==> url@[i + m] == host_marker()[m],
        decreases 11 - k,
    {
        let c = url.get_char(i + k);
        let want = host_char(k);
        if c != want {
            return false;
        }
        k += 1;
    }
    true
}

/// Whether the path marker occurs at position `i`.
fn pull_at(url: &str, i: usize, len: usize) -> (r: bool)
    requires
        len == url@.len(),
        i <= len,
    ensures
        r == lit_at(url@, i as int, pull_marker()),
{
    if len - i < 5 {
        return false;
    }
    let mut k: usize = 0;
    while k < 5
        invariant
            len == url@.len(),
            i + 5 <= len,
            0 <= k <= 5,
            forall|m: int| 0 <= m < k ==> url@[i + m] == pull_marker()[m],
        decreases 5 - k,
    {
        let c = url.get_char(i + k);
        let want = pull_char(k);
        if c != want {
            return false;
        }
        k += 1;
    }
    true
}

/// Finds the first slash at or after `from`.
fn find_slash(url: &str, from: usize, len: usize) -> (j: usize)
    requires
        len == url@.len(),
        from <= len,
    ensures
        j == slash_pos(url@, from as int),
        from <= j <= len,
    {
    let mut j: usize = from;
    while j < len
        invariant
            len == url@.len(),
            from <= j <= len,
            slash_pos(url@, from as int) == slash_pos(url@, j as int),
        decreases len - j,
    {
        let c = url.get_char(j);
        if c == '/' {
            return j;
        }
        j += 1;
    }
    j
}

/// Finds the end of the digit run starting at `start`.
fn digit_run(url: &str, start: usize, len: usize) -> (e: usize)
    requires
        len == url@.len(),
        start <= len,
    ensures
        e == run_end(url@, start as int),
        start <= e <= len,
{
    let mut e: usize = start;
    while e < len
        invariant
            len == url@.len(),
            start <= e <= len,
            run_end(url@, start as int) == run_end(url@, e as int),
        decreases len - e,
    {
        let c = url.get_char(e);
        let cv = c as u32;
        if cv < 48 || cv > 57 {
            return e;
        }
        e += 1;
    }
    e
}

/// Reads the digit run `[d0, e)` as a number; `None` when its value does
/// not fit in a u64.
fn digits_to_u64(url: &str, d0: usize, e: usize, len: usize) -> (r: Option<u64>)
    requires
        len == url@.len(),
        d0 <= e <= len,
        e == run_end(url@, d0 as int),
    ensures
        r matches Some(v) ==> v == digits_val(url@.subrange(d0 as int, e as int)),
        r is None ==> digits_val(url@.subrange(d0 as int, e as int)) > u64::MAX,
{
    proof {
        lemma_run_end_digits(url@, d0 as int);
    }
    let ghost ds = url@.subrange(d0 as int, e as int);
    proof {
        assert forall|k: int| 0 <= k < ds.len() implies is_digit(#[trigger] ds[k]) by {
            assert(ds[k] == url@[d0 + k]);
        }
    }
    let mut num: u64 = 0;
    let mut idx: usize = d0;
    while idx < e
        invariant
            len == url@.len(),
            d0 <= idx <= e <= len,
            ds == url@.subrange(d0 as int, e as int),
            forall|k: int| 0 <= k < ds.len() ==> is_digit(#[trigger] ds[k]),
            num == digits_val(ds.take(idx - d0)),
        decreases e - idx,
    {
        let c = url.get_char(idx);
        proof {
            assert(ds[idx - d0] == url@[idx as int]);
        }
        let cv = c as u32;
        let d = (cv - 48) as u64;
        let ghost m = idx - d0;
        proof {
            assert(ds.take(m + 1).drop_last() =~= ds.take(m));
            assert(ds.take(m + 1).last() == ds[m]);
            assert(digits_val(ds.take(m + 1)) == digits_val(ds.take(m)) * 10 + (ds[m] as u32
                - 48));
        }
        let stepped = match num.checked_mul(10) {
            Option::Some(t) => t.checked_add(d),
            Option::None => None,
        };
        match stepped {
            Option::Some(v) => {
                num = v;
            },
            Option::None => {
                proof {
                    assert(digits_val(ds.take(m + 1)) > u64::MAX);
                    lemma_digits_val_prefix(ds, m + 1);
                }
                return None;
            },
        }
        idx += 1;
    }
    proof {
        assert(ds.take(e - d0) =~= ds);
    }
    Some(num)
}

/// Parses a pull-request URL.
///
/// The contract is total: when the grammar matches anywhere and the
/// number of the leftmost match fits in a u64, the result carries that
/// match's owner, repository and number; otherwise the result is `None`.
pub fn parse_github_pr_url(url: &str) -> (r: Option<ParsedPr>)
    ensures
        ({
            let s = url@;
            let m = first_match_pos(s, 0);
            if m < s.len() && number_of(s, m) <= u64::MAX {
                r matches Some(p) && p.owner@ == owner_of(s, m) && p.repo@ == repo_of(s, m)
                    && p.number == number_of(s, m) && p.owner@.len() > 0 && p.repo@.len() > 0
            } else {
                r is None
            }
        }),
{
    let len = url.unicode_len();
    let mut i: usize = 0;
    while i < len
        invariant
            len == url@.len(),
            0 <= i <= len,
            forall|k: int| 0 <= k < i ==> !match_at(url@, k),
        decreases len - i,
    {
        if host_at(url, i, len) {
            let j1 = find_slash(url, i + 11, len);
            if j1 < len && j1 > i + 11 {
                let j2 = find_slash(url, j1 + 1, len);
                if j2 < len && j2 > j1 + 1 && pull_at(url, j2 + 1, len) {
                    if j2 + 6 < len {
                        let c = url.get_char(j2 + 6);
                        let cv = c as u32;
                        if 48 <= cv && cv <= 57 {
                            // The grammar matches at `i`, and nowhere to
                            // its left.
                            proof {
                                assert(match_at(url@, i as int));
                                lemma_first_match_skip(url@, 0, i as int);
                            }
                            let e = digit_run(url, j2 + 6, len);
                            match digits_to_u64(url, j2 + 6, e, len) {
                                Option::Some(v) => {
                                    let owner_str = url.substring_char(i + 11, j1);
                                    let repo_str = url.substring_char(j1 + 1, j2);
                                    return Some(
                                        ParsedPr {
                                            owner: owner_str.to_owned(),
                                            repo: repo_str.to_owned(),
                                            number: v,
                                        },
                                    );
                                },
                                Option::None => {
                                    return None;
                                },
                            }
                        }
                    }
                }
            }
        }
        proof {
            assert(!match_at(url@, i as int));
        }
        i += 1;
    }
    proof {
        lemma_first_match_skip(url@, 0, len as int);
    }
    None
}

} // verus!

