//! Cider (Apple Music) specifics: how song titles are normalised before
//! search results are compared, the search request, and the retry policy
//! of the catalogue search.

use vstd::prelude::*;
use crate::text::{
    chars_of, collapse_whitespace, find_chars, find_from, find_seq, trim_end, trim_start, is_white, is_whitespace, join_seqs,
    push_seq, slice_chars, string_of, trim_chars, trimmed, words,
};
use crate::unicode::{
    alphanumeric, ascii_lower_char, ascii_lowered, ascii_text, is_alphanumeric, is_ascii_alnum,
    is_ascii_char, lowercase, nfd, nfd_form, to_lowercase,
};

verus! {

/// The Cider player of a user, reached with an API token.
#[derive(Debug, Clone, PartialEq, Eq)]
pub struct CiderControl {
    pub token: String,
}

impl CiderControl {
    /// The Cider player reached with `token`.
    pub fn new(token: &String) -> (c: CiderControl)
        ensures
            c.token@ == token@,
    {
        CiderControl { token: token.clone() }
    }
}

/// Whether `c` is in the Combining Diacritical Marks block, U+0300 to U+036F.
pub open spec fn is_combining_mark(c: char) -> bool {
    0x300 <= (c as u32) && (c as u32) <= 0x36F
}

/// Whether `c` is in the Combining Diacritical Marks block.
pub fn is_combining(c: char) -> (b: bool)
    ensures
        b == is_combining_mark(c),
{
    0x300 <= (c as u32) && (c as u32) <= 0x36F
}

/// `s` without its combining marks.
pub open spec fn strip_marks(s: Seq<char>) -> Seq<char>
    decreases s.len(),
{
    if s.len() == 0 {
        s
    } else if is_combining_mark(s.last()) {
        strip_marks(s.drop_last())
    } else {
        strip_marks(s.drop_last()).push(s.last())
    }
}

/// Whether a character is kept in a search key: alphanumeric or whitespace.
pub open spec fn is_word_char(c: char) -> bool {
    alphanumeric(c) || is_white(c)
}

/// `s` with only its alphanumeric and whitespace characters.
pub open spec fn keep_word_chars(s: Seq<char>) -> Seq<char>
    decreases s.len(),
{
    if s.len() == 0 {
        s
    } else if is_word_char(s.last()) {
        keep_word_chars(s.drop_last()).push(s.last())
    } else {
        keep_word_chars(s.drop_last())
    }
}

/// `s` up to the first occurrence of `pat`, trimmed; `s` itself when `pat`
/// does not occur.
pub open spec fn cut_before(s: Seq<char>, pat: Seq<char>) -> Seq<char> {
    match find_seq(s, pat) {
        Some(i) => trimmed(s.subrange(0, i as int)),
        None => s,
    }
}

/// The search key of a title: decomposed (NFD) without combining marks,
/// lowercased, reduced to alphanumeric characters and single spaces between
/// words, and cut before a `(` and before a ` - `.
pub open spec fn normalized(s: Seq<char>) -> Seq<char> {
    let lower = join_seqs(
        words(keep_word_chars(lowercase(strip_marks(nfd_form(s))))),
        seq![' '],
    );
    cut_before(cut_before(lower, seq!['(']), seq![' ', '-', ' '])
}

fn without_marks(v: &Vec<char>) -> (r: Vec<char>)
    ensures
        r@ == strip_marks(v@),
{
    let mut r: Vec<char> = Vec::new();
    let mut i: usize = 0;
    while i < v.len()
        invariant
            i <= v.len(),
            r@ == strip_marks(v@.subrange(0, i as int)),
        decreases v.len() - i,
    {
        assert(v@.subrange(0, i + 1).drop_last() =~= v@.subrange(0, i as int));
        if !is_combining(v[i]) {
            r.push(v[i]);
        }
        i = i + 1;
    }
    assert(v@.subrange(0, v.len() as int) =~= v@);
    r
}

fn only_word_chars(v: &Vec<char>) -> (r: Vec<char>)
    ensures
        r@ == keep_word_chars(v@),
        ascii_text(v@) ==> r@ == ascii_keep(v@),
{
    let mut r: Vec<char> = Vec::new();
    let mut i: usize = 0;
    while i < v.len()
        invariant
            i <= v.len(),
            r@ == keep_word_chars(v@.subrange(0, i as int)),
            ascii_text(v@) ==> r@ == ascii_keep(v@.subrange(0, i as int)),
        decreases v.len() - i,
    {
        assert(v@.subrange(0, i + 1).drop_last() =~= v@.subrange(0, i as int));
        let alnum = is_alphanumeric(v[i]);
        proof {
            if ascii_text(v@) {
                assert(is_ascii_char(v@[i as int]));
            }
        }
        if alnum || is_whitespace(v[i]) {
            r.push(v[i]);
        }
        i = i + 1;
    }
    assert(v@.subrange(0, v.len() as int) =~= v@);
    r
}

fn cut_at(v: Vec<char>, pat: &Vec<char>) -> (r: Vec<char>)
    ensures
        r@ == cut_before(v@, pat@),
{
    match find_chars(&v, pat) {
        Some(i) => {
            let head = slice_chars(&v, 0, i);
            trim_chars(&head)
        },
        None => v,
    }
}

/// An ASCII text with only its letters, digits and whitespace.
pub open spec fn ascii_keep(s: Seq<char>) -> Seq<char>
    decreases s.len(),
{
    if s.len() == 0 {
        s
    } else if is_ascii_alnum(s.last()) || is_white(s.last()) {
        ascii_keep(s.drop_last()).push(s.last())
    } else {
        ascii_keep(s.drop_last())
    }
}

/// The search key of an ASCII title: lowercased, with everything but
/// letters, digits and whitespace removed, and one space between words.
pub open spec fn ascii_search_key(s: Seq<char>) -> Seq<char> {
    join_seqs(words(ascii_keep(ascii_lowered(s))), seq![' '])
}

proof fn lemma_strip_ascii(t: Seq<char>)
    requires
        ascii_text(t),
    ensures
        strip_marks(t) == t,
    decreases t.len(),
{
    if t.len() > 0 {
        let u = t.drop_last();
        assert forall|i: int| 0 <= i < u.len() implies is_ascii_char(#[trigger] u[i]) by {
            assert(u[i] == t[i]);
        }
        lemma_strip_ascii(u);
        assert(is_ascii_char(t[t.len() - 1]));
        assert(u.push(t.last()) =~= t);
    }
}

proof fn lemma_lowered_ascii(t: Seq<char>)
    requires
        ascii_text(t),
    ensures
        ascii_text(ascii_lowered(t)),
{
    assert forall|i: int| 0 <= i < ascii_lowered(t).len() implies is_ascii_char(#[trigger] ascii_lowered(t)[i]) by {
        assert(is_ascii_char(t[i]));
        assert(ascii_lowered(t)[i] == ascii_lower_char(t[i]));
    }
}

proof fn lemma_ascii_kept_chars(s: Seq<char>)
    ensures
        forall|i: int| 0 <= i < ascii_keep(s).len() ==> is_ascii_alnum(#[trigger] ascii_keep(s)[i]) || is_white(ascii_keep(s)[i]),
    decreases s.len(),
{
    if s.len() > 0 {
        lemma_ascii_kept_chars(s.drop_last());
        let p = ascii_keep(s.drop_last());
        let k = ascii_keep(s);
        assert forall|i: int| 0 <= i < k.len() implies is_ascii_alnum(#[trigger] k[i]) || is_white(k[i]) by {
            if i < p.len() {
                assert(k[i] == p[i]);
            }
        }
    }
}

proof fn lemma_word_chars_from(t: Seq<char>)
    requires
        forall|i: int| 0 <= i < t.len() ==> is_ascii_alnum(#[trigger] t[i]) || is_white(t[i]),
    ensures
        forall|k: int, j: int|
            0 <= k < words(t).len() && 0 <= j < words(t)[k].len() ==> is_ascii_alnum(
                #[trigger] words(t)[k][j],
            ),
    decreases t.len(),
{
    if t.len() > 0 {
        let u = t.drop_last();
        assert forall|i: int| 0 <= i < u.len() implies is_ascii_alnum(#[trigger] u[i]) || is_white(u[i]) by {
            assert(u[i] == t[i]);
        }
        lemma_word_chars_from(u);
        let prev = words(u);
        let c = t.last();
        assert(is_ascii_alnum(t[t.len() - 1]) || is_white(t[t.len() - 1]));
        let ws = words(t);
        assert forall|k: int, j: int| 0 <= k < ws.len() && 0 <= j < ws[k].len() implies is_ascii_alnum(
            #[trigger] ws[k][j],
        ) by {
            if is_white(c) {
                assert(ws == prev);
            } else if t.len() >= 2 && !is_white(t[t.len() - 2]) && prev.len() > 0 {
                if k == prev.len() - 1 {
                    assert(ws[k] == prev[k].push(c));
                    if j < prev[k].len() {
                        assert(ws[k][j] == prev[k][j]);
                    }
                } else {
                    assert(ws[k] == prev[k]);
                }
            } else {
                if k == prev.len() {
                    assert(ws[k] == seq![c]);
                } else {
                    assert(ws[k] == prev[k]);
                }
            }
        }
    }
}

proof fn lemma_join_chars(ws: Seq<Seq<char>>)
    requires
        forall|k: int, j: int| 0 <= k < ws.len() && 0 <= j < ws[k].len() ==> is_ascii_alnum(#[trigger] ws[k][j]),
    ensures
        forall|i: int|
            0 <= i < join_seqs(ws, seq![' ']).len() ==> #[trigger] join_seqs(ws, seq![' '])[i] == ' '
                || is_ascii_alnum(join_seqs(ws, seq![' '])[i]),
    decreases ws.len(),
{
    if ws.len() == 1 {
        assert(join_seqs(ws, seq![' ']) == ws[0]);
        assert forall|i: int| 0 <= i < ws[0].len() implies #[trigger] ws[0][i] == ' ' || is_ascii_alnum(ws[0][i]) by {
            assert(is_ascii_alnum(ws[0][i]));
        }
    } else if ws.len() > 1 {
        let a = ws.drop_last();
        assert forall|k: int, j: int| 0 <= k < a.len() && 0 <= j < a[k].len() implies is_ascii_alnum(#[trigger] a[k][j]) by {
            assert(a[k] == ws[k]);
        }
        lemma_join_chars(a);
        let j = join_seqs(a, seq![' ']);
        let w = ws.last();
        let r = j + seq![' '] + w;
        assert(join_seqs(ws, seq![' ']) == r);
        assert forall|i: int| 0 <= i < r.len() implies #[trigger] r[i] == ' ' || is_ascii_alnum(r[i]) by {
            if i < j.len() {
                assert(r[i] == j[i]);
            } else if i > j.len() {
                assert(r[i] == w[i - j.len() - 1]);
                assert(is_ascii_alnum(ws[ws.len() - 1][i - j.len() - 1]));
            }
        }
    }
}

proof fn lemma_absent_char_no_match(s: Seq<char>, pat: Seq<char>, j: int, i: nat)
    requires
        0 <= j < pat.len(),
        forall|k: int| 0 <= k < s.len() ==> #[trigger] s[k] != pat[j],
    ensures
        find_from(s, pat, i) is None,
    decreases s.len() - i,
{
    if i + pat.len() <= s.len() {
        if s.subrange(i as int, (i + pat.len()) as int) == pat {
            assert(s.subrange(i as int, (i + pat.len()) as int)[j] == s[i + j]);
            assert(s[i + j] != pat[j]);
        }
        if i < s.len() {
            lemma_absent_char_no_match(s, pat, j, i + 1);
        }
    }
}

/// The search key of a title, as `normalized` describes it; for an ASCII
/// title, the title lowercased, with everything but letters, digits and
/// whitespace removed, and one space between words.
pub fn normalize(s: &str) -> (r: String)
    ensures
        r@ == normalized(s@),
        ascii_text(s@) ==> r@ == ascii_search_key(s@),
{
    let decomposed = nfd(s);
    let plain = without_marks(&chars_of(decomposed.as_str()));
    proof {
        if ascii_text(s@) {
            lemma_strip_ascii(s@);
        }
    }
    let lower = to_lowercase(string_of(&plain).as_str());
    proof {
        if ascii_text(s@) {
            lemma_lowered_ascii(s@);
        }
    }
    let kept = only_word_chars(&chars_of(lower.as_str()));
    let joined = collapse_whitespace(&kept);
    proof {
        if ascii_text(s@) {
            lemma_ascii_kept_chars(ascii_lowered(s@));
            lemma_word_chars_from(kept@);
            lemma_join_chars(words(kept@));
            let x = joined@;
            assert forall|k: int| 0 <= k < x.len() implies #[trigger] x[k] != '(' by {
                assert(x[k] == ' ' || is_ascii_alnum(x[k]));
            }
            lemma_absent_char_no_match(x, seq!['('], 0, 0);
            assert(cut_before(x, seq!['(']) == x);
            assert forall|k: int| 0 <= k < x.len() implies #[trigger] x[k] != seq![' ', '-', ' '][1] by {
                assert(x[k] == ' ' || is_ascii_alnum(x[k]));
            }
            lemma_absent_char_no_match(x, seq![' ', '-', ' '], 1, 0);
        }
    }
    let mut paren: Vec<char> = Vec::new();
    paren.push('(');
    let mut dash: Vec<char> = Vec::new();
    dash.push(' ');
    dash.push('-');
    dash.push(' ');
    assert(paren@ =~= seq!['(']);
    assert(dash@ =~= seq![' ', '-', ' ']);
    let cut = cut_at(cut_at(joined, &paren), &dash);
    string_of(&cut)
}

/// The catalogue search path for a song name.
pub open spec fn search_path_spec(song_name: Seq<char>) -> Seq<char> {
    "/v1/catalog/in/search?types=songs&term="@ + song_name
}

/// The catalogue search path for a song name.
pub fn search_path(song_name: &str) -> (p: String)
    ensures
        p@ == search_path_spec(song_name@),
{
    let mut p = String::new();
    push_seq(&mut p, "/v1/catalog/in/search?types=songs&term=");
    push_seq(&mut p, song_name);
    p
}

/// The number of failed searches after which the search gives up is one
/// more than this.
pub open spec fn max_retries() -> nat {
    5
}

/// The wait, in nanoseconds, after the failure of a search that has failed
/// `k` times before: one second, and half again as long after each failure.
pub open spec fn backoff_nanos(k: nat) -> nat
    decreases k,
{
    if k == 0 {
        1_000_000_000
    } else {
        backoff_nanos((k - 1) as nat) * 3 / 2
    }
}

proof fn lemma_backoff_values()
    ensures
        backoff_nanos(0) == 1_000_000_000,
        backoff_nanos(1) == 1_500_000_000,
        backoff_nanos(2) == 2_250_000_000,
        backoff_nanos(3) == 3_375_000_000,
        backoff_nanos(4) == 5_062_500_000,
        backoff_nanos(5) == 7_593_750_000,
{
    reveal_with_fuel(backoff_nanos, 6);
}

/// The retry state of a catalogue search: how often it has failed so far.
pub struct SearchRetry {
    pub failures: u32,
}

impl SearchRetry {
    /// A search that has not failed yet.
    pub fn new() -> (r: SearchRetry)
        ensures
            r.failures == 0,
    {
        SearchRetry { failures: 0 }
    }

    /// The search failed once more: the wait before the next try, or `None`
    /// when the search gives up (after more than five failed retries).
    pub fn on_failure(&mut self) -> (wait: Option<u64>)
        ensures
            old(self).failures > max_retries() ==> wait is None && final(self).failures
                == old(self).failures,
            old(self).failures <= max_retries() ==> wait == Some(
                backoff_nanos(old(self).failures as nat) as u64,
            ) && final(self).failures == old(self).failures + 1,
    {
        if self.failures > 5 {
            return None;
        }
        let mut w: u64 = 1_000_000_000;
        let mut k: u32 = 0;
        while k < self.failures
            invariant
                k <= self.failures <= 5,
                w as nat == backoff_nanos(k as nat),
            decreases self.failures - k,
        {
            proof {
                lemma_backoff_values();
            }
            assert(backoff_nanos((k + 1) as nat) == backoff_nanos(k as nat) * 3 / 2);
            w = w * 3 / 2;
            k = k + 1;
        }
        self.failures = self.failures + 1;
        Some(w)
    }
}

/// The waits, in nanoseconds, after the first `n` failures of a search.
pub open spec fn total_wait(n: nat) -> nat
    decreases n,
{
    if n == 0 {
        0
    } else {
        total_wait((n - 1) as nat) + backoff_nanos((n - 1) as nat)
    }
}

/// A search that keeps failing is made seven times in all: the first try
/// and a retry after each of the first six failures, the seventh failure
/// ends it. Between them it waits 1, 1.5, 2.25, 3.375, 5.0625 and 7.59375
/// seconds, 20.78125 seconds in all.
pub proof fn law_search_gives_up_after_six_retries()
    ensures
        total_wait(max_retries() + 1) == 20_781_250_000,
        forall|k: nat| k <= max_retries() ==> backoff_nanos(k + 1) * 2 == #[trigger] backoff_nanos(k) * 3,
{
    lemma_backoff_values();
    reveal_with_fuel(total_wait, 7);
    assert forall|k: nat| k <= max_retries() implies backoff_nanos(k + 1) * 2 == #[trigger] backoff_nanos(k) * 3 by {
        reveal_with_fuel(backoff_nanos, 7);
        if k == 5 {
            assert(backoff_nanos(6) == 11_390_625_000);
        }
    }
}

/// Whether a search key is clean: each character is a space or an
/// alphanumeric non-whitespace character, it neither starts nor ends with a
/// space, and no two spaces stand side by side.
pub open spec fn clean_key(s: Seq<char>) -> bool {
    &&& forall|i: int| 0 <= i < s.len() ==> #[trigger] s[i] == ' ' || (alphanumeric(s[i]) && !is_white(s[i]))
    &&& s.len() > 0 ==> s[0] != ' ' && s.last() != ' '
    &&& forall|i: int| 0 <= i < s.len() - 1 ==> !(#[trigger] s[i] == ' ' && s[i + 1] == ' ')
}

/// Whether a word is made of alphanumeric non-whitespace characters, and
/// has at least one.
pub open spec fn good_word(w: Seq<char>) -> bool {
    &&& w.len() > 0
    &&& forall|j: int| 0 <= j < w.len() ==> alphanumeric(#[trigger] w[j]) && !is_white(w[j])
}

proof fn lemma_kept_chars(s: Seq<char>)
    ensures
        forall|i: int| 0 <= i < keep_word_chars(s).len() ==> is_word_char(#[trigger] keep_word_chars(s)[i]),
    decreases s.len(),
{
    if s.len() > 0 {
        lemma_kept_chars(s.drop_last());
        let p = keep_word_chars(s.drop_last());
        let k = keep_word_chars(s);
        assert forall|i: int| 0 <= i < k.len() implies is_word_char(#[trigger] k[i]) by {
            if i < p.len() {
                assert(k[i] == p[i]);
            }
        }
    }
}

proof fn lemma_words_good(t: Seq<char>)
    requires
        forall|i: int| 0 <= i < t.len() ==> is_word_char(#[trigger] t[i]),
    ensures
        forall|k: int| 0 <= k < words(t).len() ==> good_word(#[trigger] words(t)[k]),
    decreases t.len(),
{
    if t.len() > 0 {
        let u = t.drop_last();
        assert forall|i: int| 0 <= i < u.len() implies is_word_char(#[trigger] u[i]) by {
            assert(u[i] == t[i]);
        }
        lemma_words_good(u);
        let prev = words(u);
        let c = t.last();
        assert(is_word_char(t[t.len() - 1]));
        let ws = words(t);
        assert forall|k: int| 0 <= k < ws.len() implies good_word(#[trigger] ws[k]) by {
            if is_white(c) {
                assert(ws == prev);
            } else if t.len() >= 2 && !is_white(t[t.len() - 2]) && prev.len() > 0 {
                if k == prev.len() - 1 {
                    let w = prev.last().push(c);
                    assert(ws[k] == w);
                    assert(good_word(prev[k]));
                    assert forall|j: int| 0 <= j < w.len() implies alphanumeric(#[trigger] w[j]) && !is_white(w[j]) by {
                        if j < w.len() - 1 {
                            assert(w[j] == prev[k][j]);
                        }
                    }
                } else {
                    assert(ws[k] == prev[k]);
                }
            } else {
                if k == prev.len() {
                    assert(ws[k] == seq![c]);
                    assert(seq![c][0] == c);
                } else {
                    assert(ws[k] == prev[k]);
                }
            }
        }
    }
}

proof fn lemma_join_clean(ws: Seq<Seq<char>>)
    requires
        forall|k: int| 0 <= k < ws.len() ==> good_word(#[trigger] ws[k]),
    ensures
        clean_key(join_seqs(ws, seq![' '])),
        ws.len() > 0 ==> join_seqs(ws, seq![' ']).len() > 0,
    decreases ws.len(),
{
    assert(is_white(' '));
    if ws.len() == 1 {
        let w = ws[0];
        assert(good_word(ws[0]));
        assert(join_seqs(ws, seq![' ']) == w);
        assert(!is_white(w[0]) && !is_white(w[w.len() - 1]));
    } else if ws.len() > 1 {
        let a = ws.drop_last();
        assert forall|k: int| 0 <= k < a.len() implies good_word(#[trigger] a[k]) by {
            assert(a[k] == ws[k]);
        }
        lemma_join_clean(a);
        let j = join_seqs(a, seq![' ']);
        let w = ws.last();
        assert(good_word(ws[ws.len() - 1]));
        let r = j + seq![' '] + w;
        assert(join_seqs(ws, seq![' ']) == r);
        assert(j.len() > 0);
        assert(!is_white(w[0]) && !is_white(w[w.len() - 1]));
        assert forall|i: int| 0 <= i < r.len() implies #[trigger] r[i] == ' ' || (alphanumeric(r[i]) && !is_white(r[i])) by {
            if i < j.len() {
                assert(r[i] == j[i]);
            } else if i > j.len() {
                assert(r[i] == w[i - j.len() - 1]);
            }
        }
        assert(r[0] == j[0]);
        assert(r.last() == w.last());
        assert forall|i: int| 0 <= i < r.len() - 1 implies !(#[trigger] r[i] == ' ' && r[i + 1] == ' ') by {
            if i < j.len() - 1 {
                assert(r[i] == j[i] && r[i + 1] == j[i + 1]);
            } else if i == j.len() - 1 {
                assert(r[i] == j.last());
            } else if i == j.len() {
                assert(r[i + 1] == w[0]);
            } else {
                assert(r[i] == w[i - j.len() - 1] && r[i + 1] == w[i - j.len()]);
            }
        }
    }
}

proof fn lemma_find_in_bounds(s: Seq<char>, pat: Seq<char>, i: nat)
    ensures
        find_from(s, pat, i) matches Some(k) ==> k + pat.len() <= s.len(),
    decreases s.len() - i,
{
    if i + pat.len() <= s.len() && s.subrange(i as int, (i + pat.len()) as int) != pat && i < s.len() {
        lemma_find_in_bounds(s, pat, i + 1);
    }
}

proof fn lemma_trim_end_prefix(p: Seq<char>) -> (k: int)
    ensures
        0 <= k <= p.len(),
        trim_end(p) == p.subrange(0, k),
        k == 0 || !is_white(p[k - 1]),
    decreases p.len(),
{
    if p.len() > 0 && is_white(p.last()) {
        let k = lemma_trim_end_prefix(p.drop_last());
        assert(p.drop_last().subrange(0, k) =~= p.subrange(0, k));
        if k > 0 {
            assert(p.drop_last()[k - 1] == p[k - 1]);
        }
        k
    } else {
        assert(p.subrange(0, p.len() as int) =~= p);
        p.len() as int
    }
}

proof fn lemma_cut_clean(s: Seq<char>, pat: Seq<char>)
    requires
        clean_key(s),
    ensures
        clean_key(cut_before(s, pat)),
{
    assert(is_white(' '));
    lemma_find_in_bounds(s, pat, 0);
    if let Some(i) = find_seq(s, pat) {
        let p = s.subrange(0, i as int);
        if p.len() > 0 {
            assert(p[0] == s[0]);
            assert(s[0] == ' ' || !is_white(s[0]));
        }
        assert(trim_start(p) == p);
        let k = lemma_trim_end_prefix(p);
        let r = p.subrange(0, k);
        assert(trimmed(s.subrange(0, i as int)) == r);
        assert forall|j: int| 0 <= j < r.len() implies #[trigger] r[j] == ' ' || (alphanumeric(r[j]) && !is_white(r[j])) by {
            assert(r[j] == s[j]);
        }
        assert forall|j: int| 0 <= j < r.len() - 1 implies !(#[trigger] r[j] == ' ' && r[j + 1] == ' ') by {
            assert(r[j] == s[j] && r[j + 1] == s[j + 1]);
        }
        if r.len() > 0 {
            assert(r[0] == s[0]);
            assert(r.last() == p[k - 1]);
        }
    }
}

/// A search key is clean whatever the title: only alphanumeric characters
/// and single spaces between words, with no space at either end.
pub proof fn law_search_key_shape(s: Seq<char>)
    ensures
        clean_key(normalized(s)),
{
    let t = keep_word_chars(lowercase(strip_marks(nfd_form(s))));
    lemma_kept_chars(lowercase(strip_marks(nfd_form(s))));
    lemma_words_good(t);
    lemma_join_clean(words(t));
    let lower = join_seqs(words(t), seq![' ']);
    lemma_cut_clean(lower, seq!['(']);
    lemma_cut_clean(cut_before(lower, seq!['(']), seq![' ', '-', ' ']);
}

/// Every alphanumeric or whitespace character is kept by the filter of the
/// search key, whatever its script: a text made only of such characters
/// passes unchanged, and the filter of two texts one after the other is
/// the filter of the first followed by that of the second.
pub proof fn law_alphanumerics_are_kept(s: Seq<char>, a: Seq<char>, b: Seq<char>)
    ensures
        (forall|i: int| 0 <= i < s.len() ==> alphanumeric(#[trigger] s[i]) || is_white(s[i])) ==> keep_word_chars(s)
            == s,
        keep_word_chars(a + b) == keep_word_chars(a) + keep_word_chars(b),
    decreases s.len() + b.len(),
{
    if s.len() > 0 {
        law_alphanumerics_are_kept(s.drop_last(), a, Seq::empty());
        if forall|i: int| 0 <= i < s.len() ==> alphanumeric(#[trigger] s[i]) || is_white(s[i]) {
            let u = s.drop_last();
            assert forall|i: int| 0 <= i < u.len() implies alphanumeric(#[trigger] u[i]) || is_white(u[i]) by {
                assert(u[i] == s[i]);
            }
            assert(alphanumeric(s[s.len() - 1]) || is_white(s[s.len() - 1]));
            assert(u.push(s.last()) =~= s);
        }
    }
    if b.len() == 0 {
        assert(a + b =~= a);
        assert(keep_word_chars(a) + keep_word_chars(b) =~= keep_word_chars(a));
    } else {
        law_alphanumerics_are_kept(Seq::empty(), a, b.drop_last());
        assert((a + b).drop_last() =~= a + b.drop_last());
        assert((a + b).last() == b.last());
        if is_word_char(b.last()) {
            assert(keep_word_chars(a) + keep_word_chars(b.drop_last()).push(b.last()) =~= (keep_word_chars(a)
                + keep_word_chars(b.drop_last())).push(b.last()));
        }
    }
}

proof fn lemma_one_word(t: Seq<char>)
    requires
        t.len() > 0,
        forall|i: int| 0 <= i < t.len() ==> !is_white(#[trigger] t[i]),
    ensures
        words(t) == seq![t],
    decreases t.len(),
{
    let c = t.last();
    assert(!is_white(t[t.len() - 1]));
    if t.len() == 1 {
        assert(words(t.drop_last()) =~= Seq::<Seq<char>>::empty());
        assert(seq![c] =~= t);
    } else {
        let u = t.drop_last();
        assert forall|i: int| 0 <= i < u.len() implies !is_white(#[trigger] u[i]) by {
            assert(u[i] == t[i]);
        }
        lemma_one_word(u);
        assert(!is_white(t[t.len() - 2]));
        assert(u.push(c) =~= t);
        assert(seq![u].update(0, u.push(c)) =~= seq![t]);
    }
}

/// A title whose lowercased decomposition, without combining marks, is one
/// word of alphanumeric characters (of any script) has that word as its
/// search key: no letter of it is dropped.
pub proof fn law_one_word_title_is_kept(s: Seq<char>)
    requires
        lowercase(strip_marks(nfd_form(s))).len() > 0,
        forall|i: int|
            0 <= i < lowercase(strip_marks(nfd_form(s))).len() ==> alphanumeric(
                #[trigger] lowercase(strip_marks(nfd_form(s)))[i],
            ) && !is_white(lowercase(strip_marks(nfd_form(s)))[i]) && lowercase(strip_marks(nfd_form(s)))[i]
                != '(',
    ensures
        normalized(s) == lowercase(strip_marks(nfd_form(s))),
{
    let t = lowercase(strip_marks(nfd_form(s)));
    law_alphanumerics_are_kept(t, Seq::empty(), Seq::empty());
    assert(keep_word_chars(t) == t);
    lemma_one_word(t);
    assert(join_seqs(seq![t], seq![' ']) == t);
    lemma_absent_char_no_match(t, seq!['('], 0, 0);
    assert(is_white(' '));
    assert forall|k: int| 0 <= k < t.len() implies #[trigger] t[k] != seq![' ', '-', ' '][0] by {
        assert(!is_white(t[k]));
    }
    lemma_absent_char_no_match(t, seq![' ', '-', ' '], 0, 0);
}

} // verus!
