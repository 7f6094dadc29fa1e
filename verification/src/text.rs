//! Extracting the first line of command output.
//!
//! Lookup utilities print one candidate path per line, possibly surrounded by
//! whitespace and terminated by a platform line ending. Resolution keeps only
//! the first line of the trimmed output.

use vstd::prelude::*;

verus! {

/// The whitespace characters stripped from the ends of command output.
pub open spec fn is_ws_char(c: char) -> bool {
    c == ' ' || c == '\t' || c == '\r' || c == '\n'
}

/// `s` with leading whitespace removed.
pub open spec fn trim_front(s: Seq<char>) -> Seq<char>
    decreases s.len(),
{
    if s.len() > 0 && is_ws_char(s[0]) {
        trim_front(s.drop_first())
    } else {
        s
    }
}

/// `s` with trailing whitespace removed.
pub open spec fn trim_back(s: Seq<char>) -> Seq<char>
    decreases s.len(),
{
    if s.len() > 0 && is_ws_char(s.last()) {
        trim_back(s.drop_last())
    } else {
        s
    }
}

/// Length of the prefix of `s` that precedes its first line feed.
pub open spec fn line_break_pos(s: Seq<char>) -> int
    decreases s.len(),
{
    if s.len() == 0 {
        0
    } else if s[0] == '\n' {
        0
    } else {
        1 + line_break_pos(s.drop_first())
    }
}

/// The prefix of `s` before its first line feed (all of `s` if there is none).
pub open spec fn before_newline(s: Seq<char>) -> Seq<char> {
    s.subrange(0, line_break_pos(s))
}

/// `s` without a single trailing carriage return, if one is present.
pub open spec fn drop_trailing_cr(s: Seq<char>) -> Seq<char> {
    if s.len() > 0 && s.last() == '\r' {
        s.drop_last()
    } else {
        s
    }
}

/// The first line of `s` after trimming surrounding whitespace: trim both
/// ends, cut at the first remaining line feed, and drop a carriage return
/// left at the cut.
pub open spec fn first_line_of(s: Seq<char>) -> Seq<char> {
    drop_trailing_cr(before_newline(trim_back(trim_front(s))))
}

/// `trim_front` removes exactly the maximal whitespace prefix.
proof fn lemma_trim_front_subrange(s: Seq<char>, k: int)
    requires
        0 <= k <= s.len(),
        forall|j: int| 0 <= j < k ==> is_ws_char(s[j]),
        k == s.len() || !is_ws_char(s[k]),
    ensures
        trim_front(s) == s.subrange(k, s.len() as int),
    decreases k,
{
    if k == 0 {
        assert(s.subrange(0, s.len() as int) =~= s);
    } else {
        let t = s.drop_first();
        assert(t =~= s.subrange(1, s.len() as int));
        assert(forall|j: int| 0 <= j < k - 1 ==> is_ws_char(t[j]));
        lemma_trim_front_subrange(t, k - 1);
        assert(t.subrange(k - 1, t.len() as int) =~= s.subrange(k, s.len() as int));
    }
}

/// `trim_back` removes exactly the maximal whitespace suffix.
proof fn lemma_trim_back_subrange(s: Seq<char>, k: int)
    requires
        0 <= k <= s.len(),
        forall|j: int| k <= j < s.len() ==> is_ws_char(s[j]),
        k == 0 || !is_ws_char(s[k - 1]),
    ensures
        trim_back(s) == s.subrange(0, k),
    decreases s.len(),
{
    if k == s.len() {
        assert(s.subrange(0, k) =~= s);
    } else {
        let t = s.drop_last();
        assert(t =~= s.subrange(0, s.len() - 1));
        lemma_trim_back_subrange(t, k);
        assert(t.subrange(0, k) =~= s.subrange(0, k));
    }
}

/// `line_break_pos` is the index of the first line feed, or the length.
proof fn lemma_line_break_pos(s: Seq<char>, k: int)
    requires
        0 <= k <= s.len(),
        forall|j: int| 0 <= j < k ==> s[j] != '\n',
        k == s.len() || s[k] == '\n',
    ensures
        line_break_pos(s) == k,
    decreases k,
{
    if k == 0 {
    } else {
        let t = s.drop_first();
        assert(forall|j: int| 0 <= j < k - 1 ==> t[j] != '\n');
        lemma_line_break_pos(t, k - 1);
    }
}

/// Whether `c` is one of the whitespace characters of `is_ws_char`.
pub fn is_ws(c: char) -> (r: bool)
    ensures
        r == is_ws_char(c),
{
    c == ' ' || c == '\t' || c == '\r' || c == '\n'
}

/// First line of `s` after trimming whitespace from both ends, as
/// `first_line_of` describes.
pub fn first_line_trimmed(s: &str) -> (r: String)
    ensures
        r@ == first_line_of(s@),
{
    let n = s.unicode_len();
    let mut start: usize = 0;
    while start < n && is_ws(s.get_char(start))
        invariant
            0 <= start <= n,
            n == s@.len(),
            forall|j: int| 0 <= j < start ==> is_ws_char(s@[j]),
        decreases n - start,
    {
        start = start + 1;
    }
    proof {
        lemma_trim_front_subrange(s@, start as int);
    }
    let ghost t1 = s@.subrange(start as int, n as int);
    if start == n {
        proof {
            assert(t1.len() == 0);
            assert(trim_back(t1) == t1);
            assert(before_newline(t1) =~= Seq::<char>::empty());
            assert(first_line_of(s@) =~= Seq::<char>::empty());
        }
        let r = String::new();
        return r;
    }
    let mut end: usize = n;
    while end > start && is_ws(s.get_char(end - 1))
        invariant
            start <= end <= n,
            n == s@.len(),
            forall|j: int| end <= j < n ==> is_ws_char(s@[j]),
        decreases end,
    {
        end = end - 1;
    }
    proof {
        assert(!is_ws_char(s@[start as int]));
        assert(end > start);
        lemma_trim_back_subrange(t1, end - start);
        assert(t1.subrange(0, end - start) =~= s@.subrange(start as int, end as int));
    }
    let ghost t2 = s@.subrange(start as int, end as int);
    let mut cut: usize = start;
    while cut < end && s.get_char(cut) != '\n'
        invariant
            start <= cut <= end <= n,
            n == s@.len(),
            forall|j: int| start <= j < cut ==> s@[j] != '\n',
        decreases end - cut,
    {
        cut = cut + 1;
    }
    proof {
        assert(forall|j: int| 0 <= j < cut - start ==> t2[j] != '\n');
        assert(cut < end ==> t2[cut - start] == '\n');
        lemma_line_break_pos(t2, cut - start);
        assert(before_newline(t2) =~= s@.subrange(start as int, cut as int));
    }
    let line_end: usize = if cut > start && s.get_char(cut - 1) == '\r' && cut < end {
        cut - 1
    } else {
        cut
    };
    proof {
        let bn = before_newline(t2);
        if cut > start && s@[cut - 1] == '\r' && cut < end {
            assert(bn.len() > 0 && bn.last() == '\r');
            assert(drop_trailing_cr(bn) =~= s@.subrange(start as int, line_end as int));
        } else {
            if bn.len() > 0 && bn.last() == '\r' {
                // A trailing carriage return in the cut line can only stand
                // before a line feed; at the very end it would have been
                // trimmed as whitespace.
                assert(s@[cut - 1] == '\r');
                assert(cut < end || is_ws_char(s@[cut - 1]));
                assert(false);
            }
            assert(drop_trailing_cr(bn) =~= s@.subrange(start as int, line_end as int));
        }
    }
    let part = s.substring_char(start, line_end);
    let r = part.to_owned();
    proof {
        assert(r@ =~= first_line_of(s@));
    }
    r
}

} // verus!
