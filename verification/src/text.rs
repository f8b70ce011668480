use vstd::prelude::*;

verus! {

/// The whitespace characters on which interactive lines are trimmed and
/// meta-command tails are split.
pub open spec fn is_space(c: char) -> bool {
    c == ' ' || c == '\t' || c == '\n' || c == '\r' || c == '\u{c}'
}

fn is_space_exec(c: char) -> (r: bool)
    ensures
        r == is_space(c),
{
    c == ' ' || c == '\t' || c == '\n' || c == '\r' || c == '\u{c}'
}

/// The sequence with its leading whitespace removed.
pub open spec fn trim_start(s: Seq<char>) -> Seq<char>
    decreases s.len(),
{
    if s.len() > 0 && is_space(s[0]) {
        trim_start(s.drop_first())
    } else {
        s
    }
}

/// The sequence with its trailing whitespace removed.
pub open spec fn trim_end(s: Seq<char>) -> Seq<char>
    decreases s.len(),
{
    if s.len() > 0 && is_space(s.last()) {
        trim_end(s.drop_last())
    } else {
        s
    }
}

/// The sequence with whitespace removed from both ends.
pub open spec fn spec_trim(s: Seq<char>) -> Seq<char> {
    trim_end(trim_start(s))
}

proof fn lemma_trim_start_at(s: Seq<char>, k: int)
    requires
        0 <= k <= s.len(),
        forall|i: int| 0 <= i < k ==> is_space(s[i]),
        k == s.len() || !is_space(s[k]),
    ensures
        trim_start(s) == s.subrange(k, s.len() as int),
    decreases k,
{
    if k == 0 {
        assert(s =~= s.subrange(0, s.len() as int));
    } else {
        assert(is_space(s[0]));
        let rest = s.drop_first();
        assert(forall|i: int| 0 <= i < k - 1 ==> is_space(rest[i]));
        lemma_trim_start_at(rest, k - 1);
        assert(rest.subrange(k - 1, rest.len() as int) =~= s.subrange(k, s.len() as int));
    }
}

proof fn lemma_trim_end_at(s: Seq<char>, k: int)
    requires
        0 <= k <= s.len(),
        forall|i: int| k <= i < s.len() ==> is_space(s[i]),
        k == 0 || !is_space(s[k - 1]),
    ensures
        trim_end(s) == s.subrange(0, k),
    decreases s.len(),
{
    if k == s.len() {
        assert(s =~= s.subrange(0, s.len() as int));
    } else {
        assert(is_space(s.last()));
        let rest = s.drop_last();
        assert(forall|i: int| k <= i < rest.len() ==> is_space(rest[i]));
        lemma_trim_end_at(rest, k);
        assert(rest.subrange(0, k) =~= s.subrange(0, k));
    }
}

/// Remove leading and trailing whitespace from a line.
pub fn trim_line(s: &str) -> (r: String)
    ensures
        r@ == spec_trim(s@),
{
    let n = s.unicode_len();
    let mut lo: usize = 0;
    while lo < n && is_space_exec(s.get_char(lo))
        invariant
            n == s@.len(),
            0 <= lo <= n,
            forall|i: int| 0 <= i < lo ==> is_space(s@[i]),
        decreases n - lo,
    {
        lo = lo + 1;
    }
    let mut hi: usize = n;
    while hi > lo && is_space_exec(s.get_char(hi - 1))
        invariant
            n == s@.len(),
            lo <= hi <= n,
            forall|i: int| hi <= i < n ==> is_space(s@[i]),
        decreases hi,
    {
        hi = hi - 1;
    }
    proof {
        lemma_trim_start_at(s@, lo as int);
        let t = s@.subrange(lo as int, n as int);
        assert(forall|i: int| hi - lo <= i < t.len() ==> is_space(t[i]));
        if hi > lo {
            assert(t[hi - lo - 1] == s@[hi - 1]);
        }
        lemma_trim_end_at(t, hi - lo);
        assert(t.subrange(0, hi - lo) =~= s@.subrange(lo as int, hi as int));
    }
    let r = s.substring_char(lo, hi);
    r.to_owned()
}

/// The words of a sequence: maximal runs of non-whitespace characters, in
/// order, with empty segments discarded.  `cur` is the partial word read so
/// far.
pub open spec fn split_rec(s: Seq<char>, cur: Seq<char>) -> Seq<Seq<char>>
    decreases s.len(),
{
    if s.len() == 0 {
        if cur.len() == 0 {
            Seq::empty()
        } else {
            seq![cur]
        }
    } else if is_space(s[0]) {
        if cur.len() == 0 {
            split_rec(s.drop_first(), Seq::empty())
        } else {
            seq![cur] + split_rec(s.drop_first(), Seq::empty())
        }
    } else {
        split_rec(s.drop_first(), cur.push(s[0]))
    }
}

/// The whitespace-separated words of a sequence.
pub open spec fn spec_words(s: Seq<char>) -> Seq<Seq<char>> {
    split_rec(s, Seq::empty())
}

proof fn lemma_split_take_word(rem: Seq<char>, cur: Seq<char>, j: int)
    requires
        1 <= j <= rem.len(),
        forall|i: int| 0 <= i < j ==> !is_space(rem[i]),
        j == rem.len() || is_space(rem[j]),
    ensures
        split_rec(rem, cur) == seq![cur + rem.subrange(0, j)] + split_rec(
            rem.subrange(j, rem.len() as int),
            Seq::empty(),
        ),
    decreases j,
{
    let rest = rem.drop_first();
    let cur1 = cur.push(rem[0]);
    if j == 1 {
        assert(cur1 =~= cur + rem.subrange(0, 1));
        if rest.len() == 0 {
            assert(split_rec(rem, cur) == split_rec(rest, cur1));
            assert(cur1.len() > 0);
            assert(split_rec(rest, cur1) == seq![cur1]);
            assert(rem.subrange(1, rem.len() as int) =~= rest);
            assert(seq![cur + rem.subrange(0, 1)] + split_rec(
                rem.subrange(1, rem.len() as int),
                Seq::empty(),
            ) =~= seq![cur1]);
        } else {
            assert(is_space(rest[0]));
            assert(split_rec(rem, cur) == split_rec(rest, cur1));
            assert(split_rec(rest, cur1) == seq![cur1] + split_rec(
                rest.drop_first(),
                Seq::empty(),
            ));
            assert(rem.subrange(1, rem.len() as int) =~= rest);
            assert(split_rec(rest, Seq::empty()) == split_rec(rest.drop_first(), Seq::empty()));
        }
    } else {
        assert(forall|i: int| 0 <= i < j - 1 ==> !is_space(rest[i]));
        lemma_split_take_word(rest, cur1, j - 1);
        assert(cur1 + rest.subrange(0, j - 1) =~= cur + rem.subrange(0, j));
        assert(rest.subrange(j - 1, rest.len() as int) =~= rem.subrange(j, rem.len() as int));
    }
}

/// Split a string into its whitespace-separated words.
pub fn split_words(s: &str) -> (r: Vec<String>)
    ensures
        r.deep_view() == spec_words(s@),
{
    let n = s.unicode_len();
    let mut words: Vec<String> = Vec::new();
    let mut i: usize = 0;
    proof {
        assert(s@.subrange(0, n as int) =~= s@);
        assert(words.deep_view() + spec_words(s@) =~= spec_words(s@));
    }
    while i < n
        invariant
            n == s@.len(),
            0 <= i <= n,
            words.deep_view() + spec_words(s@.subrange(i as int, n as int)) == spec_words(s@),
        decreases n - i,
    {
        let ghost rem = s@.subrange(i as int, n as int);
        proof {
            assert(rem.len() > 0 && rem[0] == s@[i as int]);
        }
        let c = s.get_char(i);
        if is_space_exec(c) {
            proof {
                assert(rem.drop_first() =~= s@.subrange(i as int + 1, n as int));
            }
            i = i + 1;
        } else {
            let mut j: usize = i + 1;
            while j < n && !is_space_exec(s.get_char(j))
                invariant
                    n == s@.len(),
                    i < j <= n,
                    forall|k: int| i <= k < j ==> !is_space(s@[k]),
                decreases n - j,
            {
                j = j + 1;
            }
            let w = s.substring_char(i, j).to_owned();
            let ghost old_words = words.deep_view();
            proof {
                assert(forall|k: int| 0 <= k < j - i ==> !is_space(rem[k]));
                if j < n {
                    assert(rem[j - i] == s@[j as int]);
                }
                lemma_split_take_word(rem, Seq::empty(), j - i);
                assert(Seq::empty() + rem.subrange(0, j - i) =~= w@);
                assert(rem.subrange(j - i, rem.len() as int) =~= s@.subrange(
                    j as int,
                    n as int,
                ));
            }
            words.push(w);
            proof {
                assert(words.deep_view() =~= old_words + seq![w@]);
                assert((old_words + seq![w@]) + spec_words(s@.subrange(j as int, n as int))
                    =~= old_words + (seq![w@] + spec_words(s@.subrange(j as int, n as int))));
            }
            i = j;
        }
    }
    proof {
        assert(s@.subrange(n as int, n as int) =~= Seq::<char>::empty());
        assert(words.deep_view() + Seq::<Seq<char>>::empty() =~= words.deep_view());
    }
    words
}

} // verus!
