use vstd::prelude::*;

verus! {

/// Whether `a` and `b` hold the same characters.
pub fn same_text(a: &str, b: &str) -> (r: bool)
    ensures
        r == (a@ == b@),
{
    let la = a.unicode_len();
    let lb = b.unicode_len();
    if la != lb {
        return false;
    }
    let mut i: usize = 0;
    while i < la
        invariant
            la == a@.len(),
            lb == b@.len(),
            la == lb,
            i <= la,
            forall|j: int| 0 <= j < i ==> a@[j] == b@[j],
        decreases la - i,
    {
        if a.get_char(i) != b.get_char(i) {
            return false;
        }
        i = i + 1;
    }
    assert(a@ =~= b@);
    true
}

/// `s` without the leading characters equal to `c`.
pub open spec fn strip_leading(s: Seq<char>, c: char) -> Seq<char>
    decreases s.len(),
{
    if s.len() > 0 && s[0] == c {
        strip_leading(s.drop_first(), c)
    } else {
        s
    }
}

/// `s` without the trailing characters equal to `c`.
pub open spec fn strip_trailing(s: Seq<char>, c: char) -> Seq<char>
    decreases s.len(),
{
    if s.len() > 0 && s[s.len() - 1] == c {
        strip_trailing(s.drop_last(), c)
    } else {
        s
    }
}

/// `s` without the characters equal to `c` at either end.
pub open spec fn strip_both(s: Seq<char>, c: char) -> Seq<char> {
    strip_trailing(strip_leading(s, c), c)
}

proof fn lemma_strip_leading_skips(s: Seq<char>, c: char, i: int)
    requires
        0 <= i <= s.len(),
        forall|j: int| 0 <= j < i ==> s[j] == c,
        i == s.len() || s[i] != c,
    ensures
        strip_leading(s, c) == s.subrange(i, s.len() as int),
    decreases i,
{
    if i == 0 {
        assert(s.subrange(0, s.len() as int) =~= s);
    } else {
        lemma_strip_leading_skips(s.drop_first(), c, i - 1);
        assert(s.drop_first().subrange(i - 1, s.len() - 1) =~= s.subrange(i, s.len() as int));
    }
}

proof fn lemma_strip_trailing_skips(s: Seq<char>, c: char, k: int)
    requires
        0 <= k <= s.len(),
        forall|j: int| k <= j < s.len() ==> s[j] == c,
        k == 0 || s[k - 1] != c,
    ensures
        strip_trailing(s, c) == s.subrange(0, k),
    decreases s.len() - k,
{
    if k == s.len() {
        assert(s.subrange(0, k) =~= s);
    } else {
        lemma_strip_trailing_skips(s.drop_last(), c, k);
        assert(s.drop_last().subrange(0, k) =~= s.subrange(0, k));
    }
}

/// Stripping `c` from a text that neither starts nor ends with `c` leaves it
/// as it is.
proof fn lemma_strip_both_fixed(s: Seq<char>, c: char)
    requires
        s.len() == 0 || (s[0] != c && s[s.len() - 1] != c),
    ensures
        strip_both(s, c) == s,
{
    assert(strip_leading(s, c) == s);
    assert(strip_trailing(s, c) == s);
}

/// `s` with every leading and trailing `c` removed (`str::trim_matches` with
/// a single character).
pub fn trim_char(s: &str, c: char) -> (r: String)
    ensures
        r@ == strip_both(s@, c),
        r@.len() == 0 || (r@[0] != c && r@[r@.len() - 1] != c),
{
    let n = s.unicode_len();
    let mut i: usize = 0;
    while i < n && s.get_char(i) == c
        invariant
            n == s@.len(),
            i <= n,
            forall|j: int| 0 <= j < i ==> s@[j] == c,
        decreases n - i,
    {
        i = i + 1;
    }
    proof {
        lemma_strip_leading_skips(s@, c, i as int);
    }
    let ghost lead = s@.subrange(i as int, n as int);
    let mut k: usize = n;
    while k > i && s.get_char(k - 1) == c
        invariant
            n == s@.len(),
            i <= k <= n,
            lead == s@.subrange(i as int, n as int),
            forall|j: int| k <= j < n ==> s@[j] == c,
        decreases k,
    {
        k = k - 1;
    }
    proof {
        lemma_strip_trailing_skips(lead, c, k - i);
        assert(lead.subrange(0, k - i) =~= s@.subrange(i as int, k as int));
    }
    let r = s.substring_char(i, k).to_owned();
    r
}

proof fn lemma_strip_leading_result(s: Seq<char>, c: char)
    ensures
        strip_leading(s, c).len() <= s.len(),
        strip_leading(s, c) == s.subrange(s.len() - strip_leading(s, c).len(), s.len() as int),
        strip_leading(s, c).len() == 0 || strip_leading(s, c)[0] != c,
    decreases s.len(),
{
    if s.len() > 0 && s[0] == c {
        lemma_strip_leading_result(s.drop_first(), c);
        let r = strip_leading(s, c);
        assert(s.drop_first().subrange(s.len() - 1 - r.len(), s.len() - 1) =~= s.subrange(
            s.len() - r.len(),
            s.len() as int,
        ));
    } else {
        assert(s.subrange(0, s.len() as int) =~= s);
    }
}

proof fn lemma_strip_trailing_result(s: Seq<char>, c: char)
    ensures
        strip_trailing(s, c).len() <= s.len(),
        strip_trailing(s, c) == s.subrange(0, strip_trailing(s, c).len() as int),
        strip_trailing(s, c).len() == 0 || strip_trailing(s, c)[strip_trailing(s, c).len() - 1] != c,
    decreases s.len(),
{
    if s.len() > 0 && s[s.len() - 1] == c {
        lemma_strip_trailing_result(s.drop_last(), c);
        let r = strip_trailing(s, c);
        assert(s.drop_last().subrange(0, r.len() as int) =~= s.subrange(0, r.len() as int));
    } else {
        assert(s.subrange(0, s.len() as int) =~= s);
    }
}

/// Trimming a character is idempotent: trimming the result again changes
/// nothing.
pub proof fn law_trim_idempotent(s: Seq<char>, c: char)
    ensures
        strip_both(strip_both(s, c), c) == strip_both(s, c),
{
    let u = strip_leading(s, c);
    let t = strip_both(s, c);
    lemma_strip_leading_result(s, c);
    lemma_strip_trailing_result(u, c);
    if t.len() > 0 {
        assert(t[0] == u[0]);
    }
    lemma_strip_both_fixed(t, c);
}

} // verus!
