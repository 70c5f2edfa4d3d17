use vstd::prelude::*;

verus! {

/// `needle` occurs in `hay` starting at position `i`.
pub open spec fn occurs_at(hay: Seq<char>, needle: Seq<char>, i: int) -> bool {
    0 <= i && i + needle.len() <= hay.len() && hay.subrange(i, i + needle.len()) == needle
}

/// `needle` occurs somewhere in `hay`.
pub open spec fn seq_contains(hay: Seq<char>, needle: Seq<char>) -> bool {
    exists|i: int| occurs_at(hay, needle, i)
}

/// `hay` ends with `suffix`.
pub open spec fn seq_ends_with(hay: Seq<char>, suffix: Seq<char>) -> bool {
    suffix.len() <= hay.len() && hay.subrange(hay.len() - suffix.len(), hay.len() as int) == suffix
}

/// `s` with every trailing copy of a non-empty `suffix` removed.
pub open spec fn trim_end_all(s: Seq<char>, suffix: Seq<char>) -> Seq<char>
    decreases s.len(),
{
    if suffix.len() > 0 && seq_ends_with(s, suffix) {
        trim_end_all(s.subrange(0, s.len() - suffix.len()), suffix)
    } else {
        s
    }
}

/// `a` comes strictly before `b` in lexicographic order of code points.
pub open spec fn seq_less(a: Seq<char>, b: Seq<char>) -> bool
    decreases a.len(),
{
    if b.len() == 0 {
        false
    } else if a.len() == 0 {
        true
    } else if (a[0] as int) < (b[0] as int) {
        true
    } else if (a[0] as int) > (b[0] as int) {
        false
    } else {
        seq_less(a.drop_first(), b.drop_first())
    }
}

/// No sequence comes before itself.
pub proof fn lemma_less_irreflexive(a: Seq<char>)
    ensures
        !seq_less(a, a),
    decreases a.len(),
{
    if a.len() > 0 {
        lemma_less_irreflexive(a.drop_first());
    }
}

/// The order is transitive.
pub proof fn lemma_less_transitive(a: Seq<char>, b: Seq<char>, c: Seq<char>)
    requires
        seq_less(a, b),
        seq_less(b, c),
    ensures
        seq_less(a, c),
    decreases a.len(),
{
    if a.len() > 0 && b.len() > 0 && c.len() > 0 {
        if a[0] == b[0] && b[0] == c[0] {
            lemma_less_transitive(a.drop_first(), b.drop_first(), c.drop_first());
        }
    }
}

/// Two different sequences are ordered one way or the other.
pub proof fn lemma_less_total(a: Seq<char>, b: Seq<char>)
    requires
        a != b,
    ensures
        seq_less(a, b) || seq_less(b, a),
    decreases a.len(),
{
    if a.len() > 0 && b.len() > 0 && (a[0] as int) == (b[0] as int) {
        assert(a[0] == b[0]);
        if a.drop_first() == b.drop_first() {
            assert(a =~= seq![a[0]] + a.drop_first());
            assert(b =~= seq![b[0]] + b.drop_first());
        }
        lemma_less_total(a.drop_first(), b.drop_first());
    } else if a.len() == 0 && b.len() == 0 {
        assert(a =~= b);
    }
}

/// The character sequences of a list of strings.
pub open spec fn views(v: Seq<String>) -> Seq<Seq<char>> {
    v.map_values(|s: String| s@)
}

/// Each sequence comes strictly before the next: sorted, without repeats.
pub open spec fn strictly_sorted(s: Seq<Seq<char>>) -> bool {
    forall|i: int, j: int| 0 <= i < j < s.len() ==> seq_less(#[trigger] s[i], #[trigger] s[j])
}

/// The characters of `s`, in order.
pub fn chars_of(s: &str) -> (res: Vec<char>)
    ensures
        res@ == s@,
{
    let mut res: Vec<char> = Vec::new();
    for c in it: s.chars()
        invariant
            res@ == it.seq().take(it.index() as int),
            it.seq() == s@,
    {
        res.push(c);
    }
    res
}

/// Whether `needle` occurs in `hay` at position `i`.
fn matches_at(hay: &Vec<char>, needle: &Vec<char>, i: usize) -> (res: bool)
    requires
        i + needle@.len() <= hay@.len(),
    ensures
        res == occurs_at(hay@, needle@, i as int),
{
    let mut k: usize = 0;
    while k < needle.len()
        invariant
            i + needle@.len() <= hay@.len(),
            hay@.len() == hay.len(),
            k <= needle@.len(),
            forall|m: int| 0 <= m < k ==> hay@[i + m] == needle@[m],
        decreases needle@.len() - k,
    {
        if hay[i + k] != needle[k] {
            assert(hay@.subrange(i as int, i + needle@.len())[k as int] != needle@[k as int]);
            return false;
        }
        k = k + 1;
    }
    assert(hay@.subrange(i as int, i + needle@.len()) =~= needle@);
    true
}

/// Whether `needle` occurs in `hay`.
pub fn contains(hay: &str, needle: &str) -> (res: bool)
    ensures
        res == seq_contains(hay@, needle@),
{
    let h = chars_of(hay);
    let n = chars_of(needle);
    if n.len() == 0 {
        assert(hay@.subrange(0, 0) =~= needle@);
        assert(occurs_at(hay@, needle@, 0));
        return true;
    }
    if n.len() > h.len() {
        assert forall|i: int| !occurs_at(hay@, needle@, i) by {}
        return false;
    }
    let last = h.len() - n.len();
    let mut i: usize = 0;
    while i <= last
        invariant
            h@ == hay@,
            n@ == needle@,
            n@.len() > 0,
            h@.len() == h.len(),
            last == h@.len() - n@.len(),
            i <= last + 1,
            forall|m: int| 0 <= m < i ==> !occurs_at(hay@, needle@, m),
        decreases last + 1 - i,
    {
        if matches_at(&h, &n, i) {
            return true;
        }
        i = i + 1;
    }
    assert forall|m: int| !occurs_at(hay@, needle@, m) by {
        if 0 <= m && m + needle@.len() <= hay@.len() {
            assert(m < i);
        }
    }
    false
}

/// Whether `hay` ends with `suffix`.
pub fn ends_with(hay: &str, suffix: &str) -> (res: bool)
    ensures
        res == seq_ends_with(hay@, suffix@),
{
    let h = chars_of(hay);
    let s = chars_of(suffix);
    if s.len() > h.len() {
        return false;
    }
    let start = h.len() - s.len();
    let r = matches_at(&h, &s, start);
    assert(hay@.len() - suffix@.len() + suffix@.len() == hay@.len());
    r
}

/// `s` without its trailing `suffix`, if it ends with it.
pub fn strip_suffix(s: &str, suffix: &str) -> (res: Option<String>)
    ensures
        seq_ends_with(s@, suffix@) ==> (res matches Some(r) && r@ == s@.subrange(
            0,
            s@.len() - suffix@.len(),
        )),
        !seq_ends_with(s@, suffix@) ==> res is None,
{
    if ends_with(s, suffix) {
        let n = s.unicode_len();
        let k = suffix.unicode_len();
        Some(s.substring_char(0, n - k).to_owned())
    } else {
        None
    }
}

/// `s` with every trailing copy of `suffix` removed, as
/// `str::trim_end_matches` does for a string pattern.
pub fn trim_end_all_matches(s: &str, suffix: &str) -> (res: String)
    ensures
        res@ == trim_end_all(s@, suffix@),
{
    let n = s.unicode_len();
    let k = suffix.unicode_len();
    if k == 0 {
        return s.to_owned();
    }
    let mut end: usize = n;
    assert(s@.subrange(0, n as int) =~= s@);
    loop
        invariant
            n == s@.len(),
            k == suffix@.len(),
            k > 0,
            end <= n,
            trim_end_all(s@.subrange(0, end as int), suffix@) == trim_end_all(s@, suffix@),
        decreases end,
    {
        let prefix = s.substring_char(0, end);
        if ends_with(prefix, suffix) {
            assert(prefix@.subrange(0, prefix@.len() - suffix@.len()) =~= s@.subrange(0, end - k));
            end = end - k;
        } else {
            return prefix.to_owned();
        }
    }
}

/// Whether `a` comes strictly before `b` in lexicographic order of code
/// points.
pub fn str_less(a: &str, b: &str) -> (res: bool)
    ensures
        res == seq_less(a@, b@),
{
    let x = chars_of(a);
    let y = chars_of(b);
    let mut i: usize = 0;
    assert(a@.skip(0) =~= a@);
    assert(b@.skip(0) =~= b@);
    while i < x.len() && i < y.len()
        invariant
            x@ == a@,
            y@ == b@,
            i <= x@.len(),
            i <= y@.len(),
            seq_less(a@, b@) == seq_less(a@.skip(i as int), b@.skip(i as int)),
        decreases x@.len() - i,
    {
        let cx = x[i];
        let cy = y[i];
        if cx < cy {
            return true;
        }
        if cx > cy {
            return false;
        }
        assert(a@.skip(i as int).drop_first() =~= a@.skip(i + 1));
        assert(b@.skip(i as int).drop_first() =~= b@.skip(i + 1));
        i = i + 1;
    }
    i < y.len()
}


/// The distinct strings of `names`, sorted, as collecting them into an
/// ordered set does.
pub fn sorted_unique(names: &Vec<String>) -> (res: Vec<String>)
    ensures
        strictly_sorted(views(res@)),
        forall|i: int| 0 <= i < names@.len() ==> views(res@).contains(#[trigger] names@[i]@),
        forall|j: int| 0 <= j < res@.len() ==> views(names@).contains(#[trigger] res@[j]@),
{
    let mut res: Vec<String> = Vec::new();
    let mut i: usize = 0;
    while i < names.len()
        invariant
            i <= names@.len(),
            strictly_sorted(views(res@)),
            forall|m: int| 0 <= m < i ==> views(res@).contains(#[trigger] names@[m]@),
            forall|j: int| 0 <= j < res@.len() ==> views(names@).contains(#[trigger] res@[j]@),
        decreases names@.len() - i,
    {
        let x = &names[i];
        // first position whose entry is not before x
        let mut p: usize = 0;
        while p < res.len() && str_less(res[p].as_str(), x.as_str())
            invariant
                p <= res@.len(),
                forall|k: int| 0 <= k < p ==> seq_less(#[trigger] res@[k]@, x@),
            decreases res@.len() - p,
        {
            p = p + 1;
        }
        let ghost old_res = res@;
        assert(views(names@)[i as int] == x@);
        if p < res.len() && res[p] == *x {
            assert(views(res@)[p as int] == x@);
        } else {
            proof {
                if p < res@.len() {
                    assert(!seq_less(res@[p as int]@, x@));
                    lemma_less_total(res@[p as int]@, x@);
                    assert forall|k: int| p <= k < old_res.len() implies seq_less(x@, #[trigger] old_res[k]@) by {
                        if k > p {
                            assert(views(old_res)[p as int] == old_res[p as int]@);
                            assert(views(old_res)[k] == old_res[k]@);
                            lemma_less_transitive(x@, old_res[p as int]@, old_res[k]@);
                        }
                    }
                }
            }
            res.insert(p, x.clone());
            assert forall|a: int, b: int| 0 <= a < b < res@.len() implies seq_less(
                #[trigger] views(res@)[a],
                #[trigger] views(res@)[b],
            ) by {
                if b < p {
                    assert(views(old_res)[a] == res@[a]@);
                    assert(views(old_res)[b] == res@[b]@);
                } else if a < p && b == p {
                } else if a < p {
                    assert(res@[b]@ == old_res[b - 1]@);
                    lemma_less_transitive(res@[a]@, x@, res@[b]@);
                } else if a == p {
                    assert(res@[b]@ == old_res[b - 1]@);
                } else {
                    assert(views(old_res)[a - 1] == res@[a]@);
                    assert(views(old_res)[b - 1] == res@[b]@);
                }
            }
            assert forall|m: int| 0 <= m <= i implies views(res@).contains(#[trigger] names@[m]@) by {
                if m < i {
                    let k = choose|k: int| 0 <= k < old_res.len() && views(old_res)[k] == names@[m]@;
                    if k < p {
                        assert(views(res@)[k] == names@[m]@);
                    } else {
                        assert(views(res@)[k + 1] == names@[m]@);
                    }
                } else {
                    assert(views(res@)[p as int] == names@[m]@);
                }
            }
            assert forall|j: int| 0 <= j < res@.len() implies views(names@).contains(#[trigger] res@[j]@) by {
                if j < p {
                    assert(res@[j] == old_res[j]);
                } else if j > p {
                    assert(res@[j] == old_res[j - 1]);
                }
            }
        }
        i = i + 1;
    }
    res
}

} // verus!
