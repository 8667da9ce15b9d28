//! Small text utilities over `str` and `String`, each with an exact contract
//! over the character sequences involved.
use vstd::prelude::*;

verus! {

/// The views of a list of strings.
pub open spec fn views(v: Seq<String>) -> Seq<Seq<char>> {
    v.map_values(|s: String| s@)
}

/// `parts` joined with `sep` between each neighbouring pair.
pub open spec fn join_spec(parts: Seq<Seq<char>>, sep: Seq<char>) -> Seq<char>
    decreases parts.len(),
{
    if parts.len() == 0 {
        Seq::empty()
    } else if parts.len() == 1 {
        parts[0]
    } else {
        join_spec(parts.drop_last(), sep) + sep + parts.last()
    }
}

/// `parts` concatenated without a separator.
pub open spec fn concat_spec(parts: Seq<Seq<char>>) -> Seq<char>
    decreases parts.len(),
{
    if parts.len() == 0 {
        Seq::empty()
    } else {
        concat_spec(parts.drop_last()) + parts.last()
    }
}

/// Whether `p` is a prefix of `s`.
pub open spec fn has_prefix(s: Seq<char>, p: Seq<char>) -> bool {
    p.len() <= s.len() && s.subrange(0, p.len() as int) == p
}

/// Whether `p` is a suffix of `s`.
pub open spec fn has_suffix(s: Seq<char>, p: Seq<char>) -> bool {
    p.len() <= s.len() && s.subrange(s.len() - p.len(), s.len() as int) == p
}

/// Whether some entry of `v` equals `s`.
pub open spec fn seq_has(v: Seq<Seq<char>>, s: Seq<char>) -> bool {
    exists|i: int| 0 <= i < v.len() && #[trigger] v[i] == s
}

/// Whether some entry of `v` is a prefix of `s`.
pub open spec fn any_prefix(v: Seq<Seq<char>>, s: Seq<char>) -> bool {
    exists|i: int| 0 <= i < v.len() && has_prefix(s, #[trigger] v[i])
}

/// Whether some entry of `v` is a suffix of `s`.
pub open spec fn any_suffix(v: Seq<Seq<char>>, s: Seq<char>) -> bool {
    exists|i: int| 0 <= i < v.len() && has_suffix(s, #[trigger] v[i])
}

/// Character-wise equality of two strings.
pub fn str_eq(a: &str, b: &str) -> (r: bool)
    ensures
        r == (a@ == b@),
{
    let n = a.unicode_len();
    let m = b.unicode_len();
    if n != m {
        return false;
    }
    let mut i: usize = 0;
    while i < n
        invariant
            n == a@.len(),
            m == b@.len(),
            n == m,
            i <= n,
            a@.subrange(0, i as int) == b@.subrange(0, i as int),
        decreases n - i,
    {
        if a.get_char(i) != b.get_char(i) {
            assert(a@[i as int] != b@[i as int]);
            return false;
        }
        assert(a@.subrange(0, i + 1) =~= a@.subrange(0, i as int).push(a@[i as int]));
        assert(b@.subrange(0, i + 1) =~= b@.subrange(0, i as int).push(b@[i as int]));
        i = i + 1;
    }
    assert(a@ =~= a@.subrange(0, n as int));
    assert(b@ =~= b@.subrange(0, n as int));
    true
}

/// Whether `p` is a prefix of `s`.
pub fn starts_with(s: &str, p: &str) -> (r: bool)
    ensures
        r == has_prefix(s@, p@),
{
    let n = s.unicode_len();
    let k = p.unicode_len();
    if k > n {
        return false;
    }
    let head = s.substring_char(0, k);
    str_eq(head, p)
}

/// Whether `p` is a suffix of `s`.
pub fn ends_with(s: &str, p: &str) -> (r: bool)
    ensures
        r == has_suffix(s@, p@),
{
    let n = s.unicode_len();
    let k = p.unicode_len();
    if k > n {
        return false;
    }
    let tail = s.substring_char(n - k, n);
    str_eq(tail, p)
}

/// Whether some entry of `v` equals `s`.
pub fn contains_str(v: &Vec<String>, s: &str) -> (r: bool)
    ensures
        r == seq_has(views(v@), s@),
{
    let mut i: usize = 0;
    while i < v.len()
        invariant
            i <= v@.len(),
            forall|j: int| 0 <= j < i ==> v@[j]@ != s@,
        decreases v@.len() - i,
    {
        if str_eq(v[i].as_str(), s) {
            assert(views(v@)[i as int] == s@);
            return true;
        }
        i = i + 1;
    }
    assert forall|j: int| 0 <= j < views(v@).len() implies views(v@)[j] != s@ by {
        assert(views(v@)[j] == v@[j]@);
    }
    false
}

/// Whether some entry of `v` is a prefix of `s`.
pub fn any_starts(v: &Vec<String>, s: &str) -> (r: bool)
    ensures
        r == any_prefix(views(v@), s@),
{
    let mut i: usize = 0;
    while i < v.len()
        invariant
            i <= v@.len(),
            forall|j: int| 0 <= j < i ==> !has_prefix(s@, #[trigger] v@[j]@),
        decreases v@.len() - i,
    {
        if starts_with(s, v[i].as_str()) {
            assert(views(v@)[i as int] == v@[i as int]@);
            return true;
        }
        i = i + 1;
    }
    assert forall|j: int| 0 <= j < views(v@).len() implies !has_prefix(s@, #[trigger] views(v@)[j]) by {
        assert(views(v@)[j] == v@[j]@);
    }
    false
}

/// Whether some entry of `v` is a suffix of `s`.
pub fn any_ends(v: &Vec<String>, s: &str) -> (r: bool)
    ensures
        r == any_suffix(views(v@), s@),
{
    let mut i: usize = 0;
    while i < v.len()
        invariant
            i <= v@.len(),
            forall|j: int| 0 <= j < i ==> !has_suffix(s@, #[trigger] v@[j]@),
        decreases v@.len() - i,
    {
        if ends_with(s, v[i].as_str()) {
            assert(views(v@)[i as int] == v@[i as int]@);
            return true;
        }
        i = i + 1;
    }
    assert forall|j: int| 0 <= j < views(v@).len() implies !has_suffix(s@, #[trigger] views(v@)[j]) by {
        assert(views(v@)[j] == v@[j]@);
    }
    false
}

/// `parts` joined with `sep` between neighbours.
pub fn join(parts: &Vec<String>, sep: &str) -> (r: String)
    ensures
        r@ == join_spec(views(parts@), sep@),
{
    let mut out = String::new();
    let mut i: usize = 0;
    while i < parts.len()
        invariant
            i <= parts@.len(),
            out@ == join_spec(views(parts@).subrange(0, i as int), sep@),
        decreases parts@.len() - i,
    {
        let ghost before = views(parts@).subrange(0, i as int);
        let ghost after = views(parts@).subrange(0, i + 1);
        assert(after.drop_last() =~= before);
        assert(after.last() == parts@[i as int]@);
        if i > 0 {
            out.append(sep);
        } else {
            assert(out@ =~= Seq::<char>::empty());
        }
        out.append(parts[i].as_str());
        if i == 0 {
            assert(out@ =~= after[0]);
        }
        i = i + 1;
    }
    assert(views(parts@).subrange(0, parts@.len() as int) =~= views(parts@));
    out
}

/// `parts` concatenated.
pub fn concat(parts: &Vec<String>) -> (r: String)
    ensures
        r@ == concat_spec(views(parts@)),
{
    let mut out = String::new();
    let mut i: usize = 0;
    while i < parts.len()
        invariant
            i <= parts@.len(),
            out@ == concat_spec(views(parts@).subrange(0, i as int)),
        decreases parts@.len() - i,
    {
        let ghost before = views(parts@).subrange(0, i as int);
        let ghost after = views(parts@).subrange(0, i + 1);
        assert(after.drop_last() =~= before);
        out.append(parts[i].as_str());
        i = i + 1;
    }
    assert(views(parts@).subrange(0, parts@.len() as int) =~= views(parts@));
    out
}


/// `p` occurs in `s` as a contiguous piece.
pub open spec fn occurs_in(s: Seq<char>, p: Seq<char>) -> bool {
    exists|k: int| 0 <= k && k + p.len() <= s.len() && #[trigger] s.subrange(k, k + p.len()) == p
}

/// A text occurs in itself.
pub proof fn lemma_occurs_self(p: Seq<char>)
    ensures
        occurs_in(p, p),
{
    let k: int = 0;
    assert(p.subrange(k, k + p.len()) =~= p);
}

/// What occurs in `a` occurs in `a + b`.
pub proof fn lemma_occurs_left(a: Seq<char>, b: Seq<char>, p: Seq<char>)
    requires
        occurs_in(a, p),
    ensures
        occurs_in(a + b, p),
{
    let k = choose|k: int| 0 <= k && k + p.len() <= a.len() && #[trigger] a.subrange(k, k + p.len()) == p;
    assert((a + b).subrange(k, k + p.len()) =~= a.subrange(k, k + p.len()));
}

/// What occurs in `b` occurs in `a + b`.
pub proof fn lemma_occurs_right(a: Seq<char>, b: Seq<char>, p: Seq<char>)
    requires
        occurs_in(b, p),
    ensures
        occurs_in(a + b, p),
{
    let k = choose|k: int| 0 <= k && k + p.len() <= b.len() && #[trigger] b.subrange(k, k + p.len()) == p;
    assert((a + b).subrange(k + a.len(), k + a.len() + p.len()) =~= b.subrange(k, k + p.len()));
}

/// Each part occurs in the parts joined.
pub proof fn lemma_occurs_in_join(parts: Seq<Seq<char>>, sep: Seq<char>, i: int)
    requires
        0 <= i < parts.len(),
    ensures
        occurs_in(join_spec(parts, sep), parts[i]),
    decreases parts.len(),
{
    if parts.len() == 1 {
        lemma_occurs_self(parts[0]);
    } else if i == parts.len() - 1 {
        lemma_occurs_self(parts.last());
        lemma_occurs_right(join_spec(parts.drop_last(), sep) + sep, parts.last(), parts[i]);
    } else {
        lemma_occurs_in_join(parts.drop_last(), sep, i);
        assert(parts.drop_last()[i] == parts[i]);
        lemma_occurs_left(join_spec(parts.drop_last(), sep), sep, parts[i]);
        lemma_occurs_left(join_spec(parts.drop_last(), sep) + sep, parts.last(), parts[i]);
    }
}


/// A text occurs between two others.
pub proof fn lemma_occurs_between(a: Seq<char>, m: Seq<char>, b: Seq<char>)
    ensures
        occurs_in(a + m + b, m),
{
    lemma_occurs_self(m);
    lemma_occurs_right(a, m, m);
    lemma_occurs_left(a + m, b, m);
}

/// What occurs in a piece of `s` occurs in `s`.
pub proof fn lemma_occurs_trans(s: Seq<char>, p: Seq<char>, q: Seq<char>)
    requires
        occurs_in(s, p),
        occurs_in(p, q),
    ensures
        occurs_in(s, q),
{
    let k1 = choose|k: int| 0 <= k && k + p.len() <= s.len() && #[trigger] s.subrange(k, k + p.len()) == p;
    let k2 = choose|k: int| 0 <= k && k + q.len() <= p.len() && #[trigger] p.subrange(k, k + q.len()) == q;
    assert(s.subrange(k1 + k2, k1 + k2 + q.len()) =~= p.subrange(k2, k2 + q.len()));
}

} // verus!
