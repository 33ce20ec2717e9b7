use vstd::prelude::*;

verus! {

/// Lexicographic strict order on integer sequences, a proper prefix coming first
/// (the order of tuples of integers, and of strings by their code points).
pub open spec fn lex_lt(a: Seq<int>, b: Seq<int>) -> bool
    decreases a.len(),
{
    if b.len() == 0 {
        false
    } else if a.len() == 0 {
        true
    } else if a[0] != b[0] {
        a[0] < b[0]
    } else {
        lex_lt(a.drop_first(), b.drop_first())
    }
}

/// The integers of an exec key.
pub open spec fn key_of(k: Seq<i128>) -> Seq<int> {
    k.map_values(|x: i128| x as int)
}

/// Position at which a stable insertion puts an element of key `k`: just before the first
/// element whose key is greater.
pub open spec fn insert_pos<T>(s: Seq<(Seq<int>, T)>, k: Seq<int>) -> int
    decreases s.len(),
{
    if s.len() == 0 {
        0
    } else if lex_lt(k, s[0].0) {
        0
    } else {
        1 + insert_pos(s.drop_first(), k)
    }
}

/// The stable sort of keyed elements: elements in increasing key order, elements of equal
/// keys in their original order.
pub open spec fn stable_sort<T>(s: Seq<(Seq<int>, T)>) -> Seq<(Seq<int>, T)>
    decreases s.len(),
{
    if s.len() == 0 {
        s
    } else {
        let r = stable_sort(s.drop_last());
        r.insert(insert_pos(r, s.last().0), s.last())
    }
}

/// The elements of keyed pairs.
pub open spec fn elems<T>(s: Seq<(Seq<int>, T)>) -> Seq<T> {
    s.map_values(|p: (Seq<int>, T)| p.1)
}

/// Keyed pairs with `f` applied to the elements.
pub open spec fn map_elems<A, B>(s: Seq<(Seq<int>, A)>, f: spec_fn(A) -> B) -> Seq<(Seq<int>, B)> {
    s.map_values(|p: (Seq<int>, A)| (p.0, f(p.1)))
}

proof fn lemma_insert_pos_map<A, B>(s: Seq<(Seq<int>, A)>, f: spec_fn(A) -> B, k: Seq<int>)
    ensures
        insert_pos(map_elems(s, f), k) == insert_pos(s, k),
        0 <= insert_pos(s, k) <= s.len(),
    decreases s.len(),
{
    if s.len() > 0 {
        assert(map_elems(s, f).drop_first() =~= map_elems(s.drop_first(), f));
        lemma_insert_pos_map(s.drop_first(), f, k);
    }
}

/// Sorting does not look at the elements, only at the keys: mapping the elements before or
/// after sorting gives the same.
pub proof fn lemma_sort_map<A, B>(s: Seq<(Seq<int>, A)>, f: spec_fn(A) -> B)
    ensures
        stable_sort(map_elems(s, f)) == map_elems(stable_sort(s), f),
        stable_sort(s).len() == s.len(),
    decreases s.len(),
{
    if s.len() > 0 {
        let m = map_elems(s, f);
        assert(m.drop_last() =~= map_elems(s.drop_last(), f));
        lemma_sort_map(s.drop_last(), f);
        let r = stable_sort(s.drop_last());
        lemma_insert_pos_map(r, f, s.last().0);
        assert(stable_sort(m) =~= map_elems(r.insert(insert_pos(r, s.last().0), s.last()), f));
    }
}

/// Lexicographic comparison of two exec keys.
pub fn key_lt(a: &Vec<i128>, b: &Vec<i128>) -> (r: bool)
    ensures
        r == lex_lt(key_of(a@), key_of(b@)),
{
    let mut i: usize = 0;
    assert(key_of(a@).skip(0) =~= key_of(a@));
    assert(key_of(b@).skip(0) =~= key_of(b@));
    while i < a.len() && i < b.len()
        invariant
            0 <= i <= a.len(),
            i <= b.len(),
            forall|j: int| 0 <= j < i ==> a@[j] == b@[j],
            lex_lt(key_of(a@), key_of(b@)) == lex_lt(key_of(a@).skip(i as int), key_of(b@).skip(i as int)),
        decreases a.len() - i,
    {
        let ghost sa = key_of(a@).skip(i as int);
        let ghost sb = key_of(b@).skip(i as int);
        assert(sa[0] == a@[i as int] as int);
        assert(sb[0] == b@[i as int] as int);
        if a[i] != b[i] {
            return a[i] < b[i];
        }
        assert(sa.drop_first() =~= key_of(a@).skip(i + 1));
        assert(sb.drop_first() =~= key_of(b@).skip(i + 1));
        i += 1;
    }
    let ghost sa = key_of(a@).skip(i as int);
    let ghost sb = key_of(b@).skip(i as int);
    if i < b.len() {
        assert(sa.len() == 0 && sb.len() > 0);
        true
    } else {
        assert(sb.len() == 0);
        false
    }
}

/// Spec view of exec keyed pairs.
pub open spec fn keyed<T>(v: Seq<(Vec<i128>, T)>) -> Seq<(Seq<int>, T)> {
    v.map_values(|p: (Vec<i128>, T)| (key_of(p.0@), p.1))
}

/// Stable sort of elements by their integer keys (insertion sort).
pub fn sort_by_key<T>(v: Vec<(Vec<i128>, T)>) -> (r: Vec<T>)
    ensures
        r@ == elems(stable_sort(keyed(v@))),
{
    let mut out: Vec<(Vec<i128>, T)> = Vec::new();
    let mut src = v;
    let ghost orig = keyed(src@);
    let mut rest: Vec<(Vec<i128>, T)> = Vec::new();
    // Move the input into `rest` in reverse so that popping yields the elements in order.
    while src.len() > 0
        invariant
            keyed(src@) + keyed(rest@).reverse() =~= orig,
        decreases src.len(),
    {
        let x = src.pop().unwrap();
        let ghost s0 = keyed(rest@);
        rest.push(x);
        proof {
            assert(keyed(rest@) =~= s0.push((key_of(x.0@), x.1)));
        }
    }
    assert(keyed(rest@).reverse() =~= orig);
    let ghost n = rest.len();
    while rest.len() > 0
        invariant
            keyed(out@) == stable_sort(orig.take(n - rest.len())),
            keyed(rest@).reverse() =~= orig.skip(n - rest.len()),
            rest.len() <= n,
            n == orig.len(),
        decreases rest.len(),
    {
        let ghost done = n - rest.len();
        let x = rest.pop().unwrap();
        let ghost kx = (key_of(x.0@), x.1);
        assert(orig.skip(done)[0] == kx);
        assert(orig[done] == kx);
        let mut p: usize = 0;
        assert(keyed(out@).skip(0) =~= keyed(out@));
        while p < out.len() && !key_lt(&x.0, &out[p].0)
            invariant
                0 <= p <= out.len(),
                kx == (key_of(x.0@), x.1),
                insert_pos(keyed(out@), kx.0) == p + insert_pos(keyed(out@).skip(p as int), kx.0),
            decreases out.len() - p,
        {
            let ghost s = keyed(out@).skip(p as int);
            assert(s[0] == (key_of(out@[p as int].0@), out@[p as int].1));
            assert(s.drop_first() =~= keyed(out@).skip(p + 1));
            assert(s.len() > 0);
            assert(kx.0 == key_of(x.0@));
            assert(!lex_lt(kx.0, s[0].0));
            assert(insert_pos(s, kx.0) == 1 + insert_pos(s.drop_first(), kx.0));
            p += 1;
        }
        proof {
            let s = keyed(out@).skip(p as int);
            if p < out.len() {
                assert(s[0].0 == key_of(out@[p as int].0@));
            } else {
                assert(s.len() == 0);
            }
            assert(insert_pos(keyed(out@), kx.0) == p);
            let t = orig.take(done + 1);
            assert(t.drop_last() =~= orig.take(done));
            assert(t.last() == kx);
        }
        let ghost before = keyed(out@);
        out.insert(p, x);
        proof {
            assert(keyed(out@) =~= before.insert(p as int, kx));
            assert(keyed(rest@).reverse() =~= orig.skip(done + 1)) by {
                assert(keyed(rest@).reverse() =~= orig.skip(done).drop_first());
            }
        }
    }
    assert(orig.take(n as int) =~= orig);
    let mut r: Vec<T> = Vec::new();
    let ghost sorted = keyed(out@);
    let mut i: usize = 0;
    let mut o = out;
    // Strip the keys, keeping the order.
    let mut back: Vec<T> = Vec::new();
    while o.len() > 0
        invariant
            elems(keyed(o@)).add(back@.reverse()) =~= elems(sorted),
        decreases o.len(),
    {
        let x = o.pop().unwrap();
        let ghost b0 = back@;
        back.push(x.1);
        proof {
            assert(back@.reverse() =~= seq![x.1] + b0.reverse());
        }
    }
    while back.len() > 0
        invariant
            r@.add(back@.reverse()) =~= elems(sorted),
        decreases back.len(),
    {
        let x = back.pop().unwrap();
        let ghost r0 = r@;
        r.push(x);
    }
    r
}

/// The lexicographic order is irreflexive.
pub proof fn lemma_lex_irrefl(a: Seq<int>)
    ensures
        !lex_lt(a, a),
    decreases a.len(),
{
    if a.len() > 0 {
        lemma_lex_irrefl(a.drop_first());
    }
}

/// The lexicographic order is transitive.
pub proof fn lemma_lex_trans(a: Seq<int>, b: Seq<int>, c: Seq<int>)
    requires
        lex_lt(a, b),
        lex_lt(b, c),
    ensures
        lex_lt(a, c),
    decreases a.len(),
{
    if a.len() > 0 && b.len() > 0 && c.len() > 0 && a[0] == b[0] && b[0] == c[0] {
        lemma_lex_trans(a.drop_first(), b.drop_first(), c.drop_first());
    }
}

/// Keys in order: no key is smaller than one before it.
pub open spec fn keys_sorted<T>(s: Seq<(Seq<int>, T)>) -> bool {
    forall|i: int, j: int| 0 <= i < j < s.len() ==> !lex_lt((#[trigger] s[j]).0, (#[trigger] s[i]).0)
}

/// The stable insertion position lies within the sequence, after every key that `k` is
/// not smaller than, and before a greater key when there is one.
pub proof fn lemma_insert_pos_props<T>(r: Seq<(Seq<int>, T)>, k: Seq<int>)
    ensures
        0 <= insert_pos(r, k) <= r.len(),
        forall|i: int| 0 <= i < insert_pos(r, k) ==> !lex_lt(k, (#[trigger] r[i]).0),
        insert_pos(r, k) < r.len() ==> lex_lt(k, r[insert_pos(r, k)].0),
    decreases r.len(),
{
    if r.len() > 0 && !lex_lt(k, r[0].0) {
        lemma_insert_pos_props(r.drop_first(), k);
        assert forall|i: int| 0 <= i < insert_pos(r, k) implies !lex_lt(k, (#[trigger] r[i]).0) by {
            if i > 0 {
                assert(r[i] == r.drop_first()[i - 1]);
            }
        }
    }
}

/// A stable sort leaves the keys in order.
pub proof fn lemma_sort_sorted<T>(s: Seq<(Seq<int>, T)>)
    ensures
        keys_sorted(stable_sort(s)),
        stable_sort(s).len() == s.len(),
    decreases s.len(),
{
    if s.len() > 0 {
        let d = s.drop_last();
        lemma_sort_sorted(d);
        let r = stable_sort(d);
        let x = s.last();
        let p = insert_pos(r, x.0);
        lemma_insert_pos_props(r, x.0);
        let t = r.insert(p, x);
        assert(stable_sort(s) == t);
        assert forall|i: int, j: int| 0 <= i < j < t.len() implies !lex_lt((#[trigger] t[j]).0, (#[trigger] t[i]).0) by {
            if j < p {
                assert(t[i] == r[i] && t[j] == r[j]);
            } else if j == p {
                assert(t[i] == r[i]);
            } else if i == p {
                assert(t[j] == r[j - 1]);
                if lex_lt(r[j - 1].0, x.0) {
                    lemma_lex_trans(r[j - 1].0, x.0, r[p].0);
                    if j - 1 == p {
                        lemma_lex_irrefl(r[p].0);
                    }
                }
            } else if i < p {
                assert(t[i] == r[i] && t[j] == r[j - 1]);
            } else {
                assert(t[i] == r[i - 1] && t[j] == r[j - 1]);
            }
        }
    }
}

/// Every entry of a stable sort is an entry of the sorted sequence.
pub proof fn lemma_sort_from<T>(s: Seq<(Seq<int>, T)>, i: int)
    requires
        0 <= i < stable_sort(s).len(),
    ensures
        exists|j: int| 0 <= j < s.len() && s[j] == #[trigger] stable_sort(s)[i],
    decreases s.len(),
{
    if s.len() > 0 {
        let d = s.drop_last();
        let r = stable_sort(d);
        let x = s.last();
        let p = insert_pos(r, x.0);
        lemma_insert_pos_props(r, x.0);
        lemma_sort_sorted(d);
        let t = r.insert(p, x);
        assert(stable_sort(s) == t);
        if i == p {
            assert(s[s.len() - 1] == t[i]);
        } else {
            let ii = if i < p { i } else { i - 1 };
            assert(t[i] == r[ii]);
            lemma_sort_from(d, ii);
            let j = choose|j: int| 0 <= j < d.len() && d[j] == r[ii];
            assert(s[j] == d[j]);
        }
    }
}


/// Every entry of the sorted sequence is an entry of a stable sort.
pub proof fn lemma_sort_keeps<T>(s: Seq<(Seq<int>, T)>, j: int)
    requires
        0 <= j < s.len(),
    ensures
        exists|i: int| 0 <= i < stable_sort(s).len() && #[trigger] stable_sort(s)[i] == s[j],
    decreases s.len(),
{
    let d = s.drop_last();
    let r = stable_sort(d);
    let x = s.last();
    let p = insert_pos(r, x.0);
    lemma_insert_pos_props(r, x.0);
    lemma_sort_sorted(d);
    let t = r.insert(p, x);
    assert(stable_sort(s) == t);
    if j == s.len() - 1 {
        assert(t[p] == s[j]);
    } else {
        assert(d[j] == s[j]);
        lemma_sort_keeps(d, j);
        let i = choose|i: int| 0 <= i < r.len() && r[i] == d[j];
        if i < p {
            assert(t[i] == r[i]);
        } else {
            assert(t[i + 1] == r[i]);
        }
    }
}

} // verus!
