//! Comparison of text: equality, the lexicographic order of `String` (by code point), and
//! sorted lists without duplicates.

use vstd::prelude::*;

verus! {

/// Whether `a` sorts strictly before `b`, comparing code points from the front.
pub open spec fn lex_lt(a: Seq<char>, b: Seq<char>) -> bool
    decreases a.len(),
{
    if a.len() == 0 {
        b.len() > 0
    } else if b.len() == 0 {
        false
    } else if a[0] != b[0] {
        (a[0] as int) < (b[0] as int)
    } else {
        lex_lt(a.drop_first(), b.drop_first())
    }
}

/// The texts of a list of strings.
pub open spec fn texts(s: Seq<String>) -> Seq<Seq<char>> {
    s.map_values(|t: String| t@)
}

/// Whether a list of texts is in strictly increasing order, and so free of duplicates.
pub open spec fn strictly_sorted(s: Seq<Seq<char>>) -> bool {
    forall|i: int, j: int| 0 <= i < j < s.len() ==> lex_lt(#[trigger] s[i], #[trigger] s[j])
}

/// Of two different texts, one sorts before the other, and never both.
pub proof fn lemma_lex_total(a: Seq<char>, b: Seq<char>)
    ensures
        a != b ==> lex_lt(a, b) || lex_lt(b, a),
        !(lex_lt(a, b) && lex_lt(b, a)),
    decreases a.len(),
{
    if a.len() > 0 && b.len() > 0 && a[0] == b[0] {
        lemma_lex_total(a.drop_first(), b.drop_first());
        if a.drop_first() == b.drop_first() {
            assert(a =~= seq![a[0]] + a.drop_first());
            assert(b =~= seq![b[0]] + b.drop_first());
        }
    } else if a.len() == 0 && b.len() == 0 {
        assert(a =~= b);
    } else if a.len() > 0 && b.len() > 0 {
        assert(a[0] != b[0] ==> (a[0] as int) != (b[0] as int));
    }
}

/// The order is transitive.
pub proof fn lemma_lex_transitive(a: Seq<char>, b: Seq<char>, c: Seq<char>)
    requires
        lex_lt(a, b),
        lex_lt(b, c),
    ensures
        lex_lt(a, c),
    decreases a.len(),
{
    if a.len() > 0 && b.len() > 0 && c.len() > 0 && a[0] == b[0] && b[0] == c[0] {
        lemma_lex_transitive(a.drop_first(), b.drop_first(), c.drop_first());
    }
}

/// Whether two strings hold the same text.
pub fn str_eq(a: &str, b: &str) -> (r: bool)
    ensures
        r == (a@ == b@),
{
    let n = a.unicode_len();
    if n != b.unicode_len() {
        return false;
    }
    let mut i: usize = 0;
    while i < n
        invariant
            n == a@.len() == b@.len(),
            i <= n,
            forall|k: int| 0 <= k < i ==> a@[k] == b@[k],
        decreases n - i,
    {
        if a.get_char(i) != b.get_char(i) {
            return false;
        }
        i = i + 1;
    }
    assert(a@ =~= b@);
    true
}

/// Whether `a` sorts strictly before `b`.
pub fn str_lt(a: &str, b: &str) -> (r: bool)
    ensures
        r == lex_lt(a@, b@),
{
    let n = a.unicode_len();
    let m = b.unicode_len();
    let mut i: usize = 0;
    assert(a@.subrange(0, n as int) =~= a@);
    assert(b@.subrange(0, m as int) =~= b@);
    while i < n && i < m
        invariant
            n == a@.len(),
            m == b@.len(),
            i <= n,
            i <= m,
            lex_lt(a@, b@) == lex_lt(
                a@.subrange(i as int, n as int),
                b@.subrange(i as int, m as int),
            ),
        decreases n - i,
    {
        let x = a.get_char(i);
        let y = b.get_char(i);
        if x != y {
            return (x as u32) < (y as u32);
        }
        assert(a@.subrange(i as int, n as int).drop_first() =~= a@.subrange(i + 1, n as int));
        assert(b@.subrange(i as int, m as int).drop_first() =~= b@.subrange(i + 1, m as int));
        i = i + 1;
    }
    i == n && i < m
}

/// Insert `x` into the strictly sorted list `v`, unless its text is there already.
pub fn insert_sorted_unique(v: &mut Vec<String>, x: String)
    requires
        strictly_sorted(texts(old(v)@)),
    ensures
        strictly_sorted(texts(final(v)@)),
        forall|t: Seq<char>|
            texts(final(v)@).contains(t) <==> texts(old(v)@).contains(t) || t == x@,
{
    let ghost old_texts = texts(v@);
    let mut i: usize = 0;
    let mut found = false;
    while i < v.len() && !found
        invariant
            i <= v@.len(),
            texts(v@) == old_texts,
            strictly_sorted(old_texts),
            forall|k: int| 0 <= k < i ==> lex_lt(#[trigger] old_texts[k], x@),
            found ==> i < v@.len() && !lex_lt(old_texts[i as int], x@),
        decreases v@.len() - i + (if found {
            0int
        } else {
            1int
        }),
    {
        if str_lt(v[i].as_str(), x.as_str()) {
            i = i + 1;
        } else {
            found = true;
        }
    }
    if i < v.len() && str_eq(v[i].as_str(), x.as_str()) {
        assert(old_texts[i as int] == x@);
        assert forall|t: Seq<char>| texts(v@).contains(t) <==> old_texts.contains(t) || t == x@ by {
            if t == x@ {
                assert(old_texts[i as int] == t);
            }
        }
        return;
    }
    proof {
        if i < v@.len() {
            lemma_lex_total(old_texts[i as int], x@);
        }
    }
    let ghost xv = x@;
    v.insert(i, x);
    let ghost nt = texts(v@);
    assert(nt =~= old_texts.insert(i as int, xv));
    assert forall|a: int, b: int| 0 <= a < b < nt.len() implies lex_lt(
        #[trigger] nt[a],
        #[trigger] nt[b],
    ) by {
        if a < i && b < i {
            assert(nt[a] == old_texts[a] && nt[b] == old_texts[b]);
        } else if a < i && b == i {
            assert(nt[a] == old_texts[a]);
        } else if a < i && b > i {
            assert(nt[a] == old_texts[a] && nt[b] == old_texts[b - 1]);
            if b - 1 > a {
            }
        } else if a == i {
            assert(nt[b] == old_texts[b - 1]);
            if b - 1 > i {
                lemma_lex_transitive(xv, old_texts[i as int], old_texts[b - 1]);
            }
        } else {
            assert(nt[a] == old_texts[a - 1] && nt[b] == old_texts[b - 1]);
        }
    }
    assert forall|t: Seq<char>| nt.contains(t) <==> old_texts.contains(t) || t == xv by {
        if nt.contains(t) {
            let k = choose|k: int| 0 <= k < nt.len() && nt[k] == t;
            if k < i {
                assert(old_texts[k] == t);
            } else if k > i {
                assert(old_texts[k - 1] == t);
            }
        }
        if old_texts.contains(t) {
            let k = choose|k: int| 0 <= k < old_texts.len() && old_texts[k] == t;
            if k < i {
                assert(nt[k] == t);
            } else {
                assert(nt[k + 1] == t);
            }
        }
        if t == xv {
            assert(nt[i as int] == t);
        }
    }
}

/// The texts of `v`, sorted and without duplicates.
pub fn sorted_unique(v: Vec<String>) -> (r: Vec<String>)
    ensures
        strictly_sorted(texts(r@)),
        forall|t: Seq<char>| texts(r@).contains(t) <==> texts(v@).contains(t),
{
    let mut r: Vec<String> = Vec::new();
    let mut rest = v;
    let ghost orig = texts(rest@);
    // Taking from the back keeps each step a constant-time removal.
    while rest.len() > 0
        invariant
            strictly_sorted(texts(r@)),
            forall|t: Seq<char>|
                orig.contains(t) <==> texts(r@).contains(t) || texts(rest@).contains(t),
        decreases rest@.len(),
    {
        let ghost before = texts(rest@);
        let x = rest.pop().unwrap();
        proof {
            assert(before =~= texts(rest@).push(x@));
        }
        let ghost r_before = texts(r@);
        insert_sorted_unique(&mut r, x);
        assert forall|t: Seq<char>|
            orig.contains(t) <==> texts(r@).contains(t) || texts(rest@).contains(t) by {
            if before.contains(t) {
                let k = choose|k: int| 0 <= k < before.len() && before[k] == t;
                if k < before.len() - 1 {
                    assert(texts(rest@)[k] == t);
                }
            }
            if texts(rest@).contains(t) {
                let k = choose|k: int| 0 <= k < texts(rest@).len() && texts(rest@)[k] == t;
                assert(before[k] == t);
            }
            if t == x@ {
                assert(before[before.len() - 1] == t);
            }
        }
    }
    assert(texts(rest@) =~= Seq::<Seq<char>>::empty());
    r
}

/// A copy of a list of strings.
pub fn clone_strings(v: &Vec<String>) -> (r: Vec<String>)
    ensures
        r@ == v@,
{
    let mut r: Vec<String> = Vec::new();
    let mut i: usize = 0;
    while i < v.len()
        invariant
            i <= v@.len(),
            r@ == v@.subrange(0, i as int),
        decreases v@.len() - i,
    {
        r.push(v[i].clone());
        i = i + 1;
        assert(r@ =~= v@.subrange(0, i as int));
    }
    assert(v@.subrange(0, v@.len() as int) =~= v@);
    r
}

/// The text of an optional string.
pub open spec fn opt_text(o: Option<String>) -> Option<Seq<char>> {
    match o {
        Some(s) => Some(s@),
        None => None,
    }
}

/// A copy of an optional string.
pub fn clone_opt(o: &Option<String>) -> (r: Option<String>)
    ensures
        r == *o,
{
    match o {
        Some(s) => Some(s.clone()),
        None => None,
    }
}

} // verus!
