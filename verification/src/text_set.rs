//! Sets of text values (addresses, asset codes) held in a `Vec<String>`
//! without duplicates.

use vstd::prelude::*;

verus! {

/// The character sequences of a sequence of strings.
pub open spec fn texts(v: Seq<String>) -> Seq<Seq<char>> {
    v.map_values(|s: String| s@)
}

/// The set of character sequences held in `v`.
pub open spec fn text_set(v: Seq<String>) -> Set<Seq<char>> {
    texts(v).to_set()
}

/// `v` holds no text twice.
pub open spec fn distinct_texts(v: Seq<String>) -> bool {
    texts(v).no_duplicates()
}

/// Index of the entry of `v` equal to `x`, if there is one.
pub fn position_of(v: &Vec<String>, x: &String) -> (r: Option<usize>)
    ensures
        match r {
            Some(i) => i < v.len() && v@[i as int]@ == x@,
            None => !text_set(v@).contains(x@),
        },
{
    let n = v.len();
    let mut i: usize = 0;
    while i < n
        invariant
            n == v.len(),
            i <= n,
            forall|j: int| 0 <= j < i ==> v@[j]@ != x@,
        decreases n - i,
    {
        if v[i] == *x {
            return Some(i);
        }
        i = i + 1;
    }
    proof {
        assert forall|t: Seq<char>| texts(v@).contains(t) implies t != x@ by {
            let j = choose|j: int| 0 <= j < texts(v@).len() && texts(v@)[j] == t;
            assert(texts(v@)[j] == v@[j]@);
        }
    }
    None
}

/// Whether `v` holds `x`.
pub fn contains_text(v: &Vec<String>, x: &String) -> (r: bool)
    ensures
        r == text_set(v@).contains(x@),
{
    match position_of(v, x) {
        Some(i) => {
            proof {
                assert(texts(v@)[i as int] == x@);
            }
            true
        },
        None => false,
    }
}

/// Adds `x` to the set held in `v`.
pub fn insert_text(v: &mut Vec<String>, x: String)
    requires
        distinct_texts(old(v)@),
    ensures
        distinct_texts(final(v)@),
        text_set(final(v)@) == text_set(old(v)@).insert(x@),
{
    if !contains_text(v, &x) {
        let ghost x_view = x@;
        let ghost before = texts(v@);
        v.push(x);
        proof {
            assert(texts(v@) =~= before.push(x_view));
            assert forall|t: Seq<char>| text_set(v@).contains(t) implies
                text_set(old(v)@).insert(x_view).contains(t) by {
                let j = choose|j: int| 0 <= j < texts(v@).len() && texts(v@)[j] == t;
                if j < before.len() {
                    assert(before[j] == t);
                }
            }
            assert forall|t: Seq<char>| text_set(old(v)@).insert(x_view).contains(t) implies
                text_set(v@).contains(t) by {
                if t == x_view {
                    assert(texts(v@)[before.len() as int] == t);
                } else {
                    let j = choose|j: int| 0 <= j < before.len() && before[j] == t;
                    assert(texts(v@)[j] == t);
                }
            }
            assert(text_set(v@) =~= text_set(old(v)@).insert(x_view));
        }
    } else {
        assert(text_set(v@) =~= text_set(old(v)@).insert(x@));
    }
}

/// Removes `x` from the set held in `v`.
pub fn remove_text(v: &mut Vec<String>, x: &String)
    requires
        distinct_texts(old(v)@),
    ensures
        distinct_texts(final(v)@),
        text_set(final(v)@) == text_set(old(v)@).remove(x@),
{
    match position_of(v, x) {
        Some(i) => {
            let ghost before = texts(v@);
            v.remove(i);
            proof {
                assert(texts(v@) =~= before.remove(i as int));
                assert forall|t: Seq<char>| text_set(v@).contains(t) implies
                    text_set(old(v)@).remove(x@).contains(t) by {
                    let j = choose|j: int| 0 <= j < texts(v@).len() && texts(v@)[j] == t;
                    if j < i {
                        assert(before[j] == t);
                        assert(before[j] != before[i as int]);
                    } else {
                        assert(before[j + 1] == t);
                        assert(before[j + 1] != before[i as int]);
                    }
                }
                assert forall|t: Seq<char>| text_set(old(v)@).remove(x@).contains(t) implies
                    text_set(v@).contains(t) by {
                    let j = choose|j: int| 0 <= j < before.len() && before[j] == t;
                    assert(before[i as int] == x@);
                    if j < i {
                        assert(texts(v@)[j] == t);
                    } else {
                        assert(j != i);
                        assert(texts(v@)[j - 1] == t);
                    }
                }
                assert(text_set(v@) =~= text_set(old(v)@).remove(x@));
            }
        },
        None => {
            assert(text_set(v@) =~= text_set(old(v)@).remove(x@));
        },
    }
}

/// Whether no text occurs twice in `v`.
pub fn all_distinct(v: &Vec<String>) -> (r: bool)
    ensures
        r == distinct_texts(v@),
{
    let n = v.len();
    let mut i: usize = 0;
    while i < n
        invariant
            n == v.len(),
            i <= n,
            forall|a: int, b: int| 0 <= a < i && 0 <= b < i && a != b ==> v@[a]@ != v@[b]@,
        decreases n - i,
    {
        let mut j: usize = 0;
        while j < i
            invariant
                n == v.len(),
                i < n,
                j <= i,
                forall|a: int, b: int| 0 <= a < i && 0 <= b < i && a != b ==> v@[a]@ != v@[b]@,
                forall|b: int| 0 <= b < j ==> v@[b]@ != v@[i as int]@,
            decreases i - j,
        {
            if v[j] == v[i] {
                proof {
                    assert(texts(v@)[j as int] == texts(v@)[i as int]);
                }
                return false;
            }
            j = j + 1;
        }
        i = i + 1;
    }
    proof {
        assert forall|a: int, b: int|
            0 <= a < texts(v@).len() && 0 <= b < texts(v@).len() && a != b implies texts(v@)[a]
            != texts(v@)[b] by {
            assert(texts(v@)[a] == v@[a]@);
            assert(texts(v@)[b] == v@[b]@);
        }
    }
    true
}

} // verus!
