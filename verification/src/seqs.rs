//! Small sequence utilities shared by the stores.
use vstd::prelude::*;

verus! {

/// The first index at or after `i` whose element satisfies `p`.
pub open spec fn first_from<T>(s: Seq<T>, p: spec_fn(T) -> bool, i: int) -> Option<int>
    decreases s.len() - i,
{
    if i < 0 || i >= s.len() {
        None
    } else if p(s[i]) {
        Some(i)
    } else {
        first_from(s, p, i + 1)
    }
}

/// The first index whose element satisfies `p`.
pub open spec fn first_index<T>(s: Seq<T>, p: spec_fn(T) -> bool) -> Option<int> {
    first_from(s, p, 0)
}

pub proof fn lemma_first_from<T>(s: Seq<T>, p: spec_fn(T) -> bool, i: int)
    requires
        0 <= i,
    ensures
        first_from(s, p, i) matches Some(k) ==> i <= k < s.len() && p(s[k]) && forall|j: int|
            i <= j < k ==> !p(#[trigger] s[j]),
        first_from(s, p, i) is None ==> forall|j: int| i <= j < s.len() ==> !p(#[trigger] s[j]),
    decreases s.len() - i,
{
    if i < s.len() && !p(s[i]) {
        lemma_first_from(s, p, i + 1);
    }
}

/// The first index whose element satisfies `p`: facts about it.
pub proof fn lemma_first_index<T>(s: Seq<T>, p: spec_fn(T) -> bool)
    ensures
        first_index(s, p) matches Some(k) ==> 0 <= k < s.len() && p(s[k]) && forall|j: int|
            0 <= j < k ==> !p(#[trigger] s[j]),
        first_index(s, p) is None ==> forall|j: int| 0 <= j < s.len() ==> !p(#[trigger] s[j]),
        (first_index(s, p) is Some) <==> exists|j: int| 0 <= j < s.len() && p(#[trigger] s[j]),
{
    lemma_first_from(s, p, 0);
}

/// Keeps the elements for which `keep` answers `true`, in order.
pub fn retain_by<T, F: Fn(&T) -> bool>(v: &mut Vec<T>, keep: F, Ghost(p): Ghost<spec_fn(T) -> bool>)
    requires
        forall|x: &T| #[trigger] keep.requires((x,)),
        forall|x: &T, b: bool| keep.ensures((x,), b) ==> b == p(*x),
    ensures
        final(v)@ == old(v)@.filter(p),
{
    let mut rest: Vec<T> = Vec::new();
    std::mem::swap(&mut rest, v);
    let ghost all = rest@;
    let n = rest.len();
    let mut i: usize = 0;
    let mut kept: Vec<T> = Vec::new();
    while rest.len() > 0
        invariant
            rest@ == all.skip(i as int),
            rest.len() + i == all.len(),
            all.len() == n,
            i <= all.len(),
            kept@ == all.take(i as int).filter(p),
            forall|x: &T| #[trigger] keep.requires((x,)),
            forall|x: &T, b: bool| keep.ensures((x,), b) ==> b == p(*x),
        decreases rest.len(),
    {
        let x = rest.remove(0);
        proof {
            assert(x == all[i as int]);
            assert(all.take(i + 1).drop_last() =~= all.take(i as int));
            reveal(Seq::filter);
            assert(rest@ =~= all.skip(i + 1));
        }
        let b = keep(&x);
        if b {
            kept.push(x);
        }
        i += 1;
    }
    assert(all.take(all.len() as int) =~= all);
    *v = kept;
}

/// The position of the first element for which `hit` answers `true`.
pub fn position_by<T, F: Fn(&T) -> bool>(v: &Vec<T>, hit: F, Ghost(p): Ghost<spec_fn(T) -> bool>) -> (r: Option<usize>)
    requires
        forall|x: &T| #[trigger] hit.requires((x,)),
        forall|x: &T, b: bool| hit.ensures((x,), b) ==> b == p(*x),
    ensures
        r matches Some(k) ==> first_index(v@, p) == Some(k as int),
        r is None ==> first_index(v@, p) is None,
{
    let mut i: usize = 0;
    while i < v.len()
        invariant
            i <= v.len(),
            first_index(v@, p) == first_from(v@, p, i as int),
            forall|x: &T| #[trigger] hit.requires((x,)),
            forall|x: &T, b: bool| hit.ensures((x,), b) ==> b == p(*x),
        decreases v.len() - i,
    {
        if hit(&v[i]) {
            return Some(i);
        }
        i += 1;
    }
    None
}

/// Whether some element satisfies `p`.
pub open spec fn any<T>(s: Seq<T>, p: spec_fn(T) -> bool) -> bool {
    exists|j: int| 0 <= j < s.len() && p(#[trigger] s[j])
}

} // verus!

verus! {

/// Filtering with a predicate that every element satisfies keeps everything.
pub proof fn lemma_filter_keeps_all<T>(s: Seq<T>, p: spec_fn(T) -> bool)
    requires
        forall|j: int| 0 <= j < s.len() ==> p(#[trigger] s[j]),
    ensures
        s.filter(p) == s,
    decreases s.len(),
{
    reveal(Seq::filter);
    if s.len() > 0 {
        lemma_filter_keeps_all(s.drop_last(), p);
        assert(s.drop_last().push(s.last()) =~= s);
    } else {
        assert(s =~= Seq::<T>::empty());
    }
}

} // verus!

verus! {

/// A filter that drops nothing kept every element.
pub proof fn lemma_filter_full_means_all<T>(s: Seq<T>, p: spec_fn(T) -> bool)
    requires
        s.filter(p).len() == s.len(),
    ensures
        forall|j: int| 0 <= j < s.len() ==> p(#[trigger] s[j]),
    decreases s.len(),
{
    reveal(Seq::filter);
    if s.len() > 0 {
        s.drop_last().lemma_filter_len(p);
        if !p(s.last()) {
            assert(s.filter(p) == s.drop_last().filter(p));
            assert(false);
        }
        lemma_filter_full_means_all(s.drop_last(), p);
        assert forall|j: int| 0 <= j < s.len() implies p(#[trigger] s[j]) by {
            if j < s.len() - 1 {
                assert(s[j] == s.drop_last()[j]);
            }
        }
    }
}

} // verus!

verus! {

/// References to the elements for which `keep` answers `true`, in order.
pub fn select_by<'a, T: DeepView, F: Fn(&T) -> bool>(
    v: &'a Vec<T>,
    keep: F,
    Ghost(p): Ghost<spec_fn(T::V) -> bool>,
) -> (r: Vec<&'a T>)
    requires
        forall|x: &T| #[trigger] keep.requires((x,)),
        forall|x: &T, b: bool| keep.ensures((x,), b) ==> b == p(x.deep_view()),
    ensures
        r.deep_view() == v.deep_view().filter(p),
{
    let mut r: Vec<&T> = Vec::new();
    let mut i: usize = 0;
    while i < v.len()
        invariant
            i <= v.len(),
            r.deep_view() == v.deep_view().take(i as int).filter(p),
            forall|x: &T| #[trigger] keep.requires((x,)),
            forall|x: &T, b: bool| keep.ensures((x,), b) ==> b == p(x.deep_view()),
        decreases v.len() - i,
    {
        let ghost before = r.deep_view();
        proof {
            assert(v.deep_view().take(i + 1).drop_last() =~= v.deep_view().take(i as int));
            reveal(Seq::filter);
        }
        if keep(&v[i]) {
            r.push(&v[i]);
            assert(r.deep_view() =~= before.push(v.deep_view()[i as int]));
        }
        i += 1;
    }
    assert(v.deep_view().take(v.len() as int) =~= v.deep_view());
    r
}

/// The number of elements for which `hit` answers `true`.
pub fn count_by<T: DeepView, F: Fn(&T) -> bool>(v: &[T], hit: F, Ghost(p): Ghost<spec_fn(T::V) -> bool>) -> (r: usize)
    requires
        forall|x: &T| #[trigger] hit.requires((x,)),
        forall|x: &T, b: bool| hit.ensures((x,), b) ==> b == p(x.deep_view()),
    ensures
        r == v.deep_view().filter(p).len(),
{
    let mut n: usize = 0;
    let mut i: usize = 0;
    while i < v.len()
        invariant
            i <= v.len(),
            n == v.deep_view().take(i as int).filter(p).len(),
            n <= i,
            forall|x: &T| #[trigger] hit.requires((x,)),
            forall|x: &T, b: bool| hit.ensures((x,), b) ==> b == p(x.deep_view()),
        decreases v.len() - i,
    {
        proof {
            assert(v.deep_view().take(i + 1).drop_last() =~= v.deep_view().take(i as int));
            reveal(Seq::filter);
        }
        if hit(&v[i]) {
            n += 1;
        }
        i += 1;
    }
    assert(v.deep_view().take(v.len() as int) =~= v.deep_view());
    n
}

} // verus!

verus! {

/// The position of the first element whose abstract value satisfies `p`.
pub fn position_where<T: DeepView, F: Fn(&T) -> bool>(
    v: &Vec<T>,
    hit: F,
    Ghost(p): Ghost<spec_fn(T::V) -> bool>,
) -> (r: Option<usize>)
    requires
        forall|x: &T| #[trigger] hit.requires((x,)),
        forall|x: &T, b: bool| hit.ensures((x,), b) ==> b == p(x.deep_view()),
    ensures
        r matches Some(k) ==> first_index(v.deep_view(), p) == Some(k as int),
        r is None ==> first_index(v.deep_view(), p) is None,
{
    let mut i: usize = 0;
    while i < v.len()
        invariant
            i <= v.len(),
            first_index(v.deep_view(), p) == first_from(v.deep_view(), p, i as int),
            forall|x: &T| #[trigger] hit.requires((x,)),
            forall|x: &T, b: bool| hit.ensures((x,), b) ==> b == p(x.deep_view()),
        decreases v.len() - i,
    {
        if hit(&v[i]) {
            return Some(i);
        }
        i += 1;
    }
    None
}

/// Keeps the elements whose abstract value satisfies `p` (as `keep` answers),
/// in order.
pub fn retain_where<T: DeepView, F: Fn(&T) -> bool>(
    v: &mut Vec<T>,
    keep: F,
    Ghost(p): Ghost<spec_fn(T::V) -> bool>,
)
    requires
        forall|x: &T| #[trigger] keep.requires((x,)),
        forall|x: &T, b: bool| keep.ensures((x,), b) ==> b == p(x.deep_view()),
    ensures
        final(v).deep_view() == old(v).deep_view().filter(p),
{
    let mut rest: Vec<T> = Vec::new();
    std::mem::swap(&mut rest, v);
    let ghost all = rest.deep_view();
    let n = rest.len();
    let mut i: usize = 0;
    let mut kept: Vec<T> = Vec::new();
    while rest.len() > 0
        invariant
            rest.deep_view() == all.skip(i as int),
            rest.len() + i == all.len(),
            all.len() == n,
            kept.deep_view() == all.take(i as int).filter(p),
            forall|x: &T| #[trigger] keep.requires((x,)),
            forall|x: &T, b: bool| keep.ensures((x,), b) ==> b == p(x.deep_view()),
        decreases rest.len(),
    {
        let ghost before = rest.deep_view();
        let ghost before_items = rest@;
        let ghost kept_before = kept.deep_view();
        let x = rest.remove(0);
        proof {
            assert(x.deep_view() == before[0]);
            assert(rest@ =~= before_items.subrange(1, before_items.len() as int));
            assert forall|j: int| 0 <= j < rest.deep_view().len() implies #[trigger] rest.deep_view()[j] == all.skip(i + 1)[j] by {
                assert(rest@[j] == before_items[j + 1]);
                assert(before[j + 1] == all.skip(i as int)[j + 1]);
            }
            assert(x.deep_view() == all[i as int]);
            assert(all.take(i + 1).drop_last() =~= all.take(i as int));
            reveal(Seq::filter);
            assert(rest.deep_view() =~= all.skip(i + 1));
        }
        let b = keep(&x);
        if b {
            kept.push(x);
            assert(kept.deep_view() =~= kept_before.push(all[i as int]));
        }
        i += 1;
    }
    assert(all.take(all.len() as int) =~= all);
    *v = kept;
}

} // verus!
