//! Group sets. A user's groups are held as a list of distinct names; what matters about the
//! list is the set of names it holds.

use vstd::prelude::*;

verus! {

/// Whether `name` is one of the names in `list`.
pub open spec fn has_name(list: Seq<String>, name: Seq<char>) -> bool {
    exists|i: int| 0 <= i < list.len() && list[i]@ == name
}

/// The set of names held by `list`.
pub open spec fn group_set(list: Seq<String>) -> Set<Seq<char>> {
    Set::new(|name: Seq<char>| has_name(list, name))
}

/// No name occurs twice in `list`.
pub open spec fn distinct_names(list: Seq<String>) -> bool {
    forall|i: int, j: int| 0 <= i < j < list.len() ==> list[i]@ != list[j]@
}

/// The two lists hold the same names in the same order.
pub open spec fn same_list(a: Seq<String>, b: Seq<String>) -> bool {
    &&& a.len() == b.len()
    &&& forall|i: int| 0 <= i < a.len() ==> a[i]@ == b[i]@
}

/// Whether `list` holds a name equal to `name`.
pub fn contains_group(list: &Vec<String>, name: &String) -> (r: bool)
    ensures
        r == has_name(list@, name@),
{
    let mut i: usize = 0;
    while i < list.len()
        invariant
            i <= list@.len(),
            forall|j: int| 0 <= j < i ==> list@[j]@ != name@,
        decreases list@.len() - i,
    {
        if list[i] == *name {
            return true;
        }
        i = i + 1;
    }
    false
}

/// A copy of `list`, name for name.
pub fn copy_groups(list: &Vec<String>) -> (r: Vec<String>)
    ensures
        same_list(r@, list@),
{
    let mut r: Vec<String> = Vec::new();
    let mut i: usize = 0;
    while i < list.len()
        invariant
            i <= list@.len(),
            r@.len() == i,
            forall|j: int| 0 <= j < i ==> r@[j]@ == list@[j]@,
        decreases list@.len() - i,
    {
        r.push(list[i].clone());
        i = i + 1;
    }
    r
}

/// The order of names: lexicographic by character, which for UTF-8 text is also the order of
/// `String`'s bytes.
pub open spec fn name_lt(a: Seq<char>, b: Seq<char>) -> bool
    decreases a.len(),
{
    if a.len() == 0 {
        b.len() > 0
    } else if b.len() == 0 {
        false
    } else if a[0] != b[0] {
        a[0] < b[0]
    } else {
        name_lt(a.drop_first(), b.drop_first())
    }
}

/// The names of `list` are in strictly increasing order, hence each occurs once.
pub open spec fn sorted_names(list: Seq<String>) -> bool {
    forall|i: int, j: int| 0 <= i < j < list.len() ==> name_lt(list[i]@, list[j]@)
}

/// No name comes before itself.
pub proof fn lemma_name_lt_irreflexive(a: Seq<char>)
    ensures
        !name_lt(a, a),
    decreases a.len(),
{
    if a.len() > 0 {
        lemma_name_lt_irreflexive(a.drop_first());
    }
}

/// Of two different names, one comes before the other, and not both ways.
pub proof fn lemma_name_lt_total(a: Seq<char>, b: Seq<char>)
    ensures
        a != b ==> (name_lt(a, b) || name_lt(b, a)),
        !(name_lt(a, b) && name_lt(b, a)),
    decreases a.len(),
{
    if a.len() > 0 && b.len() > 0 {
        if a[0] == b[0] {
            lemma_name_lt_total(a.drop_first(), b.drop_first());
            if a != b {
                assert(a.drop_first() != b.drop_first()) by {
                    if a.drop_first() == b.drop_first() {
                        assert(a =~= seq![a[0]] + a.drop_first());
                        assert(b =~= seq![b[0]] + b.drop_first());
                    }
                }
            }
        } else {
        }
    } else if a.len() == 0 && b.len() == 0 {
        assert(a =~= b);
    }
}

/// The order of names is transitive.
pub proof fn lemma_name_lt_transitive(a: Seq<char>, b: Seq<char>, c: Seq<char>)
    requires
        name_lt(a, b),
        name_lt(b, c),
    ensures
        name_lt(a, c),
    decreases a.len(),
{
    if a.len() > 0 && b.len() > 0 && c.len() > 0 {
        if a[0] == b[0] && b[0] == c[0] {
            lemma_name_lt_transitive(a.drop_first(), b.drop_first(), c.drop_first());
        }
    }
}

/// A sorted list repeats no name.
pub proof fn lemma_sorted_distinct(list: Seq<String>)
    requires
        sorted_names(list),
    ensures
        distinct_names(list),
{
    assert forall|i: int, j: int| 0 <= i < j < list.len() implies list[i]@ != list[j]@ by {
        lemma_name_lt_irreflexive(list[i]@);
    }
}

/// Whether `a` comes before `b` in the order of names.
pub fn name_less(a: &String, b: &String) -> (r: bool)
    ensures
        r == name_lt(a@, b@),
{
    let n = a.as_str().unicode_len();
    let m = b.as_str().unicode_len();
    let mut i: usize = 0;
    assert(a@.skip(0) =~= a@);
    assert(b@.skip(0) =~= b@);
    while i < n && i < m
        invariant
            n == a@.len(),
            m == b@.len(),
            i <= n,
            i <= m,
            name_lt(a@, b@) == name_lt(a@.skip(i as int), b@.skip(i as int)),
        decreases n - i,
    {
        let ca = a.as_str().get_char(i);
        let cb = b.as_str().get_char(i);
        assert(a@.skip(i as int)[0] == ca);
        assert(b@.skip(i as int)[0] == cb);
        if ca != cb {
            return ca < cb;
        }
        assert(a@.skip(i as int).drop_first() =~= a@.skip(i + 1));
        assert(b@.skip(i as int).drop_first() =~= b@.skip(i + 1));
        i = i + 1;
    }
    i == n && i < m
}

/// Puts `name` into the sorted list `list` at its place, unless the list holds it already.
pub fn insert_group(list: &mut Vec<String>, name: String)
    requires
        sorted_names(old(list)@),
    ensures
        sorted_names(final(list)@),
        group_set(final(list)@) == group_set(old(list)@).insert(name@),
{
    let mut p: usize = 0;
    while p < list.len() && name_less(&list[p], &name)
        invariant
            p <= list@.len(),
            forall|j: int| 0 <= j < p ==> name_lt(#[trigger] list@[j]@, name@),
        decreases list@.len() - p,
    {
        p = p + 1;
    }
    if p < list.len() && list[p] == name {
        proof {
            assert(group_set(list@) =~= group_set(list@).insert(name@)) by {
                assert(has_name(list@, name@));
            }
        }
        return;
    }
    let ghost before = list@;
    proof {
        if p < before.len() {
            lemma_name_lt_total(before[p as int]@, name@);
        }
    }
    list.insert(p, name);
    proof {
        let after = list@;
        before.insert_ensures(p as int, after[p as int]);
        let x = after[p as int]@;
        assert forall|i: int, j: int| 0 <= i < j < after.len() implies name_lt(
            after[i]@,
            after[j]@,
        ) by {
            let oi = if i < p { i } else { i - 1 };
            let oj = if j < p { j } else { j - 1 };
            if i != p && j != p {
                assert(after[i] == before[oi]);
                assert(after[j] == before[oj]);
            } else if i == p {
                assert(after[j] == before[oj]);
                if oj > p {
                    lemma_name_lt_transitive(x, before[p as int]@, before[oj]@);
                }
            } else {
                assert(after[i] == before[oi]);
            }
        }
        assert forall|n: Seq<char>| has_name(after, n) <==> (has_name(before, n) || n == x) by {
            if has_name(after, n) {
                let k = choose|k: int| 0 <= k < after.len() && after[k]@ == n;
                if k < p {
                    assert(after[k] == before[k]);
                } else if k > p {
                    assert(after[k] == before[k - 1]);
                }
            }
            if has_name(before, n) {
                let k = choose|k: int| 0 <= k < before.len() && before[k]@ == n;
                if k < p {
                    assert(after[k] == before[k]);
                } else {
                    assert(after[k + 1] == before[k]);
                }
            }
            if n == x {
                assert(after[p as int]@ == n);
            }
        }
        assert(group_set(after) =~= group_set(before).insert(x));
    }
}

/// The union of the groups of `current` and those of `extra`, sorted, each name once.
pub fn union_groups(current: &Vec<String>, extra: &Vec<String>) -> (r: Vec<String>)
    requires
        sorted_names(current@),
    ensures
        sorted_names(r@),
        distinct_names(r@),
        group_set(r@) == group_set(current@).union(group_set(extra@)),
{
    let mut r = copy_groups(current);
    proof {
        lemma_same_list(r@, current@);
        assert forall|i: int, j: int| 0 <= i < j < r@.len() implies name_lt(r@[i]@, r@[j]@) by {
            assert(name_lt(current@[i]@, current@[j]@));
        }
    }
    let mut i: usize = 0;
    while i < extra.len()
        invariant
            i <= extra@.len(),
            sorted_names(r@),
            group_set(r@) == group_set(current@).union(group_set(extra@.subrange(0, i as int))),
        decreases extra@.len() - i,
    {
        let ghost before = r@;
        insert_group(&mut r, extra[i].clone());
        proof {
            let pre = extra@.subrange(0, i as int);
            let post = extra@.subrange(0, i + 1);
            assert forall|n: Seq<char>| has_name(post, n) <==> (has_name(pre, n) || n
                == extra@[i as int]@) by {
                if has_name(post, n) {
                    let k = choose|k: int| 0 <= k < post.len() && post[k]@ == n;
                    if k < i {
                        assert(pre[k] == post[k]);
                    }
                }
                if has_name(pre, n) {
                    let k = choose|k: int| 0 <= k < pre.len() && pre[k]@ == n;
                    assert(post[k] == pre[k]);
                }
                if n == extra@[i as int]@ {
                    assert(post[i as int] == extra@[i as int]);
                }
            }
            assert(group_set(r@) =~= group_set(current@).union(group_set(post)));
        }
        i = i + 1;
    }
    assert(extra@.subrange(0, extra@.len() as int) =~= extra@);
    proof {
        lemma_sorted_distinct(r@);
    }
    r
}

/// The groups of `current` that are not in `removed`, in their (sorted) order: the difference
/// of the two sets.
pub fn difference_groups(current: &Vec<String>, removed: &Vec<String>) -> (r: Vec<String>)
    requires
        sorted_names(current@),
    ensures
        sorted_names(r@),
        distinct_names(r@),
        group_set(r@) == group_set(current@).difference(group_set(removed@)),
{
    let mut r: Vec<String> = Vec::new();
    let mut i: usize = 0;
    while i < current.len()
        invariant
            i <= current@.len(),
            sorted_names(current@),
            sorted_names(r@),
            forall|k: int, j: int|
                0 <= k < r@.len() && i <= j < current@.len() ==> name_lt(
                    #[trigger] r@[k]@,
                    #[trigger] current@[j]@,
                ),
            forall|name: Seq<char>|
                has_name(r@, name) <==> (has_name(current@.subrange(0, i as int), name)
                    && !has_name(removed@, name)),
        decreases current@.len() - i,
    {
        let name = &current[i];
        let dropped = contains_group(removed, name);
        let ghost before = r@;
        if !dropped {
            r.push(name.clone());
            assert(r@[before.len() as int] == *name);
            assert forall|k: int, j: int|
                0 <= k < r@.len() && i + 1 <= j < current@.len() implies name_lt(
                #[trigger] r@[k]@,
                #[trigger] current@[j]@,
            ) by {
                if k == before.len() {
                    assert(name_lt(current@[i as int]@, current@[j]@));
                } else {
                    assert(r@[k] == before[k]);
                }
            }
            assert forall|a: int, b: int| 0 <= a < b < r@.len() implies name_lt(
                r@[a]@,
                r@[b]@,
            ) by {
                assert(r@[a] == before[a]);
                if b < before.len() {
                    assert(r@[b] == before[b]);
                }
            }
        }
        assert forall|n: Seq<char>|
            has_name(r@, n) <==> (has_name(current@.subrange(0, i + 1), n) && !has_name(
                removed@,
                n,
            )) by {
            let pre = current@.subrange(0, i as int);
            let post = current@.subrange(0, i + 1);
            if has_name(post, n) {
                let k = choose|k: int| 0 <= k < post.len() && post[k]@ == n;
                if k < i {
                    assert(pre[k] == post[k]);
                } else {
                    assert(post[k] == current@[i as int]);
                }
            }
            if has_name(pre, n) {
                let k = choose|k: int| 0 <= k < pre.len() && pre[k]@ == n;
                assert(post[k] == pre[k]);
            }
            if has_name(r@, n) && !has_name(before, n) {
                assert(post[i as int] == current@[i as int]);
            }
            if has_name(before, n) {
                let k = choose|k: int| 0 <= k < before.len() && before[k]@ == n;
                assert(r@[k] == before[k]);
            }
            if n == name@ && !dropped {
                assert(r@[before.len() as int]@ == n);
            }
        }
        i = i + 1;
    }
    assert(current@.subrange(0, current@.len() as int) =~= current@);
    assert(group_set(r@) =~= group_set(current@).difference(group_set(removed@)));
    proof {
        lemma_sorted_distinct(r@);
    }
    r
}

/// A list with the same names in the same order as a sorted list is sorted.
pub proof fn lemma_same_list_sorted(a: Seq<String>)
    ensures
        forall|b: Seq<String>| same_list(b, a) && sorted_names(a) ==> #[trigger] sorted_names(b),
{
    assert forall|b: Seq<String>| same_list(b, a) && sorted_names(a) implies #[trigger] sorted_names(
        b,
    ) by {
        assert forall|i: int, j: int| 0 <= i < j < b.len() implies name_lt(b[i]@, b[j]@) by {
            assert(name_lt(a[i]@, a[j]@));
        }
    }
}

/// Lists with the same names in the same order hold the same set, and either both repeat a name
/// or neither does.
pub proof fn lemma_same_list(a: Seq<String>, b: Seq<String>)
    requires
        same_list(a, b),
    ensures
        group_set(a) == group_set(b),
        distinct_names(a) == distinct_names(b),
{
    assert forall|n: Seq<char>| has_name(a, n) <==> has_name(b, n) by {
        if has_name(a, n) {
            let k = choose|k: int| 0 <= k < a.len() && a[k]@ == n;
            assert(b[k]@ == n);
        }
        if has_name(b, n) {
            let k = choose|k: int| 0 <= k < b.len() && b[k]@ == n;
            assert(a[k]@ == n);
        }
    }
    assert(group_set(a) =~= group_set(b));
}

} // verus!
