use vstd::prelude::*;

verus! {

/// Whether position `a` comes before position `b` in the order of the result:
/// by key, and among equal keys by position.
pub open spec fn comes_before(keys: Seq<i64>, a: int, b: int) -> bool {
    keys[a] < keys[b] || (keys[a] == keys[b] && a < b)
}

/// Whether the key at a position occurs among `other`.
pub open spec fn is_known(keys: Seq<i64>, other: Seq<i64>, j: int) -> bool {
    other.contains(keys[j])
}

/// Whether `picked` lists the positions of `keys` whose key does not occur
/// among `other`: each of them, none else, in ascending order of key, and
/// among equal keys in the order of the positions.
pub open spec fn is_difference(picked: Seq<usize>, keys: Seq<i64>, other: Seq<i64>) -> bool {
    &&& forall|k: int|
        0 <= k < picked.len() ==> (#[trigger] picked[k]) < keys.len() && !is_known(
            keys,
            other,
            picked[k] as int,
        )
    &&& forall|j: int|
        0 <= j < keys.len() && !is_known(keys, other, j) ==> exists|k: int|
            0 <= k < picked.len() && #[trigger] picked[k] == j
    &&& forall|a: int, b: int|
        0 <= a < b < picked.len() ==> comes_before(
            keys,
            #[trigger] picked[a] as int,
            #[trigger] picked[b] as int,
        )
}

/// The number of flags that are set.
pub open spec fn count_set(flags: Seq<bool>) -> nat
    decreases flags.len(),
{
    if flags.len() == 0 {
        0
    } else {
        count_set(flags.drop_last()) + if flags.last() {
            1nat
        } else {
            0nat
        }
    }
}

/// No more flags are set than there are flags.
proof fn lemma_count_set_bound(flags: Seq<bool>)
    ensures
        count_set(flags) <= flags.len(),
    decreases flags.len(),
{
    if flags.len() > 0 {
        lemma_count_set_bound(flags.drop_last());
    }
}

/// Setting a flag that was not set adds one to the number of flags set.
proof fn lemma_count_set_update(flags: Seq<bool>, j: int)
    requires
        0 <= j < flags.len(),
        !flags[j],
    ensures
        count_set(flags.update(j, true)) == count_set(flags) + 1,
    decreases flags.len(),
{
    let updated = flags.update(j, true);
    if j == flags.len() - 1 {
        assert(updated.drop_last() == flags.drop_last());
    } else {
        lemma_count_set_update(flags.drop_last(), j);
        assert(updated.drop_last() == flags.drop_last().update(j, true));
    }
}

fn occurs(other: &Vec<i64>, key: i64) -> (r: bool)
    ensures
        r == other@.contains(key),
{
    let mut i: usize = 0;
    while i < other.len()
        invariant
            i <= other.len(),
            forall|j: int| 0 <= j < i ==> other@[j] != key,
        decreases other.len() - i,
    {
        if other[i] == key {
            assert(other@[i as int] == key);
            return true;
        }
        i += 1;
    }
    false
}

/// Lists the positions of `keys` whose key does not occur among `other`: see
/// `is_difference`.
pub fn difference_indices(keys: &Vec<i64>, other: &Vec<i64>) -> (picked: Vec<usize>)
    ensures
        is_difference(picked@, keys@, other@),
{
    let n: usize = keys.len();
    // A position is done with once it is picked or found to be known.
    let mut done: Vec<bool> = Vec::new();
    let mut i: usize = 0;
    while i < n
        invariant
            i <= n,
            n == keys.len(),
            done@.len() == i,
            forall|j: int| 0 <= j < i ==> done@[j] == is_known(keys@, other@, j),
        decreases n - i,
    {
        done.push(occurs(other, keys[i]));
        i += 1;
    }
    let mut picked: Vec<usize> = Vec::new();
    let ghost known = done@;
    loop
        invariant
            n == keys.len(),
            done@.len() == n,
            known.len() == n,
            forall|j: int| 0 <= j < n ==> known[j] == is_known(keys@, other@, j),
            forall|j: int| 0 <= j < n && known[j] ==> done@[j],
            forall|k: int|
                0 <= k < picked@.len() ==> (#[trigger] picked@[k]) < n && !known[picked@[k] as int]
                    && done@[picked@[k] as int],
            forall|j: int|
                0 <= j < n && !known[j] && done@[j] ==> exists|k: int|
                    0 <= k < picked@.len() && #[trigger] picked@[k] == j,
            forall|a: int, b: int|
                0 <= a < b < picked@.len() ==> comes_before(
                    keys@,
                    #[trigger] picked@[a] as int,
                    #[trigger] picked@[b] as int,
                ),
            forall|k: int, j: int|
                0 <= k < picked@.len() && 0 <= j < n && !(#[trigger] done@[j]) ==> comes_before(
                    keys@,
                    #[trigger] picked@[k] as int,
                    j,
                ),
        ensures
            is_difference(picked@, keys@, other@),
        decreases n - count_set(done@),
    {
        let mut best: usize = n;
        let mut j: usize = 0;
        while j < n
            invariant
                j <= n,
                n == keys.len(),
                done@.len() == n,
                best <= n,
                best < n ==> !done@[best as int] && best < j,
                forall|m: int|
                    0 <= m < j && !done@[m] ==> best < n && (m == best || comes_before(
                        keys@,
                        best as int,
                        m,
                    )),
            decreases n - j,
        {
            if !done[j] {
                if best == n || keys[j] < keys[best] {
                    best = j;
                }
            }
            j += 1;
        }
        if best == n {
            proof {
                assert forall|m: int| 0 <= m < n implies done@[m] by {
                    if !done@[m] {
                        assert(best < n);
                    }
                }
                assert forall|k: int| 0 <= k < picked@.len() implies (#[trigger] picked@[k])
                    < keys@.len() && !is_known(keys@, other@, picked@[k] as int) by {
                    assert(!known[picked@[k] as int]);
                }
                assert forall|m: int| 0 <= m < keys@.len() && !is_known(keys@, other@, m) implies exists|
                    k: int,
                | 0 <= k < picked@.len() && #[trigger] picked@[k] == m by {
                    assert(!known[m] && done@[m]);
                }
            }
            break;
        }
        proof {
            lemma_count_set_update(done@, best as int);
            lemma_count_set_bound(done@.update(best as int, true));
        }
        let ghost before = picked@;
        done.set(best, true);
        picked.push(best);
        proof {
            assert forall|m: int| 0 <= m < n && !known[m] && done@[m] implies exists|k: int|
                0 <= k < picked@.len() && #[trigger] picked@[k] == m by {
                if m == best {
                    assert(picked@[picked@.len() - 1] == m);
                } else {
                    let k = choose|k: int| 0 <= k < before.len() && #[trigger] before[k] == m;
                    assert(picked@[k] == m);
                }
            }
        }
    }
    picked
}

/// The elements of `new` whose key none of `curr` has, and the elements of
/// `curr` whose key none of `new` has, each list in ascending order of key
/// and, among equal keys, in the order of the elements. The key of each
/// element is taken once.
pub fn get_differences<'a, T, F: Fn(&T) -> i64>(curr: &'a [T], new: &'a [T], key: F) -> (r: (
    Vec<&'a T>,
    Vec<&'a T>,
))
    requires
        forall|t: &T| #[trigger] key.requires((t,)),
    ensures
        exists|curr_keys: Seq<i64>, new_keys: Seq<i64>, to_add: Seq<usize>, to_remove: Seq<usize>|
            {
                &&& curr_keys.len() == curr@.len()
                &&& new_keys.len() == new@.len()
                &&& forall|i: int|
                    0 <= i < curr@.len() ==> key.ensures((&curr@[i],), #[trigger] curr_keys[i])
                &&& forall|i: int|
                    0 <= i < new@.len() ==> key.ensures((&new@[i],), #[trigger] new_keys[i])
                &&& is_difference(to_add, new_keys, curr_keys)
                &&& is_difference(to_remove, curr_keys, new_keys)
                &&& r.0@.len() == to_add.len()
                &&& r.1@.len() == to_remove.len()
                &&& forall|k: int|
                    0 <= k < to_add.len() ==> *(#[trigger] r.0@[k]) == new@[to_add[k] as int]
                &&& forall|k: int|
                    0 <= k < to_remove.len() ==> *(#[trigger] r.1@[k]) == curr@[to_remove[k] as int]
            },
{
    let curr_keys = keys_of(curr, &key);
    let new_keys = keys_of(new, &key);
    let add_indices = difference_indices(&new_keys, &curr_keys);
    let remove_indices = difference_indices(&curr_keys, &new_keys);
    let to_add = pick(new, &add_indices);
    let to_remove = pick(curr, &remove_indices);
    (to_add, to_remove)
}

fn keys_of<T, F: Fn(&T) -> i64>(items: &[T], key: &F) -> (keys: Vec<i64>)
    requires
        forall|t: &T| #[trigger] key.requires((t,)),
    ensures
        keys@.len() == items@.len(),
        forall|i: int| 0 <= i < items@.len() ==> key.ensures((&items@[i],), #[trigger] keys@[i]),
{
    let mut keys: Vec<i64> = Vec::new();
    let mut i: usize = 0;
    while i < items.len()
        invariant
            i <= items.len(),
            keys@.len() == i,
            forall|t: &T| #[trigger] key.requires((t,)),
            forall|j: int| 0 <= j < i ==> key.ensures((&items@[j],), #[trigger] keys@[j]),
        decreases items.len() - i,
    {
        let k = key(&items[i]);
        keys.push(k);
        i += 1;
    }
    keys
}

fn pick<'a, T>(items: &'a [T], indices: &Vec<usize>) -> (out: Vec<&'a T>)
    requires
        forall|k: int| 0 <= k < indices@.len() ==> (#[trigger] indices@[k]) < items@.len(),
    ensures
        out@.len() == indices@.len(),
        forall|k: int| 0 <= k < indices@.len() ==> *(#[trigger] out@[k]) == items@[indices@[k] as int],
{
    let mut out: Vec<&'a T> = Vec::new();
    let mut i: usize = 0;
    while i < indices.len()
        invariant
            i <= indices.len(),
            out@.len() == i,
            forall|k: int| 0 <= k < indices@.len() ==> (#[trigger] indices@[k]) < items@.len(),
            forall|k: int| 0 <= k < i ==> *(#[trigger] out@[k]) == items@[indices@[k] as int],
        decreases indices.len() - i,
    {
        out.push(&items[indices[i]]);
        i += 1;
    }
    out
}

} // verus!
