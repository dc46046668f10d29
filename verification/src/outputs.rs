use std::collections::HashMap;
use vstd::prelude::*;
use vstd::std_specs::iter::IteratorSpec;

verus! {

broadcast use vstd::std_specs::hash::group_hash_axioms;

/// `k` is a key of `keys` and no key of `keys` is smaller.
pub open spec fn is_least_key(keys: Set<i32>, k: i32) -> bool {
    &&& keys.contains(k)
    &&& forall|j: i32| #[trigger] keys.contains(j) ==> k <= j
}

/// The smallest key of a set (meaningful when the set is finite and not empty).
pub open spec fn least_key(keys: Set<i32>) -> i32 {
    choose|k: i32| is_least_key(keys, k)
}

/// The output that is shown for the wanted one `cur`: `cur` itself when the
/// script has it, else the first output in key order.
pub open spec fn fallback_output(keys: Set<i32>, cur: i32) -> i32 {
    if keys.contains(cur) {
        cur
    } else {
        least_key(keys)
    }
}

/// Two least keys of one set are the same key.
pub proof fn lemma_least_key_unique(keys: Set<i32>, a: i32, b: i32)
    requires
        is_least_key(keys, a),
        is_least_key(keys, b),
    ensures
        a == b,
{
}

/// The smallest key of a map that is not empty.
pub fn smallest_key<V>(outputs: &HashMap<i32, V>) -> (k: i32)
    requires
        !outputs@.is_empty(),
    ensures
        is_least_key(outputs@.dom(), k),
        k == least_key(outputs@.dom()),
{
    let ghost all: Seq<i32> = vstd::std_specs::hash::spec_keys_iter(outputs).remaining().unref();
    let mut best: Option<i32> = None;
    for key in it: outputs.keys()
        invariant
            it.seq().unref() == all,
            all.to_set() == outputs@.dom(),
            best is None <==> it.index() == 0,
            best matches Some(b) ==> {
                &&& outputs@.dom().contains(b)
                &&& forall|i: int| 0 <= i < it.index() ==> b <= #[trigger] all[i]
            },
    {
        match best {
            None => { best = Some(*key); },
            Some(b) => {
                if *key < b {
                    best = Some(*key);
                }
            },
        }
    }
    let k: i32 = match best {
        Some(b) => b,
        None => {
            proof {
                let w = outputs@.dom().choose();
                assert(outputs@.dom().contains(w));
                assert(all.to_set().contains(w));
            }
            0
        },
    };
    proof {
        assert forall|j: i32| #[trigger] outputs@.dom().contains(j) implies k <= j by {
            assert(all.to_set().contains(j));
            let i = choose|i: int| 0 <= i < all.len() && all[i] == j;
            assert(k <= all[i]);
        }
        assert(is_least_key(outputs@.dom(), k));
        let c = least_key(outputs@.dom());
        assert(is_least_key(outputs@.dom(), c));
        lemma_least_key_unique(outputs@.dom(), k, c);
    }
    k
}

/// The keys of a map, each once, in the map's own order.
pub fn output_keys<V>(outputs: &HashMap<i32, V>) -> (keys: Vec<i32>)
    ensures
        keys@.to_set() == outputs@.dom(),
        keys@.no_duplicates(),
{
    let ghost all: Seq<i32> = vstd::std_specs::hash::spec_keys_iter(outputs).remaining().unref();
    let mut keys: Vec<i32> = Vec::new();
    for key in it: outputs.keys()
        invariant
            it.seq().unref() == all,
            all.to_set() == outputs@.dom(),
            all.no_duplicates(),
            keys@ == all.take(it.index()),
    {
        keys.push(*key);
        proof {
            assert(all.take(it.index() + 1) =~= all.take(it.index()).push(all[it.index()]));
        }
    }
    proof {
        assert(all.take(all.len() as int) =~= all);
    }
    keys
}

/// The output to show when `cur` is wanted: `cur` itself when `outputs` has
/// it, else the output with the smallest key.
pub fn choose_output<V>(outputs: &HashMap<i32, V>, cur: i32) -> (k: i32)
    requires
        !outputs@.is_empty(),
    ensures
        k == fallback_output(outputs@.dom(), cur),
        outputs@.contains_key(k),
        !outputs@.contains_key(cur) ==> forall|j: i32| #[trigger] outputs@.contains_key(j) ==> k <= j,
{
    if outputs.contains_key(&cur) {
        cur
    } else {
        smallest_key(outputs)
    }
}

} // verus!
