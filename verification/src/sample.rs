//! A worked example of a type the generator is pointed at: a small native
//! class with a constructor taking a path and a list of key/value pairs, and
//! a numeric method with a fallible result. The integration tests run the
//! generator over this type's declarations and drive the generated adapters'
//! semantics against these native functions.

use vstd::prelude::*;

use crate::seqs::{lemma_prefix_full, lemma_prefix_step};

verus! {

/// One key/value pair.
pub struct KV {
    pub k: String,
    pub v: String,
}

/// A list of key/value pairs, as the constructor takes them across the
/// boundary.
pub struct MapLike {
    pub map: Vec<KV>,
}

/// The view of a pair list as character sequences.
pub open spec fn kv_view(s: Seq<KV>) -> Seq<(Seq<char>, Seq<char>)> {
    s.map(|i: int, p: KV| (p.k@, p.v@))
}

/// The keyed map a pair list denotes: each pair inserted in order, so a later
/// pair overrides an earlier one with the same key.
pub open spec fn spec_pairs_map(pairs: Seq<(Seq<char>, Seq<char>)>) -> Map<Seq<char>, Seq<char>>
    decreases pairs.len(),
{
    if pairs.len() == 0 {
        Map::empty()
    } else {
        spec_pairs_map(pairs.drop_last()).insert(pairs.last().0, pairs.last().1)
    }
}

/// Whether the keys of a pair list are pairwise distinct.
pub open spec fn spec_unique_keys(pairs: Seq<(Seq<char>, Seq<char>)>) -> bool {
    forall|i: int, j: int|
        0 <= i < j < pairs.len() ==> (#[trigger] pairs[i]).0 != (#[trigger] pairs[j]).0
}

/// Replacing the value at the position of a unique key denotes the same map
/// as inserting that key.
proof fn lemma_pairs_map_update(
    pairs: Seq<(Seq<char>, Seq<char>)>,
    idx: int,
    k: Seq<char>,
    v: Seq<char>,
)
    requires
        0 <= idx < pairs.len(),
        pairs[idx].0 == k,
        forall|j: int| 0 <= j < pairs.len() && j != idx ==> (#[trigger] pairs[j]).0 != k,
    ensures
        spec_pairs_map(pairs.update(idx, (k, v))) == spec_pairs_map(pairs).insert(k, v),
    decreases pairs.len(),
{
    let upd = pairs.update(idx, (k, v));
    if idx == pairs.len() - 1 {
        assert(upd.drop_last() =~= pairs.drop_last());
        assert(spec_pairs_map(upd) == spec_pairs_map(pairs.drop_last()).insert(k, v));
        assert(spec_pairs_map(pairs.drop_last()).insert(k, pairs.last().1).insert(k, v)
            =~= spec_pairs_map(pairs.drop_last()).insert(k, v));
    } else {
        assert(upd.drop_last() =~= pairs.drop_last().update(idx, (k, v)));
        assert(forall|j: int|
            0 <= j < pairs.len() - 1 ==> #[trigger] pairs.drop_last()[j] == pairs[j]);
        lemma_pairs_map_update(pairs.drop_last(), idx, k, v);
        let last = pairs.last();
        assert(upd.last() == last);
        assert(spec_pairs_map(upd) == spec_pairs_map(pairs.drop_last()).insert(k, v).insert(
            last.0,
            last.1,
        ));
        assert(last.0 != k);
        assert(spec_pairs_map(pairs.drop_last()).insert(k, v).insert(last.0, last.1)
            =~= spec_pairs_map(pairs.drop_last()).insert(last.0, last.1).insert(k, v));
    }
}

impl MapLike {
    /// Folds the pair list into one with pairwise-distinct keys denoting the
    /// same map: each pair is inserted in order, a later pair replacing an
    /// earlier one with the same key.
    #[verifier::loop_isolation(false)]
    pub fn into_map(self) -> (r: Vec<KV>)
        ensures
            spec_unique_keys(kv_view(r@)),
            spec_pairs_map(kv_view(r@)) == spec_pairs_map(kv_view(self.map@)),
    {
        let map = self.map;
        let ghost all = kv_view(map@);
        let mut out: Vec<KV> = Vec::new();
        let mut i: usize = 0;
        let n = map.len();
        while i < n
            invariant
                0 <= i <= all.len(),
                n == all.len(),
                spec_unique_keys(kv_view(out@)),
                spec_pairs_map(kv_view(out@)) == spec_pairs_map(all.subrange(0, i as int)),
            decreases n - i,
        {
            proof {
                lemma_prefix_step(all, i as int);
            }
            let kv = KV { k: map[i].k.clone(), v: map[i].v.clone() };
            proof {
                assert((kv.k@, kv.v@) == all[i as int]);
            }
            let mut found: Option<usize> = None;
            let mut j: usize = 0;
            while j < out.len()
                invariant
                    0 <= j <= out@.len(),
                    found is None,
                    forall|t: int| 0 <= t < j ==> (#[trigger] kv_view(out@)[t]).0 != kv.k@,
                decreases out@.len() - j,
            {
                if crate::text::str_eq(out[j].k.as_str(), kv.k.as_str()) {
                    found = Some(j);
                    proof {
                        assert(kv_view(out@)[j as int].0 == kv.k@);
                    }
                    break;
                }
                j = j + 1;
            }
            let ghost out_pre = kv_view(out@);
            match found {
                Some(idx) => {
                    out.set(idx, kv);
                    proof {
                        assert(kv_view(out@) =~= out_pre.update(
                            idx as int,
                            (all[i as int].0, all[i as int].1),
                        ));
                        assert(out_pre[idx as int].0 == all[i as int].0);
                        assert(forall|t: int|
                            0 <= t < out_pre.len() && t != idx ==> (#[trigger] out_pre[t]).0
                                != all[i as int].0);
                        lemma_pairs_map_update(
                            out_pre,
                            idx as int,
                            all[i as int].0,
                            all[i as int].1,
                        );
                        assert(spec_unique_keys(kv_view(out@)));
                    }
                },
                None => {
                    out.push(kv);
                    proof {
                        assert(kv_view(out@) =~= out_pre.push((all[i as int].0, all[i as int].1)));
                        assert(kv_view(out@).drop_last() =~= out_pre);
                        assert(spec_unique_keys(kv_view(out@)));
                    }
                },
            }
            i = i + 1;
        }
        proof {
            lemma_prefix_full(all);
        }
        out
    }
}

/// The example native class: a path, a keyed map and a stored number.
pub struct TestStruct {
    pub a_path: String,
    pub a_map: Vec<KV>,
    pub my_val: i32,
}

impl TestStruct {
    /// The annotated constructor: builds the native value from a path and a
    /// pair list. Always succeeds, folding the pairs into a keyed map.
    pub fn constructor(a_path: String, map_like: MapLike) -> (r: Result<TestStruct, String>)
        ensures
            r matches Ok(t) && t.a_path@ == a_path@ && t.my_val == 0 && spec_unique_keys(
                kv_view(t.a_map@),
            ) && spec_pairs_map(kv_view(t.a_map@)) == spec_pairs_map(kv_view(map_like.map@)),
    {
        let a_map = map_like.into_map();
        Ok(TestStruct { a_path, a_map, my_val: 0 })
    }

    /// The annotated fallible method: rejects a second argument of `-1` with
    /// a fixed failure text; otherwise stores it and returns the sum of the
    /// two arguments.
    pub fn take_numeric_return_result(&mut self, u_32: u32, i_32: i32) -> (r: Result<
        i32,
        &'static str,
    >)
        requires
            u_32 <= i32::MAX as u32,
            i_32 as int + u_32 as int <= i32::MAX as int,
        ensures
            i_32 == -1 ==> (r matches Err(m) && m@ == "Second arg was -1"@ && *final(self)
                == *old(self)),
            i_32 != -1 ==> (r matches Ok(v) && v as int == i_32 as int + u_32 as int
                && final(self).my_val == i_32 && final(self).a_path == old(self).a_path
                && final(self).a_map == old(self).a_map),
    {
        if i_32 == -1 {
            Err("Second arg was -1")
        } else {
            self.my_val = i_32;
            Ok(i_32 + u_32 as i32)
        }
    }
}

} // verus!
