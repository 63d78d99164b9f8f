//! Fade bookkeeping: per-id fade progress counted in engine ticks.
//!
//! A fade table maps a voice id to the number of steps already taken. One
//! step is taken per tick; an entry whose count reaches the profile's step
//! total is finished and leaves the table. Two profiles exist: the normal
//! one finishes in four ticks, the scheduler one in forty.
use vstd::prelude::*;
use crate::strmap::StrMap;

verus! {

/// Steps of a user-cadence fade: four ticks, about 200 ms.
pub const FADE_STEPS: u32 = 4;

/// Steps of a scheduler-cadence fade: forty ticks, about 2000 ms.
pub const SCHEDULER_FADE_STEPS: u32 = 40;

/// Gain change per tick of a user-cadence volume transition, in
/// thousandths: about 400 ms for a full-scale move.
pub const VOLUME_TRANSITION_SPEED: u32 = 80;

/// Gain change per tick of a scheduler-cadence volume transition, in
/// thousandths: about 2000 ms for a full-scale move.
pub const SCHEDULER_VOLUME_TRANSITION_SPEED: u32 = 25;

/// Some entry of `s` views as `id`.
pub open spec fn str_vec_has(s: Seq<String>, id: Seq<char>) -> bool {
    exists|i: int| 0 <= i < s.len() && s[i]@ == id
}

/// Every step count of the table is small enough to advance without
/// overflow.
pub open spec fn steps_bounded(table: StrMap<u32>) -> bool {
    forall|id: Seq<char>| table.has(id) ==> table.value_of(id) <= 1000000
}

/// How one tick moves a fade table: entries advance one step, and an
/// entry that reaches the step total leaves.
pub open spec fn fade_table_step(pre: StrMap<u32>, post: StrMap<u32>, total: u32) -> bool {
    &&& forall|id: Seq<char>| post.has(id) <==> (pre.has(id) && pre.value_of(id) + 1 < total)
    &&& forall|id: Seq<char>|
        #[trigger] post.has(id) ==> post.value_of(id) == pre.value_of(id) + 1
}

/// Across any run of ticks, a surviving fade entry's step count is at
/// least the number of ticks taken: steps only ever climb.
pub proof fn lemma_fade_steps_climb(tables: Seq<StrMap<u32>>, total: u32, id: Seq<char>, j: int)
    requires
        0 <= j < tables.len(),
        forall|k: int|
            0 <= k < tables.len() - 1 ==> fade_table_step(
                #[trigger] tables[k],
                tables[k + 1],
                total,
            ),
        tables[j].has(id),
    ensures
        tables[j].value_of(id) >= j,
    decreases j,
{
    if j > 0 {
        assert(fade_table_step(tables[j - 1], tables[j], total));
        lemma_fade_steps_climb(tables, total, id, j - 1);
    }
}

/// A fade entry cannot outlive its step total: along any run of at least
/// that many ticks of the table, the id is gone at the end — a stopped
/// voice leaves within the fade's step count of ticks.
pub proof fn lemma_fade_completes(tables: Seq<StrMap<u32>>, total: u32, id: Seq<char>)
    requires
        total >= 1,
        tables.len() > total,
        forall|k: int|
            0 <= k < tables.len() - 1 ==> fade_table_step(
                #[trigger] tables[k],
                tables[k + 1],
                total,
            ),
    ensures
        !tables.last().has(id),
{
    let last = tables.len() - 1;
    if tables.last().has(id) {
        lemma_fade_steps_climb(tables, total, id, last);
        assert(fade_table_step(tables[last - 1], tables[last], total));
        assert(tables[last].value_of(id) == tables[last - 1].value_of(id) + 1);
        assert(tables[last - 1].value_of(id) + 1 < total);
        assert(tables[last].value_of(id) >= last >= total);
        assert(false);
    }
}

/// Advance every fade of the table by one step against the given step
/// total. Entries that reach the total are finished: they leave the table
/// and their ids are returned, each id once.
pub fn advance_fades(table: &mut StrMap<u32>, total: u32) -> (done: Vec<String>)
    requires
        old(table).wf(),
        1 <= total <= 1000000,
        steps_bounded(*old(table)),
    ensures
        final(table).wf(),
        steps_bounded(*final(table)),
        fade_table_step(*old(table), *final(table), total),
        forall|id: Seq<char>|
            final(table).has(id) <==> (old(table).has(id) && old(table).value_of(id) + 1
                < total),
        forall|id: Seq<char>|
            final(table).has(id) ==> final(table).value_of(id) == old(table).value_of(id)
                + 1,
        forall|id: Seq<char>|
            str_vec_has(done@, id) <==> (old(table).has(id) && old(table).value_of(id) + 1
                >= total),
        forall|j: int, k: int| 0 <= j < k < done@.len() ==> done@[j]@ !== done@[k]@,
{
    let n = table.len();
    let mut kept: StrMap<u32> = StrMap::new();
    let mut done: Vec<String> = Vec::new();
    let mut i: usize = 0;
    while i < n
        invariant
            1 <= total <= 1000000,
            table.wf(),
            steps_bounded(*table),
            n == table.len_spec(),
            i <= n,
            kept.wf(),
            forall|id: Seq<char>|
                kept.has(id) <==> (exists|k: int|
                    0 <= k < i && table.keys_view()[k] == id && table.vals_view()[k] + 1
                        < total),
            forall|id: Seq<char>|
                kept.has(id) ==> kept.value_of(id) == table.value_of(id) + 1,
            forall|id: Seq<char>|
                str_vec_has(done@, id) <==> (exists|k: int|
                    0 <= k < i && table.keys_view()[k] == id && table.vals_view()[k] + 1
                        >= total),
            forall|j: int, k: int| 0 <= j < k < done@.len() ==> done@[j]@ !== done@[k]@,
        decreases n - i,
    {
        let id = table.key_at(i).clone();
        let step = *table.val_at(i);
        proof {
            table.lemma_at(i as int);
        }
        let ghost ii = i as int;
        let ghost kid = table.keys_view()[ii];
        if step >= total - 1 {
            let ghost done0 = done@;
            done.push(id);
            proof {
                assert(done@ == done0.push(id));
                assert(done@[done0.len() as int]@ == kid);
                assert(forall|j: int| 0 <= j < done0.len() ==> done@[j] == done0[j]);
                assert(!str_vec_has(done0, kid)) by {
                    if str_vec_has(done0, kid) {
                        let k = choose|k: int|
                            0 <= k < ii && table.keys_view()[k] == kid
                                && table.vals_view()[k] + 1 >= total;
                    }
                }
                assert forall|j: int, k: int|
                    0 <= j < k < done@.len() implies done@[j]@ !== done@[k]@ by {
                    if k == done@.len() - 1 {
                        assert(done@[j] == done0[j]);
                        if done@[j]@ == kid {
                            assert(str_vec_has(done0, kid));
                        }
                    }
                }
                assert forall|id2: Seq<char>|
                    str_vec_has(done@, id2) implies (exists|k: int|
                        0 <= k <= ii && table.keys_view()[k] == id2 && table.vals_view()[k]
                            + 1 >= total) by {
                    let j = choose|j: int| 0 <= j < done@.len() && done@[j]@ == id2;
                    if j < done0.len() {
                        assert(str_vec_has(done0, id2));
                        let k = choose|k: int|
                            0 <= k < ii && table.keys_view()[k] == id2
                                && table.vals_view()[k] + 1 >= total;
                    } else {
                        assert(table.keys_view()[ii] == id2);
                    }
                }
                assert forall|id2: Seq<char>|
                    (exists|k: int|
                        0 <= k <= ii && table.keys_view()[k] == id2 && table.vals_view()[k]
                            + 1 >= total) implies str_vec_has(done@, id2) by {
                    let k = choose|k: int|
                        0 <= k <= ii && table.keys_view()[k] == id2 && table.vals_view()[k]
                            + 1 >= total;
                    if k < ii {
                        assert(str_vec_has(done0, id2));
                        let j = choose|j: int| 0 <= j < done0.len() && done0[j]@ == id2;
                        assert(done@[j]@ == id2);
                    } else {
                        assert(done@[done0.len() as int]@ == id2);
                    }
                }
            }
        } else {
            let ghost kept0 = kept;
            kept.set(&id, step + 1);
            proof {
                assert forall|id2: Seq<char>|
                    kept.has(id2) implies (exists|k: int|
                        0 <= k <= ii && table.keys_view()[k] == id2 && table.vals_view()[k]
                            + 1 < total) by {
                    if id2 == kid {
                        assert(table.keys_view()[ii] == id2 && table.vals_view()[ii] + 1
                            < total);
                    } else {
                        assert(kept0.has(id2));
                        let k = choose|k: int|
                            0 <= k < ii && table.keys_view()[k] == id2
                                && table.vals_view()[k] + 1 < total;
                    }
                }
                assert forall|id2: Seq<char>|
                    (exists|k: int|
                        0 <= k <= ii && table.keys_view()[k] == id2 && table.vals_view()[k]
                            + 1 < total) implies kept.has(id2) by {
                    let k = choose|k: int|
                        0 <= k <= ii && table.keys_view()[k] == id2 && table.vals_view()[k]
                            + 1 < total;
                    if k < ii {
                        assert(kept0.has(id2));
                    } else {
                        assert(id2 == kid);
                    }
                }
                assert forall|id2: Seq<char>|
                    kept.has(id2) implies kept.value_of(id2) == table.value_of(id2)
                        + 1 by {
                    if id2 == kid {
                        assert(kept.value_of(id2) == table.vals_view()[ii] + 1);
                        assert(table.value_of(kid) == table.vals_view()[ii]);
                    } else {
                        assert(kept0.has(id2));
                        assert(kept.value_of(id2) == kept0.value_of(id2));
                    }
                }
            }
        }
        i += 1;
    }
    proof {
        let pre = *table;
        assert forall|id: Seq<char>|
            kept.has(id) <==> (pre.has(id) && pre.value_of(id) + 1 < total) by {
            if pre.has(id) {
                let k = pre.index_of(id);
                pre.lemma_at(k);
            }
            if kept.has(id) {
                let k = choose|k: int|
                    0 <= k < n && pre.keys_view()[k] == id && pre.vals_view()[k] + 1 < total;
                pre.lemma_at(k);
            }
        }
        assert forall|id: Seq<char>|
            str_vec_has(done@, id) <==> (pre.has(id) && pre.value_of(id) + 1 >= total) by {
            if pre.has(id) {
                let k = pre.index_of(id);
                pre.lemma_at(k);
            }
            if str_vec_has(done@, id) {
                let k = choose|k: int|
                    0 <= k < n && pre.keys_view()[k] == id && pre.vals_view()[k] + 1
                        >= total;
                pre.lemma_at(k);
            }
        }
    }
    *table = kept;
    done
}

} // verus!
