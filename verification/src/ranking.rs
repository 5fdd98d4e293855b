//! Choosing the most active entries.
use vstd::prelude::*;
use vstd::set_lib::lemma_subset_equality;

verus! {

/// How many flags are set.
pub open spec fn count_set(flags: Seq<bool>) -> nat
    decreases flags.len(),
{
    if flags.len() == 0 {
        0
    } else {
        count_set(flags.drop_last()) + if flags.last() {
            1nat
        } else {
            0nat
        }
    }
}

/// `flags` selects as many positions as `limit` allows, and no position left
/// out has a higher count than a selected one.
pub open spec fn is_top_k(counts: Seq<usize>, limit: nat, flags: Seq<bool>) -> bool {
    &&& flags.len() == counts.len()
    &&& count_set(flags) == if limit < counts.len() {
        limit
    } else {
        counts.len()
    }
    &&& forall|i: int, j: int|
        0 <= i < counts.len() && 0 <= j < counts.len() && flags[i] && !flags[j]
            ==> #[trigger] counts[i] >= #[trigger] counts[j]
}

/// `chosen` holds as many keys as `limit` allows, and no key left out has a
/// higher count than a chosen one.
pub open spec fn is_top_keys<K>(counts: Map<K, usize>, limit: nat, chosen: Set<K>) -> bool {
    &&& chosen.finite()
    &&& chosen.subset_of(counts.dom())
    &&& chosen.len() == if limit < counts.dom().len() {
        limit
    } else {
        counts.dom().len()
    }
    &&& forall|a: K, b: K|
        chosen.contains(a) && counts.dom().contains(b) && !chosen.contains(b)
            ==> #[trigger] counts[a] >= #[trigger] counts[b]
}

pub proof fn lemma_count_set_update(flags: Seq<bool>, i: int)
    requires
        0 <= i < flags.len(),
        !flags[i],
    ensures
        count_set(flags.update(i, true)) == count_set(flags) + 1,
    decreases flags.len(),
{
    let after = flags.update(i, true);
    if i == flags.len() - 1 {
        assert(after.drop_last() =~= flags.drop_last());
    } else {
        assert(after.drop_last() =~= flags.drop_last().update(i, true));
        lemma_count_set_update(flags.drop_last(), i);
    }
}

pub proof fn lemma_count_set_none(flags: Seq<bool>)
    requires
        forall|i: int| 0 <= i < flags.len() ==> !flags[i],
    ensures
        count_set(flags) == 0,
    decreases flags.len(),
{
    if flags.len() > 0 {
        lemma_count_set_none(flags.drop_last());
    }
}

/// Selects the `limit` positions with the highest counts, and returns how many
/// were selected. Of equal counts the earlier position wins.
pub fn top_k(counts: &Vec<usize>, limit: usize) -> (r: (Vec<bool>, usize))
    ensures
        is_top_k(counts@, limit as nat, r.0@),
        r.1 == count_set(r.0@),
        forall|i: int, j: int|
            0 <= i < j < counts@.len() && r.0@[j] && #[trigger] counts@[i] == #[trigger] counts@[j]
                ==> r.0@[i],
{
    let n: usize = counts.len();
    let mut flags: Vec<bool> = Vec::new();
    let mut i: usize = 0;
    while i < n
        invariant
            i <= n,
            flags@.len() == i,
            forall|j: int| 0 <= j < i ==> !flags@[j],
        decreases n - i,
    {
        flags.push(false);
        i = i + 1;
    }
    proof {
        lemma_count_set_none(flags@);
    }
    let wanted: usize = if limit < n { limit } else { n };
    let mut chosen: usize = 0;
    while chosen < wanted
        invariant
            n == counts@.len(),
            flags@.len() == n,
            chosen <= wanted <= n,
            count_set(flags@) == chosen,
            forall|a: int, b: int|
                0 <= a < n && 0 <= b < n && flags@[a] && !flags@[b] ==> #[trigger] counts@[a]
                    >= #[trigger] counts@[b],
            forall|a: int, b: int|
                0 <= a < b < n && flags@[b] && #[trigger] counts@[a] == #[trigger] counts@[b]
                    ==> flags@[a],
        decreases wanted - chosen,
    {
        let mut best: Option<usize> = None;
        let mut k: usize = 0;
        while k < n
            invariant
                n == counts@.len(),
                flags@.len() == n,
                k <= n,
                best matches Some(b) ==> b < n && !flags@[b as int],
                best is None ==> forall|j: int| 0 <= j < k ==> flags@[j],
                best matches Some(b) ==> forall|j: int|
                    0 <= j < k && !flags@[j] ==> counts@[b as int] >= #[trigger] counts@[j],
                best matches Some(b) ==> forall|j: int|
                    0 <= j < b && !flags@[j] ==> counts@[b as int] > #[trigger] counts@[j],
            decreases n - k,
        {
            if !flags[k] {
                match best {
                    None => {
                        best = Some(k);
                    },
                    Some(b) => {
                        if counts[k] > counts[b] {
                            best = Some(k);
                        }
                    },
                }
            }
            k = k + 1;
        }
        match best {
            Some(b) => {
                proof {
                    lemma_count_set_update(flags@, b as int);
                }
                flags.set(b, true);
                chosen = chosen + 1;
            },
            None => {
                proof {
                    lemma_all_set(flags@);
                }
            },
        }
    }
    (flags, chosen)
}

/// The most active keys are chosen: all of them where they fit, and else as
/// many as the limit allows; none where the limit is zero, and never one in
/// place of a more active one.
pub proof fn law_most_active_are_chosen<K>(counts: Map<K, usize>, limit: nat, chosen: Set<K>)
    requires
        counts.dom().finite(),
        is_top_keys(counts, limit, chosen),
    ensures
        chosen.len() <= limit,
        chosen.subset_of(counts.dom()),
        counts.dom().len() > limit ==> chosen.len() == limit,
        counts.dom().len() <= limit ==> chosen == counts.dom(),
        limit == 0 ==> chosen == Set::<K>::empty(),
        forall|a: K, b: K|
            counts.dom().contains(a) && chosen.contains(b) && #[trigger] counts[a]
                > #[trigger] counts[b] ==> chosen.contains(a),
{
    if counts.dom().len() <= limit {
        lemma_subset_equality(chosen, counts.dom());
    }
    if limit == 0 {
        chosen.lemma_len0_is_empty();
    }
}

proof fn lemma_all_set(flags: Seq<bool>)
    requires
        forall|i: int| 0 <= i < flags.len() ==> flags[i],
    ensures
        count_set(flags) == flags.len(),
    decreases flags.len(),
{
    if flags.len() > 0 {
        lemma_all_set(flags.drop_last());
    }
}

} // verus!
