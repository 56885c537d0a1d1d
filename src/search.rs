use vstd::prelude::*;
use crate::listing::Item;
use crate::text::{chars_of, is_prefix, lower_of, lowercase, starts_with};

verus! {

/// Whether an entry's full name starts with the query, ignoring case.
pub open spec fn matches_query(it: Item, query: Seq<char>) -> bool {
    is_prefix(lower_of(query), lower_of(it.name_full@))
}

/// The index reached `k` steps after `cursor`, going round a list of `n`.
pub open spec fn step_forward(cursor: int, k: int, n: int) -> int {
    (cursor + k) % n
}

/// The index reached `k` steps before `cursor`, going round a list of `n`.
pub open spec fn step_backward(cursor: int, k: int, n: int) -> int {
    (cursor + n - k) % n
}

fn item_matches(it: &Item, lower_query: &Vec<char>) -> (r: bool)
    ensures
        r == is_prefix(lower_query@, lower_of(it.name_full@)),
{
    let name = lowercase(it.name_full.as_str());
    starts_with(lower_query, &chars_of(name.as_str()))
}

/// The first entry whose name starts with `query`, ignoring case.
pub fn jump_to_first_match(items: &Vec<Item>, query: &str) -> (r: Option<usize>)
    ensures
        match r {
            Some(i) => i < items@.len() && matches_query(items@[i as int], query@) && forall|
                k: int,
            |
                0 <= k < i ==> !matches_query(#[trigger] items@[k], query@),
            None => forall|k: int|
                0 <= k < items@.len() ==> !matches_query(#[trigger] items@[k], query@),
        },
{
    let q = chars_of(lowercase(query).as_str());
    let mut i: usize = 0;
    while i < items.len()
        invariant
            q@ == lower_of(query@),
            i <= items@.len(),
            forall|k: int| 0 <= k < i ==> !matches_query(#[trigger] items@[k], query@),
        decreases items.len() - i,
    {
        if item_matches(&items[i], &q) {
            return Some(i);
        }
        i += 1;
    }
    None
}

/// The next entry after `cursor` whose name starts with `query`, going round
/// the list once; the cursor itself is tried last.
pub fn jump_to_next_match(items: &Vec<Item>, query: &str, cursor: usize) -> (r: Option<usize>)
    requires
        cursor < items@.len(),
    ensures
        match r {
            Some(i) => exists|k: int|
                1 <= k <= items@.len() && i == step_forward(cursor as int, k, items@.len() as int)
                    && matches_query(items@[i as int], query@) && forall|j: int|
                    1 <= j < k ==> !matches_query(
                        #[trigger] items@[step_forward(cursor as int, j, items@.len() as int)],
                        query@,
                    ),
            None => forall|k: int|
                0 <= k < items@.len() ==> !matches_query(#[trigger] items@[k], query@),
        },
{
    let n = items.len();
    let q = chars_of(lowercase(query).as_str());
    let mut done: usize = 0;
    while done < n
        invariant
            n == items@.len(),
            cursor < n,
            done <= n,
            q@ == lower_of(query@),
            forall|j: int|
                1 <= j <= done ==> !matches_query(
                    #[trigger] items@[step_forward(cursor as int, j, n as int)],
                    query@,
                ),
        decreases n - done,
    {
        let k = done + 1;
        let idx = if cursor < n - k { cursor + k } else { cursor - (n - k) };
        assert(idx == step_forward(cursor as int, k as int, n as int)) by {
            if cursor < n - k {
                vstd::arithmetic::div_mod::lemma_small_mod((cursor + k) as nat, n as nat);
            } else {
                vstd::arithmetic::div_mod::lemma_mod_sub_multiples_vanish((cursor + k) as int, n as int);
                vstd::arithmetic::div_mod::lemma_small_mod((cursor + k - n) as nat, n as nat);
            }
        }
        if item_matches(&items[idx], &q) {
            return Some(idx);
        }
        done += 1;
    }
    proof {
        assert forall|t: int| 0 <= t < n implies !matches_query(#[trigger] items@[t], query@) by {
            let j = if t > cursor { t - cursor } else { t + n - cursor };
            assert(step_forward(cursor as int, j, n as int) == t) by {
                if t > cursor {
                    vstd::arithmetic::div_mod::lemma_small_mod(t as nat, n as nat);
                } else {
                    vstd::arithmetic::div_mod::lemma_mod_add_multiples_vanish(t, n as int);
                    vstd::arithmetic::div_mod::lemma_small_mod(t as nat, n as nat);
                }
            }
        }
    }
    None
}

/// The previous entry before `cursor` whose name starts with `query`, going
/// round the list once; the cursor itself is tried last.
pub fn jump_to_prev_match(items: &Vec<Item>, query: &str, cursor: usize) -> (r: Option<usize>)
    requires
        cursor < items@.len(),
    ensures
        match r {
            Some(i) => exists|k: int|
                1 <= k <= items@.len() && i == step_backward(cursor as int, k, items@.len() as int)
                    && matches_query(items@[i as int], query@) && forall|j: int|
                    1 <= j < k ==> !matches_query(
                        #[trigger] items@[step_backward(cursor as int, j, items@.len() as int)],
                        query@,
                    ),
            None => forall|k: int|
                0 <= k < items@.len() ==> !matches_query(#[trigger] items@[k], query@),
        },
{
    let n = items.len();
    let q = chars_of(lowercase(query).as_str());
    let mut done: usize = 0;
    while done < n
        invariant
            n == items@.len(),
            cursor < n,
            done <= n,
            q@ == lower_of(query@),
            forall|j: int|
                1 <= j <= done ==> !matches_query(
                    #[trigger] items@[step_backward(cursor as int, j, n as int)],
                    query@,
                ),
        decreases n - done,
    {
        let k = done + 1;
        let idx = if cursor >= k { cursor - k } else { cursor + (n - k) };
        assert(idx == step_backward(cursor as int, k as int, n as int)) by {
            if cursor >= k {
                vstd::arithmetic::div_mod::lemma_mod_add_multiples_vanish((cursor - k) as int, n as int);
                vstd::arithmetic::div_mod::lemma_small_mod((cursor - k) as nat, n as nat);
            } else {
                vstd::arithmetic::div_mod::lemma_small_mod((cursor + n - k) as nat, n as nat);
            }
        }
        if item_matches(&items[idx], &q) {
            return Some(idx);
        }
        done += 1;
    }
    proof {
        assert forall|t: int| 0 <= t < n implies !matches_query(#[trigger] items@[t], query@) by {
            let j = if t < cursor { cursor - t } else { cursor + n - t };
            assert(step_backward(cursor as int, j, n as int) == t) by {
                if t < cursor {
                    vstd::arithmetic::div_mod::lemma_mod_add_multiples_vanish(t, n as int);
                    vstd::arithmetic::div_mod::lemma_small_mod(t as nat, n as nat);
                } else {
                    vstd::arithmetic::div_mod::lemma_small_mod(t as nat, n as nat);
                }
            }
        }
    }
    None
}

} // verus!
