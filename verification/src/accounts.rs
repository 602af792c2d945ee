use vstd::prelude::*;

verus! {

/// The positions below `n` of the accounts that are written to the accounts
/// file, in order: those that are not Microsoft accounts (`microsoft[k]`
/// tells whether account `k` is one).
pub open spec fn saved_positions(microsoft: Seq<bool>, n: int) -> Seq<usize>
    decreases n,
{
    if n <= 0 {
        Seq::empty()
    } else {
        let r = saved_positions(microsoft, n - 1);
        if !microsoft[n - 1] {
            r.push((n - 1) as usize)
        } else {
            r
        }
    }
}

/// The accounts to write to the accounts file: all but the Microsoft ones,
/// whose tokens expire within about a day, so that a fresh one is handed
/// over at each start. `microsoft[k]` tells whether account `k` is one; the
/// positions of the accounts to write are returned in order.
pub fn saved_accounts(microsoft: &Vec<bool>) -> (r: Vec<usize>)
    ensures
        r@ == saved_positions(microsoft@, microsoft@.len() as int),
{
    let mut r: Vec<usize> = Vec::new();
    let mut k: usize = 0;
    while k < microsoft.len()
        invariant
            k <= microsoft@.len(),
            r@ == saved_positions(microsoft@, k as int),
        decreases microsoft@.len() - k,
    {
        if !microsoft[k] {
            r.push(k);
        }
        k = k + 1;
    }
    r
}

/// A saved account is never a Microsoft account, and every other account is
/// saved.
pub proof fn law_microsoft_accounts_not_saved(microsoft: Seq<bool>, n: int)
    requires
        0 <= n <= microsoft.len() <= usize::MAX,
    ensures
        forall|j: int|
            0 <= j < saved_positions(microsoft, n).len() ==> {
                let k = #[trigger] saved_positions(microsoft, n)[j];
                k < n && !microsoft[k as int]
            },
        forall|k: int|
            0 <= k < n && !microsoft[k] ==> saved_positions(microsoft, n).contains(k as usize),
    decreases n,
{
    if n > 0 {
        law_microsoft_accounts_not_saved(microsoft, n - 1);
        let r = saved_positions(microsoft, n - 1);
        if !microsoft[n - 1] {
            assert(r.push((n - 1) as usize)[r.len() as int] == (n - 1) as usize);
            assert forall|j: int| 0 <= j < r.len() + 1 implies {
                let k = #[trigger] r.push((n - 1) as usize)[j];
                k < n && !microsoft[k as int]
            } by {
                if j < r.len() {
                    assert(r.push((n - 1) as usize)[j] == r[j]);
                    assert(saved_positions(microsoft, n - 1)[j] < n - 1);
                }
            }
            assert forall|k: int| 0 <= k < n && !microsoft[k] implies r.push(
                (n - 1) as usize,
            ).contains(k as usize) by {
                if k < n - 1 {
                    let j = choose|j: int| 0 <= j < r.len() && r[j] == k as usize;
                    assert(r.push((n - 1) as usize)[j] == k as usize);
                } else {
                    assert(r.push((n - 1) as usize)[r.len() as int] == k as usize);
                }
            }
        }
    }
}

} // verus!
