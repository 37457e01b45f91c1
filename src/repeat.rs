use vstd::prelude::*;

verus! {

/// Decides, at the end of each playthrough, whether to play again.
pub enum Repeat<F> {
    /// `Count(total, remaining)`: play `total` times in all.
    Count(u32, u32),
    /// Never plays again: each playthrough is the last.
    Indefinite,
    /// Asks the predicate at every playthrough's end.
    Function(F),
}

/// The remaining count after one more playthrough ends, and whether to play
/// again: an exhausted count is refilled from the total first.
pub open spec fn count_step(total: u32, remaining: u32) -> (u32, bool) {
    let c = if remaining == 0 {
        total
    } else {
        remaining
    };
    if c == 0 {
        (0, false)
    } else {
        ((c - 1) as u32, c - 1 != 0)
    }
}

/// The remaining count after `k` more playthroughs end.
pub open spec fn count_after(total: u32, remaining: u32, k: nat) -> u32
    decreases k,
{
    if k == 0 {
        remaining
    } else {
        count_step(total, count_after(total, remaining, (k - 1) as nat)).0
    }
}

/// Whether the `k`-th playthrough end (counting from one) asks to play again.
pub open spec fn count_answer(total: u32, remaining: u32, k: nat) -> bool
    recommends
        k >= 1,
{
    count_step(total, count_after(total, remaining, (k - 1) as nat)).1
}

impl<F: Fn() -> bool> Repeat<F> {
    /// Whether the predicate, if there is one, may be called.
    pub open spec fn callable(&self) -> bool {
        match self {
            Repeat::Function(f) => f.requires(()),
            _ => true,
        }
    }

    /// How one consultation may leave the policy, with answer `again`.
    pub open spec fn next(self, after: Self, again: bool) -> bool {
        match self {
            Repeat::Count(total, remaining) => {
                let (rem, a) = count_step(total, remaining);
                after == Repeat::<F>::Count(total, rem) && again == a
            },
            Repeat::Indefinite => after == Repeat::<F>::Indefinite && !again,
            Repeat::Function(f) => after == self && f.ensures((), again),
        }
    }

    pub fn count(n: u32) -> (r: Repeat<F>)
        ensures
            r == Repeat::<F>::Count(n, n),
    {
        Repeat::Count(n, n)
    }

    pub fn function(f: F) -> (r: Repeat<F>)
        ensures
            r == Repeat::Function(f),
    {
        Repeat::Function(f)
    }

    /// Consulted once per finished playthrough: whether to play again.
    pub fn shoud_continue(&mut self) -> (r: bool)
        requires
            old(self).callable(),
        ensures
            final(self).callable(),
            old(self).next(*final(self), r),
    {
        match self {
            Repeat::Count(total, remaining) => {
                if *remaining == 0 {
                    *remaining = *total;
                }
                if *remaining == 0 {
                    false
                } else {
                    *remaining = *remaining - 1;
                    *remaining != 0
                }
            },
            Repeat::Indefinite => false,
            Repeat::Function(f) => f(),
        }
    }
}

/// A count of `n` plays exactly `n` times: the first `n - 1` playthrough
/// ends ask to play again, the `n`-th does not, and the count is then
/// exhausted, so that the next `n` ends answer the same way again.
pub proof fn lemma_count_plays_n_times(n: u32)
    requires
        n >= 1,
    ensures
        forall|k: nat| 1 <= k < n ==> #[trigger] count_answer(n, n, k),
        !count_answer(n, n, n as nat),
        count_after(n, n, n as nat) == 0,
        forall|k: nat| 1 <= k <= n ==> #[trigger] count_answer(n, 0, k) == count_answer(n, n, k),
{
    assert forall|k: nat| k <= n implies #[trigger] count_after(n, n, k) == n - k by {
        lemma_count_after(n, k);
    }
    assert forall|k: nat| 1 <= k <= n implies #[trigger] count_after(n, 0, k) == count_after(
        n,
        n,
        k,
    ) by {
        lemma_count_after_from_empty(n, k);
    }
    assert forall|k: nat| 1 <= k < n implies #[trigger] count_answer(n, n, k) by {
        assert(count_after(n, n, (k - 1) as nat) == n - (k - 1));
    }
    assert(count_after(n, n, (n - 1) as nat) == 1);
    assert forall|k: nat| 1 <= k <= n implies #[trigger] count_answer(n, 0, k) == count_answer(
        n,
        n,
        k,
    ) by {
        if k == 1 {
            assert(count_after(n, 0, 0) == 0);
            assert(count_after(n, n, 0) == n);
        } else {
            assert(count_after(n, 0, (k - 1) as nat) == count_after(n, n, (k - 1) as nat));
        }
    }
}

proof fn lemma_count_after(n: u32, k: nat)
    requires
        n >= 1,
        k <= n,
    ensures
        count_after(n, n, k) == n - k,
    decreases k,
{
    if k > 0 {
        lemma_count_after(n, (k - 1) as nat);
    }
}

proof fn lemma_count_after_from_empty(n: u32, k: nat)
    requires
        n >= 1,
        1 <= k <= n,
    ensures
        count_after(n, 0, k) == count_after(n, n, k),
    decreases k,
{
    if k > 1 {
        lemma_count_after_from_empty(n, (k - 1) as nat);
    } else {
        assert(count_after(n, 0, 0) == 0);
        assert(count_after(n, n, 0) == n);
    }
}

} // verus!
