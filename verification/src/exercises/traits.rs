//! Food that can be bitten, and a rabbit that bites five times.

use vstd::prelude::*;

verus! {

/// Something to eat, one bite at a time.
pub trait Bite: Sized {
    /// Whether another bite can be taken.
    spec fn can_bite(&self) -> bool;

    /// What is left after one bite.
    spec fn bitten(&self) -> Self;

    /// Takes one bite.
    fn bite(&mut self)
        requires
            old(self).can_bite(),
        ensures
            *final(self) == old(self).bitten(),
    ;
}

/// A bunch of grapes.
#[derive(Debug)]
pub struct Grapes {
    pub amount_left: i32,
}

impl Bite for Grapes {
    open spec fn can_bite(&self) -> bool {
        self.amount_left > i32::MIN
    }

    open spec fn bitten(&self) -> Grapes {
        Grapes { amount_left: (self.amount_left - 1) as i32 }
    }

    /// A bite is one grape.
    fn bite(&mut self) {
        self.amount_left -= 1;
    }
}

/// What is left of `item` after `n` bites.
pub open spec fn nibbled<T: Bite>(item: T, n: nat) -> T
    decreases n,
{
    if n == 0 {
        item
    } else {
        nibbled(item, (n - 1) as nat).bitten()
    }
}

/// Whether `n` bites can be taken of `item`, one after the other.
pub open spec fn can_nibble<T: Bite>(item: T, n: nat) -> bool
    decreases n,
{
    n == 0 || (can_nibble(item, (n - 1) as nat) && nibbled(item, (n - 1) as nat).can_bite())
}

/// Takes five bites.
pub fn bunny_nibbles<T: Bite>(item: &mut T)
    requires
        can_nibble(*old(item), 5),
    ensures
        *final(item) == nibbled(*old(item), 5),
{
    let mut taken: u8 = 0;
    while taken < 5
        invariant
            taken <= 5,
            can_nibble(*old(item), 5),
            *item == nibbled(*old(item), taken as nat),
        decreases 5 - taken,
    {
        proof {
            lemma_can_nibble_fewer(*old(item), 5, taken as nat + 1);
        }
        item.bite();
        taken += 1;
    }
}

/// Where `n` bites can be taken, so can any smaller number.
pub proof fn lemma_can_nibble_fewer<T: Bite>(item: T, n: nat, m: nat)
    requires
        can_nibble(item, n),
        m <= n,
    ensures
        can_nibble(item, m),
    decreases n,
{
    if m < n {
        lemma_can_nibble_fewer(item, (n - 1) as nat, m);
    }
}

/// Five bites of grapes are five grapes.
pub proof fn law_grapes_nibbled(grapes: Grapes)
    requires
        grapes.amount_left >= i32::MIN + 5,
    ensures
        can_nibble(grapes, 5),
        nibbled(grapes, 5) == (Grapes { amount_left: (grapes.amount_left - 5) as i32 }),
{
    reveal_with_fuel(nibbled, 6);
    reveal_with_fuel(can_nibble, 6);
}

} // verus!
