use vstd::prelude::*;

verus! {

/// Player currency used to build and upgrade towers.
#[derive(Debug, Clone, Copy, PartialEq, Eq, Structural)]
pub struct Economy {
    pub money: u32,
    pub total_earned: u32,
    pub total_spent: u32,
}

impl Economy {
    /// The ledger balances: what is held plus what was spent is what was earned.
    pub open spec fn balanced(self) -> bool {
        self.money + self.total_spent == self.total_earned
    }

    /// The state after a successful purchase of `cost`.
    pub open spec fn after_spend(self, cost: u32) -> Economy {
        Economy {
            money: (self.money - cost) as u32,
            total_earned: self.total_earned,
            total_spent: (self.total_spent + cost) as u32,
        }
    }

    /// The state after receiving `amount`.
    pub open spec fn after_earn(self, amount: u32) -> Economy {
        Economy {
            money: (self.money + amount) as u32,
            total_earned: (self.total_earned + amount) as u32,
            total_spent: self.total_spent,
        }
    }

    /// A purchase of `cost` would not overflow the spending total.
    pub open spec fn spend_fits(self, cost: u32) -> bool {
        self.money >= cost ==> self.total_spent + cost <= u32::MAX
    }

    /// Receiving `amount` would overflow neither the purse nor the earnings total.
    pub open spec fn earn_fits(self, amount: u32) -> bool {
        &&& self.money + amount <= u32::MAX
        &&& self.total_earned + amount <= u32::MAX
    }

    pub fn can_afford(&self, cost: u32) -> (b: bool)
        ensures
            b == (self.money >= cost),
    {
        self.money >= cost
    }

    /// Spends `cost` if affordable; returns whether the purchase happened.
    pub fn spend(&mut self, cost: u32) -> (ok: bool)
        requires
            old(self).spend_fits(cost),
        ensures
            ok == (old(self).money >= cost),
            ok ==> *final(self) == old(self).after_spend(cost),
            !ok ==> *final(self) == *old(self),
    {
        if self.can_afford(cost) {
            self.money = self.money - cost;
            self.total_spent = self.total_spent + cost;
            true
        } else {
            false
        }
    }

    pub fn earn(&mut self, amount: u32)
        requires
            old(self).earn_fits(amount),
        ensures
            *final(self) == old(self).after_earn(amount),
    {
        self.money = self.money + amount;
        self.total_earned = self.total_earned + amount;
    }
}

impl Default for Economy {
    fn default() -> (e: Self)
        ensures
            e == (Economy { money: 200, total_earned: 200, total_spent: 0 }),
    {
        Economy { money: 200, total_earned: 200, total_spent: 0 }
    }
}

/// The starting economy balances, and every purchase and every reward keeps
/// it balanced: money held plus money spent always equals money earned.
pub proof fn law_ledger_balanced(e: Economy, cost: u32, amount: u32)
    requires
        e.balanced(),
    ensures
        (Economy { money: 200, total_earned: 200, total_spent: 0 }).balanced(),
        e.money >= cost && e.spend_fits(cost) ==> e.after_spend(cost).balanced(),
        e.earn_fits(amount) ==> e.after_earn(amount).balanced(),
{
}

/// A purchase takes exactly its cost from the purse and adds exactly its cost
/// to the spending total, leaving earnings alone; a reward adds exactly its
/// amount to the purse and to the earnings, leaving spending alone; and a
/// purchase of everything held empties the purse.
pub proof fn law_spend_and_earn_amounts(e: Economy, cost: u32, amount: u32)
    requires
        e.money >= cost,
        e.spend_fits(cost),
        e.earn_fits(amount),
    ensures
        e.after_spend(cost).money + cost == e.money,
        e.after_spend(cost).total_spent == e.total_spent + cost,
        e.after_spend(cost).total_earned == e.total_earned,
        e.after_earn(amount).money == e.money + amount,
        e.after_earn(amount).total_earned == e.total_earned + amount,
        e.after_earn(amount).total_spent == e.total_spent,
        e.after_spend(e.money).money == 0,
{
}

/// Spending what was just earned gives back the money held before.
pub proof fn law_earn_then_spend_restores_money(e: Economy, amount: u32)
    requires
        e.earn_fits(amount),
    ensures
        e.after_earn(amount).money >= amount,
        e.after_earn(amount).after_spend(amount).money == e.money,
{
}

} // verus!
