//! The ledger as mathematics: what it holds, how each operation changes it,
//! and when each operation is refused.

use crate::balances::{entry_or_zero, total_of};
use crate::error::Error;
use vstd::prelude::*;

verus! {

/// What a ledger holds, as mathematics.
#[verifier::ext_equal]
pub struct LedgerView {
    /// Who may replace the minter; `None` until the ledger is initialized.
    pub admin: Option<u64>,
    /// Who may mint and burn; `None` until the ledger is initialized.
    pub minter: Option<u64>,
    /// The number of shares in existence.
    pub total_supply: int,
    /// The shares of each account that ever held any.
    pub balances: Map<u64, int>,
    /// What each owner lets each spender take, keyed by (owner, spender).
    pub allowances: Map<(u64, u64), int>,
}

impl LedgerView {
    /// A ledger that nobody has touched.
    pub open spec fn empty() -> LedgerView {
        LedgerView {
            admin: None,
            minter: None,
            total_supply: 0,
            balances: Map::empty(),
            allowances: Map::empty(),
        }
    }

    /// The shares of `id`; an account never seen holds none.
    pub open spec fn balance_of(self, id: u64) -> int {
        entry_or_zero(self.balances, id)
    }

    /// What `owner` lets `spender` take; a pair never approved has zero.
    pub open spec fn allowance_of(self, owner: u64, spender: u64) -> int {
        if self.allowances.contains_key((owner, spender)) {
            self.allowances[(owner, spender)]
        } else {
            0
        }
    }

    /// No balance is negative, no stored allowance is zero or negative, and
    /// the supply is the sum of the balances.
    pub open spec fn valid(self) -> bool {
        &&& self.balances.dom().finite()
        &&& forall|id: u64| self.balances.contains_key(id) ==> self.balances[id] >= 0
        &&& forall|owner: u64, spender: u64| #[trigger]
            self.allowances.contains_key((owner, spender)) ==> 0 < self.allowances[(
                owner,
                spender,
            )] <= i128::MAX
        &&& self.total_supply == total_of(self.balances)
        &&& self.total_supply <= i128::MAX
        &&& (self.admin is Some <==> self.minter is Some)
    }

    /// The ledger with `amount` added to the balance of `id`.
    pub open spec fn credit(self, id: u64, amount: int) -> LedgerView {
        LedgerView { balances: self.balances.insert(id, self.balance_of(id) + amount), ..self }
    }

    /// The ledger with `amount` taken from the balance of `id`.
    pub open spec fn debit(self, id: u64, amount: int) -> LedgerView {
        LedgerView { balances: self.balances.insert(id, self.balance_of(id) - amount), ..self }
    }

    /// The ledger after `amount` new shares went to `to`.
    pub open spec fn minted(self, to: u64, amount: int) -> LedgerView {
        LedgerView { total_supply: self.total_supply + amount, ..self.credit(to, amount) }
    }

    /// The ledger after `amount` shares of `from` ceased to exist.
    pub open spec fn burned(self, from: u64, amount: int) -> LedgerView {
        LedgerView { total_supply: self.total_supply - amount, ..self.debit(from, amount) }
    }

    /// The ledger after `amount` shares went from `from` to `to`. The credit
    /// reads the balance that the debit left, so a transfer to oneself
    /// changes no balance.
    pub open spec fn transferred(self, from: u64, to: u64, amount: int) -> LedgerView {
        self.debit(from, amount).credit(to, amount)
    }

    /// The ledger after `owner` set what `spender` may take to `amount`: an
    /// allowance of zero is not kept at all.
    pub open spec fn approved(self, owner: u64, spender: u64, amount: int) -> LedgerView {
        if amount > 0 {
            LedgerView { allowances: self.allowances.insert((owner, spender), amount), ..self }
        } else {
            LedgerView { allowances: self.allowances.remove((owner, spender)), ..self }
        }
    }

    /// The ledger after `spender` used up `amount` of what `owner` allows it.
    pub open spec fn spent(self, owner: u64, spender: u64, amount: int) -> LedgerView {
        self.approved(owner, spender, self.allowance_of(owner, spender) - amount)
    }

    /// The ledger with the stored balances `entries` added one after the
    /// other, or `None` where one of them is negative or lifts the supply out
    /// of range.
    pub open spec fn with_balances(self, entries: Seq<(u64, i128)>) -> Option<LedgerView>
        decreases entries.len(),
    {
        if entries.len() == 0 {
            Some(self)
        } else {
            let (id, amount) = entries[0];
            if amount < 0 || self.total_supply + amount > i128::MAX {
                None
            } else {
                self.minted(id, amount as int).with_balances(
                    entries.subrange(1, entries.len() as int),
                )
            }
        }
    }

    /// The ledger with the stored allowances `entries` (owner, spender,
    /// amount) set one after the other, or `None` where one is negative.
    pub open spec fn with_allowances(self, entries: Seq<(u64, u64, i128)>) -> Option<LedgerView>
        decreases entries.len(),
    {
        if entries.len() == 0 {
            Some(self)
        } else {
            let (owner, spender, amount) = entries[0];
            if amount < 0 {
                None
            } else {
                self.approved(owner, spender, amount as int).with_allowances(
                    entries.subrange(1, entries.len() as int),
                )
            }
        }
    }

    /// The ledger that a store of roles, balances and allowances stands for,
    /// or `None` where it stands for none.
    pub open spec fn stored(
        roles: Option<(u64, u64)>,
        balances: Seq<(u64, i128)>,
        allowances: Seq<(u64, u64, i128)>,
    ) -> Option<LedgerView> {
        let blank = match roles {
            Some((admin, minter)) => LedgerView {
                admin: Some(admin),
                minter: Some(minter),
                ..LedgerView::empty()
            },
            None => LedgerView::empty(),
        };
        match blank.with_balances(balances) {
            None => None,
            Some(ledger) => ledger.with_allowances(allowances),
        }
    }

    /// Whether, and why, binding the admin and the minter is refused: it can
    /// be done once.
    pub open spec fn initialize_result(self) -> Result<(), Error> {
        if self.admin is Some {
            Err(Error::AlreadyInitialized)
        } else {
            Ok(())
        }
    }

    /// Whether, and why, `caller` handing the right to mint to another is
    /// refused: only the admin may.
    pub open spec fn admin_result(self, caller: u64) -> Result<(), Error> {
        if self.admin != Some(caller) {
            Err(Error::Unauthorized)
        } else {
            Ok(())
        }
    }

    /// Whether, and why, minting `amount` to `to` at the request of `caller`
    /// is refused.
    pub open spec fn mint_result(self, caller: u64, to: u64, amount: int) -> Result<(), Error> {
        if self.minter != Some(caller) {
            Err(Error::Unauthorized)
        } else if amount <= 0 {
            Err(Error::InvalidAmount)
        } else if self.balance_of(to) + amount > i128::MAX || self.total_supply + amount
            > i128::MAX {
            Err(Error::Overflow)
        } else {
            Ok(())
        }
    }

    /// Whether, and why, taking `amount` from the balance of `from` is refused.
    pub open spec fn take_result(self, from: u64, amount: int) -> Result<(), Error> {
        if amount <= 0 {
            Err(Error::InvalidAmount)
        } else if self.balance_of(from) < amount {
            Err(Error::InsufficientBalance)
        } else {
            Ok(())
        }
    }

    /// Whether, and why, burning `amount` of `from` at the request of
    /// `caller` is refused.
    pub open spec fn burn_result(self, caller: u64, from: u64, amount: int) -> Result<(), Error> {
        if self.minter != Some(caller) {
            Err(Error::Unauthorized)
        } else {
            self.take_result(from, amount)
        }
    }

    /// Whether, and why, `caller` taking `amount` from the balance of `from`
    /// on the authority of `from` itself is refused.
    pub open spec fn owner_result(self, caller: u64, from: u64, amount: int) -> Result<
        (),
        Error,
    > {
        if caller != from {
            Err(Error::Unauthorized)
        } else {
            self.take_result(from, amount)
        }
    }

    /// Whether, and why, `caller` setting an allowance of `amount` on the
    /// balance of `from` is refused.
    pub open spec fn approve_result(self, caller: u64, from: u64, amount: int) -> Result<
        (),
        Error,
    > {
        if caller != from {
            Err(Error::Unauthorized)
        } else if amount < 0 {
            Err(Error::InvalidAmount)
        } else {
            Ok(())
        }
    }

    /// Whether, and why, `caller` taking `amount` from `from` under the
    /// allowance of `spender` is refused.
    pub open spec fn spend_result(
        self,
        caller: u64,
        spender: u64,
        from: u64,
        amount: int,
    ) -> Result<(), Error> {
        if caller != spender {
            Err(Error::Unauthorized)
        } else if amount <= 0 {
            Err(Error::InvalidAmount)
        } else if self.allowance_of(from, spender) < amount {
            Err(Error::InsufficientAllowance)
        } else if self.balance_of(from) < amount {
            Err(Error::InsufficientBalance)
        } else {
            Ok(())
        }
    }
}

} // verus!
