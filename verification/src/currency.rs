use vstd::prelude::*;

use crate::bitcoin_types::BitcoinNetwork;

verus! {

/// Why a currency operation failed.
#[derive(Clone, Copy, Debug, PartialEq, Eq, Structural)]
pub enum DispatchError {
    /// The network's currency is not handled.
    UnsupportedCurrency,
    /// The currency refused the withdrawal.
    WithdrawalFailed,
}

/// The native currency that Bitcoin balances are kept in, as the runtime
/// offers it: accounts are numbers, balances are `u128`.
pub trait NativeCurrency {
    /// Credits `amount` to `who`, creating the account if needed.
    fn deposit_creating(who: u64, amount: u128);

    /// Debits `amount` from `who`, keeping the account alive.
    fn withdraw(who: u64, amount: u128) -> Result<(), DispatchError>;

    /// Whether `amount` can be slashed from `who`.
    fn can_slash(who: u64, amount: u128) -> bool;

    /// Slashes up to `amount` from `who`; returns the amount slashed.
    fn slash(who: u64, amount: u128) -> u128;

    /// The whole balance of `who`.
    fn total_balance(who: u64) -> u128;

    /// Moves `amount` from `from` to `to`, keeping the payer alive.
    fn transfer(from: u64, to: u64, amount: u128) -> Result<(), DispatchError>;
}

/// A positive imbalance of a balance.
#[derive(Clone, Copy, Debug)]
pub struct PositiveImbalance {
    pub amount: u128,
}

impl PositiveImbalance {
    pub fn new(amount: u128) -> (r: Self)
        ensures
            r.amount == amount,
    {
        PositiveImbalance { amount }
    }
}

/// A negative imbalance of a balance.
#[derive(Clone, Copy, Debug)]
pub struct NegativeImbalance {
    pub amount: u128,
}

impl NegativeImbalance {
    pub fn new(amount: u128) -> (r: Self)
        ensures
            r.amount == amount,
    {
        NegativeImbalance { amount }
    }
}

/// Bitcoin balances kept in a native currency; only the main network's
/// currency is handled.
pub struct Bitcoin {}

impl Bitcoin {
    /// An instance for a network.
    pub fn new(currency_id: BitcoinNetwork) -> (r: Self) {
        Bitcoin {}
    }

    /// Credits `amount` to `who` on the main network; refused for any other
    /// network, without touching the currency.
    pub fn deposit<C: NativeCurrency>(currency_id: BitcoinNetwork, who: u64, amount: u128) -> (r: Result<(), DispatchError>)
        ensures
            currency_id == BitcoinNetwork::Bitcoin <==> r == Ok::<(), DispatchError>(()),
            currency_id != BitcoinNetwork::Bitcoin ==> r == Err::<(), DispatchError>(DispatchError::UnsupportedCurrency),
    {
        match currency_id {
            BitcoinNetwork::Bitcoin => {
                C::deposit_creating(who, amount);
                Ok(())
            },
            _ => Err(DispatchError::UnsupportedCurrency),
        }
    }

    /// Debits `amount` from `who` on the main network, as the currency
    /// allows; refused for any other network.
    pub fn withdraw<C: NativeCurrency>(currency_id: BitcoinNetwork, who: u64, amount: u128) -> (r: Result<(), DispatchError>)
        ensures
            currency_id != BitcoinNetwork::Bitcoin ==> r == Err::<(), DispatchError>(DispatchError::UnsupportedCurrency),
            currency_id == BitcoinNetwork::Bitcoin ==> call_ensures(C::withdraw, (who, amount), r),
    {
        match currency_id {
            BitcoinNetwork::Bitcoin => C::withdraw(who, amount),
            _ => Err(DispatchError::UnsupportedCurrency),
        }
    }

    /// Whether `amount` can be slashed from `who`: what the currency answers
    /// on the main network, never on another.
    pub fn can_slash<C: NativeCurrency>(currency_id: BitcoinNetwork, who: u64, amount: u128) -> (r: bool)
        ensures
            currency_id != BitcoinNetwork::Bitcoin ==> !r,
            currency_id == BitcoinNetwork::Bitcoin ==> call_ensures(C::can_slash, (who, amount), r),
    {
        match currency_id {
            BitcoinNetwork::Bitcoin => C::can_slash(who, amount),
            _ => false,
        }
    }

    /// Slashes up to `amount` from `who` on the main network and returns what
    /// was slashed; nothing on another network.
    pub fn slash<C: NativeCurrency>(currency_id: BitcoinNetwork, who: u64, amount: u128) -> (r: u128)
        ensures
            currency_id != BitcoinNetwork::Bitcoin ==> r == 0,
            currency_id == BitcoinNetwork::Bitcoin ==> call_ensures(C::slash, (who, amount), r),
    {
        match currency_id {
            BitcoinNetwork::Bitcoin => C::slash(who, amount),
            _ => 0,
        }
    }
}

/// `b` is a balance of `who` that a ledger on `network` can report: one the
/// currency can give as the whole balance on the main network, zero on any
/// other.
pub open spec fn balance_read<C: NativeCurrency>(network: BitcoinNetwork, who: u64, b: u128) -> bool {
    if network == BitcoinNetwork::Bitcoin {
        call_ensures(C::total_balance, (who,), b)
    } else {
        b == 0
    }
}

/// Bitcoin balances on one network, read from and moved in a native
/// currency; only the main network's currency is handled.
pub struct BitcoinLedger {
    pub network: BitcoinNetwork,
}

impl BitcoinLedger {
    /// A ledger for `network`.
    pub fn new(network: BitcoinNetwork) -> (r: Self)
        ensures
            r.network == network,
    {
        BitcoinLedger { network }
    }

    /// The balance of `who`: the currency's total on the main network, zero
    /// on any other.
    pub fn get_balance<C: NativeCurrency>(&self, who: u64) -> (r: u128)
        ensures
            balance_read::<C>(self.network, who, r),
    {
        match self.network {
            BitcoinNetwork::Bitcoin => C::total_balance(who),
            _ => 0,
        }
    }

    /// Moves `amount` from `from` to `to` on the main network, as the
    /// currency allows; refused for any other network.
    pub fn transfer<C: NativeCurrency>(&self, from: u64, to: u64, amount: u128) -> (r: Result<(), DispatchError>)
        ensures
            self.network != BitcoinNetwork::Bitcoin ==> r == Err::<(), DispatchError>(DispatchError::UnsupportedCurrency),
            self.network == BitcoinNetwork::Bitcoin ==> call_ensures(C::transfer, (from, to, amount), r),
    {
        match self.network {
            BitcoinNetwork::Bitcoin => C::transfer(from, to, amount),
            _ => Err(DispatchError::UnsupportedCurrency),
        }
    }
}

/// Bitcoin operations on the runtime's currency, one network per call.
pub struct BitcoinManager {}

impl BitcoinManager {
    /// A manager.
    pub fn new() -> (r: Self) {
        BitcoinManager {  }
    }

    /// Credits `amount` to `who`, as `Bitcoin::deposit` does.
    pub fn deposit_bitcoin<C: NativeCurrency>(&self, network: BitcoinNetwork, who: u64, amount: u128) -> (r: Result<
        (),
        DispatchError,
    >)
        ensures
            network == BitcoinNetwork::Bitcoin <==> r == Ok::<(), DispatchError>(()),
            network != BitcoinNetwork::Bitcoin ==> r == Err::<(), DispatchError>(DispatchError::UnsupportedCurrency),
    {
        Bitcoin::deposit::<C>(network, who, amount)
    }

    /// Debits `amount` from `who`, as `Bitcoin::withdraw` does.
    pub fn withdraw_bitcoin<C: NativeCurrency>(&self, network: BitcoinNetwork, who: u64, amount: u128) -> (r: Result<
        (),
        DispatchError,
    >)
        ensures
            network != BitcoinNetwork::Bitcoin ==> r == Err::<(), DispatchError>(DispatchError::UnsupportedCurrency),
            network == BitcoinNetwork::Bitcoin ==> call_ensures(C::withdraw, (who, amount), r),
    {
        Bitcoin::withdraw::<C>(network, who, amount)
    }

    /// Slashes up to `amount` from `who`, as `Bitcoin::slash` does.
    pub fn slash_bitcoin<C: NativeCurrency>(&self, network: BitcoinNetwork, who: u64, amount: u128) -> (r: u128)
        ensures
            network != BitcoinNetwork::Bitcoin ==> r == 0,
            network == BitcoinNetwork::Bitcoin ==> call_ensures(C::slash, (who, amount), r),
    {
        Bitcoin::slash::<C>(network, who, amount)
    }

    /// Whether `amount` can be slashed from `who`, as `Bitcoin::can_slash`
    /// says.
    pub fn can_slash_bitcoin<C: NativeCurrency>(&self, network: BitcoinNetwork, who: u64, amount: u128) -> (r: bool)
        ensures
            network != BitcoinNetwork::Bitcoin ==> !r,
            network == BitcoinNetwork::Bitcoin ==> call_ensures(C::can_slash, (who, amount), r),
    {
        Bitcoin::can_slash::<C>(network, who, amount)
    }

    /// The network a number stands for.
    pub fn select_network(network_id: u8) -> (r: BitcoinNetwork)
        ensures
            r == crate::bitcoin_types::spec_network_from_id(network_id),
    {
        BitcoinNetwork::from(network_id)
    }

    /// A user's balance: always the zero balance, no ledger being kept here.
    pub fn get_balance(who: u64) -> (r: u128)
        ensures
            r == 0,
    {
        0
    }
}

} // verus!
