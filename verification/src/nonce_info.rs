//! The advanced durable-nonce input to snapshot construction.

use vstd::prelude::*;
use crate::account::{Account, Pubkey};

verus! {

/// Address and account state of a durable-nonce account whose nonce value
/// has already been advanced for the current transaction by the nonce
/// lifecycle; this crate only reads it.
#[derive(Clone, Debug)]
pub struct NonceInfo {
    pub address: Pubkey,
    pub account: Account,
}

impl NonceInfo {
    pub fn new(address: Pubkey, account: Account) -> (r: NonceInfo)
        ensures
            r.address == address,
            r.account == account,
    {
        NonceInfo { address, account }
    }

    pub fn address(&self) -> (r: &Pubkey)
        ensures
            *r == self.address,
    {
        &self.address
    }

    pub fn account(&self) -> (r: &Account)
        ensures
            *r == self.account,
    {
        &self.account
    }
}

} // verus!
