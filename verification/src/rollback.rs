//! The rollback snapshot itself: which accounts must still be committed
//! after a failed transaction, and the read views over them.

use vstd::prelude::*;
use crate::account::{Account, Pubkey};
use crate::nonce_info::NonceInfo;

verus! {

/// Address and account state pair, as handed to the ledger write-back path.
pub type TransactionAccount = (Pubkey, Account);

/// Captured account state used to rollback account state for nonce and fee
/// payer accounts after a failed executed transaction. Exactly one variant
/// is active: `SameNonceAndFeePayer` if and only if a nonce is present and
/// its address equals the fee payer's.
#[derive(Debug)]
pub enum RollbackAccounts {
    FeePayerOnly { fee_payer: TransactionAccount },
    SameNonceAndFeePayer { nonce: TransactionAccount },
    SeparateNonceAndFeePayer { nonce: TransactionAccount, fee_payer: TransactionAccount },
}

impl RollbackAccounts {
    /// The entries preserved for rollback, in the order iteration yields
    /// them: the fee payer first when present, then the nonce.
    pub open spec fn entries(self) -> Seq<TransactionAccount> {
        match self {
            RollbackAccounts::FeePayerOnly { fee_payer } => seq![fee_payer],
            RollbackAccounts::SameNonceAndFeePayer { nonce } => seq![nonce],
            RollbackAccounts::SeparateNonceAndFeePayer { nonce, fee_payer } => seq![
                fee_payer,
                nonce,
            ],
        }
    }

    /// Captures the minimal rollback state for one transaction.
    ///
    /// With no nonce, only the fee payer is preserved, with its rent epoch
    /// forced back to the value it had when originally loaded. With a nonce
    /// at the fee payer's own address, one merged entry is preserved: the
    /// fee payer's lamports and rent epoch, the advanced nonce's data. With
    /// a nonce at a different address, both inputs are preserved unchanged.
    pub fn new(
        nonce: Option<NonceInfo>,
        fee_payer_address: Pubkey,
        fee_payer_account: Account,
        fee_payer_loaded_rent_epoch: u64,
    ) -> (r: RollbackAccounts)
        ensures
            nonce is None ==> (r matches RollbackAccounts::FeePayerOnly { fee_payer }
                && fee_payer.0 == fee_payer_address
                && fee_payer.1@ == fee_payer_account@.with_rent_epoch(fee_payer_loaded_rent_epoch)),
            nonce matches Some(n) ==> {
                &&& n.address@ == fee_payer_address@ ==> (r matches
                    RollbackAccounts::SameNonceAndFeePayer { nonce: entry }
                    && entry.0 == fee_payer_address
                    && entry.1@ == fee_payer_account@.with_data(n.account@.data))
                &&& n.address@ != fee_payer_address@ ==> (r matches
                    RollbackAccounts::SeparateNonceAndFeePayer { nonce: ne, fee_payer: fp }
                    && ne.0 == n.address
                    && ne.1 == n.account
                    && fp.0 == fee_payer_address
                    && fp.1 == fee_payer_account)
            },
    {
        let mut fee_payer_account = fee_payer_account;
        match nonce {
            Some(nonce_info) => {
                let NonceInfo { address: nonce_address, account: nonce_account } = nonce_info;
                if fee_payer_address == nonce_address {
                    // The nonce account is also the fee payer: keep the fee
                    // payer's lamports and rent epoch, but take the data of
                    // the already-advanced nonce so the nonce cannot be
                    // replayed even though the transaction failed.
                    fee_payer_account.data = nonce_account.data;
                    RollbackAccounts::SameNonceAndFeePayer {
                        nonce: (fee_payer_address, fee_payer_account),
                    }
                } else {
                    RollbackAccounts::SeparateNonceAndFeePayer {
                        nonce: (nonce_address, nonce_account),
                        fee_payer: (fee_payer_address, fee_payer_account),
                    }
                }
            },
            None => {
                // On a failed transaction without a nonce the runtime must
                // not let the fee payer's rent epoch advance, so reset it to
                // its originally loaded value. A future feature gate may
                // align this with the nonce path.
                fee_payer_account.rent_epoch = fee_payer_loaded_rent_epoch;
                RollbackAccounts::FeePayerOnly {
                    fee_payer: (fee_payer_address, fee_payer_account),
                }
            },
        }
    }

    /// Number of accounts tracked for rollback.
    pub fn count(&self) -> (r: usize)
        ensures
            r == self.entries().len(),
    {
        match self {
            RollbackAccounts::FeePayerOnly { .. } | RollbackAccounts::SameNonceAndFeePayer {
                ..
            } => 1,
            RollbackAccounts::SeparateNonceAndFeePayer { .. } => 2,
        }
    }

    /// Iterator over accounts tracked for rollback, fee payer first.
    pub fn iter(&self) -> (r: RollbackAccountsIter<'_>)
        ensures
            r.remaining() == self.entries(),
    {
        let r = match self {
            RollbackAccounts::FeePayerOnly { fee_payer } => RollbackAccountsIter {
                fee_payer: Some(fee_payer),
                nonce: None,
            },
            RollbackAccounts::SameNonceAndFeePayer { nonce } => RollbackAccountsIter {
                fee_payer: None,
                nonce: Some(nonce),
            },
            RollbackAccounts::SeparateNonceAndFeePayer { nonce, fee_payer } => {
                RollbackAccountsIter { fee_payer: Some(fee_payer), nonce: Some(nonce) }
            },
        };
        proof {
            assert(r.remaining() =~= self.entries());
        }
        r
    }

    /// Size of accounts tracked for rollback: the data-payload lengths of
    /// all entries, summed with saturating addition. Used when pricing the
    /// failed transaction's account-data footprint in the cost model.
    pub fn data_size(&self) -> (r: usize)
        ensures
            r == spec_data_size(self.entries()),
    {
        let mut total_size: usize = 0;
        let mut entries = self.iter();
        let ghost mut yielded: Seq<TransactionAccount> = Seq::empty();
        loop
            invariant
                yielded + entries.remaining() == self.entries(),
                total_size == spec_data_size(yielded),
            ensures
                total_size == spec_data_size(self.entries()),
            decreases entries.remaining().len(),
        {
            match entries.next() {
                Some(entry) => {
                    total_size = total_size.saturating_add(entry.1.data.len());
                    proof {
                        let prev = yielded;
                        yielded = yielded.push(*entry);
                        assert(yielded.drop_last() =~= prev);
                        assert(yielded + entries.remaining() =~= self.entries());
                    }
                },
                None => {
                    proof {
                        assert(yielded =~= self.entries());
                    }
                    break;
                },
            }
        }
        total_size
    }
}

/// The saturating sum of the data-payload lengths of `entries`, added up in
/// order, each step capped at `usize::MAX`.
pub open spec fn spec_data_size(entries: Seq<TransactionAccount>) -> nat
    decreases entries.len(),
{
    if entries.len() == 0 {
        0
    } else {
        saturating_add_usize(spec_data_size(entries.drop_last()), entries.last().1.data@.len())
    }
}

/// Addition capped at `usize::MAX`.
pub open spec fn saturating_add_usize(a: nat, b: nat) -> nat {
    if a + b <= usize::MAX {
        a + b
    } else {
        usize::MAX as nat
    }
}

fn entry_equal(a: &TransactionAccount, b: &TransactionAccount) -> (r: bool)
    ensures
        r <==> (a.0@ == b.0@ && a.1@ == b.1@),
{
    a.0 == b.0 && a.1 == b.1
}

impl PartialEq for RollbackAccounts {
    fn eq(&self, other: &RollbackAccounts) -> (r: bool) {
        match (self, other) {
            (
                RollbackAccounts::FeePayerOnly { fee_payer: a },
                RollbackAccounts::FeePayerOnly { fee_payer: b },
            ) => entry_equal(a, b),
            (
                RollbackAccounts::SameNonceAndFeePayer { nonce: a },
                RollbackAccounts::SameNonceAndFeePayer { nonce: b },
            ) => entry_equal(a, b),
            (
                RollbackAccounts::SeparateNonceAndFeePayer { nonce: a, fee_payer: c },
                RollbackAccounts::SeparateNonceAndFeePayer { nonce: b, fee_payer: d },
            ) => entry_equal(a, b) && entry_equal(c, d),
            _ => false,
        }
    }
}

impl vstd::std_specs::cmp::PartialEqSpecImpl for RollbackAccounts {
    open spec fn obeys_eq_spec() -> bool {
        true
    }

    open spec fn eq_spec(&self, other: &RollbackAccounts) -> bool {
        match (*self, *other) {
            (
                RollbackAccounts::FeePayerOnly { fee_payer: a },
                RollbackAccounts::FeePayerOnly { fee_payer: b },
            ) => a.0@ == b.0@ && a.1@ == b.1@,
            (
                RollbackAccounts::SameNonceAndFeePayer { nonce: a },
                RollbackAccounts::SameNonceAndFeePayer { nonce: b },
            ) => a.0@ == b.0@ && a.1@ == b.1@,
            (
                RollbackAccounts::SeparateNonceAndFeePayer { nonce: a, fee_payer: c },
                RollbackAccounts::SeparateNonceAndFeePayer { nonce: b, fee_payer: d },
            ) => a.0@ == b.0@ && a.1@ == b.1@ && c.0@ == d.0@ && c.1@ == d.1@,
            _ => false,
        }
    }
}

/// Law: the count of tracked accounts matches what iteration yields: one
/// entry for `FeePayerOnly` and `SameNonceAndFeePayer`, two entries for
/// `SeparateNonceAndFeePayer`.
pub proof fn lemma_count_matches_iteration(accounts: RollbackAccounts)
    ensures
        accounts is FeePayerOnly ==> accounts.entries().len() == 1,
        accounts is SameNonceAndFeePayer ==> accounts.entries().len() == 1,
        accounts is SeparateNonceAndFeePayer ==> accounts.entries().len() == 2,
{
}

/// Law: for a snapshot holding separate nonce and fee payer entries, the
/// rollback data size is the saturating sum of the fee payer's and the
/// nonce's data-payload lengths.
pub proof fn lemma_data_size_separate(nonce: TransactionAccount, fee_payer: TransactionAccount)
    ensures
        spec_data_size((RollbackAccounts::SeparateNonceAndFeePayer { nonce, fee_payer }).entries())
            == saturating_add_usize(fee_payer.1.data@.len(), nonce.1.data@.len()),
{
    let entries = (RollbackAccounts::SeparateNonceAndFeePayer { nonce, fee_payer }).entries();
    assert(entries.drop_last() =~= seq![fee_payer]);
    assert(seq![fee_payer].drop_last() =~= Seq::<TransactionAccount>::empty());
    assert(spec_data_size(Seq::<TransactionAccount>::empty()) == 0);
    assert(spec_data_size(seq![fee_payer]) == saturating_add_usize(0, fee_payer.1.data@.len()));
}

/// Rollback accounts iterator. This struct is created by
/// `RollbackAccounts::iter`; it yields the fee payer entry first when one is
/// pending, then the nonce entry.
pub struct RollbackAccountsIter<'a> {
    fee_payer: Option<&'a TransactionAccount>,
    nonce: Option<&'a TransactionAccount>,
}

impl<'a> RollbackAccountsIter<'a> {
    /// The entries this iterator has yet to yield, in order.
    pub closed spec fn remaining(self) -> Seq<TransactionAccount> {
        match (self.fee_payer, self.nonce) {
            (Some(fee_payer), Some(nonce)) => seq![*fee_payer, *nonce],
            (Some(fee_payer), None) => seq![*fee_payer],
            (None, Some(nonce)) => seq![*nonce],
            (None, None) => Seq::empty(),
        }
    }

    /// Yields the next pending entry, or `None` once all are yielded.
    pub fn next(&mut self) -> (r: Option<&'a TransactionAccount>)
        ensures
            old(self).remaining().len() == 0 ==> (r is None && final(self).remaining()
                == old(self).remaining()),
            old(self).remaining().len() > 0 ==> (r matches Some(entry)
                && *entry == old(self).remaining()[0]
                && final(self).remaining() == old(self).remaining().drop_first()),
    {
        if let Some(fee_payer) = self.fee_payer.take() {
            proof {
                assert(self.remaining() =~= old(self).remaining().drop_first());
            }
            return Some(fee_payer);
        }
        if let Some(nonce) = self.nonce.take() {
            proof {
                assert(self.remaining() =~= old(self).remaining().drop_first());
            }
            return Some(nonce);
        }
        None
    }
}

} // verus!
