//! The transaction ledger: an append-only record of completed purchases.

use vstd::prelude::*;

use crate::engine::Engine;
use crate::principal::PrincipalId;
use crate::types::Transaction;

verus! {

/// The ledger entries `p` took part in, on either side, in ledger order.
pub open spec fn transactions_of(s: Seq<Transaction>, p: PrincipalId) -> Seq<Transaction> {
    s.filter(|t: Transaction| t.buyer == p || t.seller == p)
}

impl Engine {
    /// Every ledger entry in which the caller bought or sold, in ledger
    /// order.
    pub fn get_user_transactions(&self, caller: PrincipalId) -> (r: Vec<Transaction>)
        ensures
            r@ == transactions_of(self.transactions@, caller),
    {
        let mut r: Vec<Transaction> = Vec::new();
        let n = self.transactions.len();
        let mut i: usize = 0;
        proof {
            reveal(Seq::filter);
            assert(self.transactions@.take(0) =~= Seq::<Transaction>::empty());
        }
        while i < n
            invariant
                n == self.transactions@.len(),
                i <= n,
                r@ == transactions_of(self.transactions@.take(i as int), caller),
            decreases n - i,
        {
            proof {
                reveal(Seq::filter);
                assert(self.transactions@.take(i + 1).drop_last() =~= self.transactions@.take(
                    i as int,
                ));
                assert(self.transactions@.take(i + 1).last() == self.transactions@[i as int]);
            }
            let t = &self.transactions[i];
            if t.buyer == caller || t.seller == caller {
                r.push(t.clone());
            }
            i += 1;
        }
        proof {
            assert(self.transactions@.take(n as int) =~= self.transactions@);
        }
        r
    }

    /// The whole ledger, in order.
    pub fn debug_get_all_transactions(&self) -> (r: Vec<Transaction>)
        ensures
            r@ == self.transactions@,
    {
        let mut r: Vec<Transaction> = Vec::new();
        let n = self.transactions.len();
        let mut i: usize = 0;
        while i < n
            invariant
                n == self.transactions@.len(),
                i <= n,
                r@ == self.transactions@.take(i as int),
            decreases n - i,
        {
            r.push(self.transactions[i].clone());
            proof {
                assert(r@ =~= self.transactions@.take(i + 1));
            }
            i += 1;
        }
        proof {
            assert(self.transactions@.take(n as int) =~= self.transactions@);
        }
        r
    }
}

} // verus!
