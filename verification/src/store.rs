//! The payment record store: the durable table of payment rows.
//!
//! Its invariant `store_wf` keeps every row well-formed and every id
//! unique, so a read-modify-write addressed by id touches exactly one row.

use vstd::prelude::*;

use crate::errors::DefiantError;
use crate::payment::{payment_wf, Payment, PaymentModel};

verus! {

impl DeepView for Payment {
    type V = PaymentModel;

    open spec fn deep_view(&self) -> PaymentModel {
        self.view()
    }
}

/// Every row is well-formed and ids are unique.
pub open spec fn store_wf(s: Seq<PaymentModel>) -> bool {
    &&& (forall|i: int| 0 <= i < s.len() ==> payment_wf(#[trigger] s[i]))
    &&& (forall|i: int, j: int|
        0 <= i < s.len() && 0 <= j < s.len() && i != j ==> (#[trigger] s[i]).id != (
        #[trigger] s[j]).id)
}

/// Whether some row carries the id.
pub open spec fn contains_payment(s: Seq<PaymentModel>, id: u128) -> bool {
    exists|i: int| 0 <= i < s.len() && (#[trigger] s[i]).id == id
}

/// The durable table of payment rows.
#[derive(Debug)]
pub struct PaymentStore {
    pub rows: Vec<Payment>,
}

impl View for PaymentStore {
    type V = Seq<PaymentModel>;

    open spec fn view(&self) -> Seq<PaymentModel> {
        self.rows.deep_view()
    }
}

impl PaymentStore {
    pub fn new() -> (r: PaymentStore)
        ensures
            r@ == Seq::<PaymentModel>::empty(),
            store_wf(r@),
    {
        let r = PaymentStore { rows: Vec::new() };
        proof {
            assert(r@ =~= Seq::<PaymentModel>::empty());
        }
        r
    }

    /// The number of rows.
    pub fn len(&self) -> (n: usize)
        ensures
            n == self@.len(),
    {
        self.rows.len()
    }

    /// The index of the row carrying `id`, if any.
    pub fn find_index(&self, id: u128) -> (r: Option<usize>)
        ensures
            r matches Some(i) ==> i < self@.len() && self@[i as int].id == id,
            r is None <==> !contains_payment(self@, id),
    {
        let n = self.rows.len();
        let mut i: usize = 0;
        while i < n
            invariant
                n == self.rows.len(),
                i <= n,
                forall|j: int| 0 <= j < i ==> (#[trigger] self@[j]).id != id,
            decreases n - i,
        {
            proof {
                assert(self.rows[i as int]@ == self@[i as int]);
            }
            if self.rows[i].id == id {
                return Some(i);
            }
            i += 1;
        }
        None
    }

    /// A borrow of the row at `i`.
    pub fn get(&self, i: usize) -> (r: &Payment)
        requires
            i < self@.len(),
        ensures
            r@ == self@[i as int],
    {
        let r = &self.rows[i];
        proof {
            assert(r@ == self@[i as int]);
        }
        r
    }

    /// Inserts a fresh row. Rejected with `InternalError` exactly when the
    /// id is already taken: ids come from a generator, so a collision is a
    /// store fault, not a business error.
    pub fn insert(&mut self, p: Payment) -> (r: Result<(), DefiantError>)
        requires
            store_wf(old(self)@),
            payment_wf(p@),
        ensures
            store_wf(final(self)@),
            r is Ok <==> !contains_payment(old(self)@, p@.id),
            r is Ok ==> final(self)@ == old(self)@.push(p@),
            r is Err ==> final(self)@ == old(self)@,
            r matches Err(e) ==> e is InternalError,
    {
        match self.find_index(p.id) {
            Some(_) => Err(DefiantError::InternalError),
            None => {
                let ghost pre = self@;
                self.rows.push(p);
                proof {
                    assert(self@ =~= pre.push(self.rows@[pre.len() as int]@));
                    assert forall|i: int, j: int|
                        0 <= i < self@.len() && 0 <= j < self@.len() && i != j implies (
                    #[trigger] self@[i]).id != (#[trigger] self@[j]).id by {
                        if i < pre.len() && j < pre.len() {
                        } else if i == pre.len() {
                            assert(!(self@[j].id == self@[i].id)) by {
                                if self@[j].id == pre[j].id && pre[j].id == self@[i].id {
                                    assert(contains_payment(pre, self@[i].id));
                                }
                            }
                        } else {
                            assert(!(self@[i].id == self@[j].id)) by {
                                if self@[i].id == pre[i].id && pre[i].id == self@[j].id {
                                    assert(contains_payment(pre, self@[j].id));
                                }
                            }
                        }
                    }
                }
                Ok(())
            },
        }
    }

    /// Replaces the row at `i` with a new value of the same id.
    pub fn update_at(&mut self, i: usize, p: Payment)
        requires
            store_wf(old(self)@),
            i < old(self)@.len(),
            p@.id == old(self)@[i as int].id,
            payment_wf(p@),
        ensures
            store_wf(final(self)@),
            final(self)@ == old(self)@.update(i as int, p@),
    {
        let ghost pre = self@;
        self.rows.set(i, p);
        proof {
            assert(self@ =~= pre.update(i as int, self.rows@[i as int]@));
        }
    }
}

} // verus!
