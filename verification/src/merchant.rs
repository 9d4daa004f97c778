//! Merchants and the directory that resolves an opaque credential to one.
//!
//! The directory rejects unknown credentials and inactive merchants with
//! `AuthenticationError`. Its invariant keeps merchant ids and credentials
//! unique, so a credential names at most one merchant.

use vstd::prelude::*;

use crate::errors::DefiantError;
use crate::text::str_eq;

verus! {

/// A merchant: the tenant on whose behalf payments are created.
#[derive(Debug)]
pub struct Merchant {
    pub id: u128,
    pub name: String,
    pub email: String,
    pub credential: String,
    pub active: bool,
    pub allow_large_payments: bool,
}

/// The mathematical model of a merchant.
#[verifier::ext_equal]
pub ghost struct MerchantModel {
    pub id: u128,
    pub name: Seq<char>,
    pub email: Seq<char>,
    pub credential: Seq<char>,
    pub active: bool,
    pub allow_large_payments: bool,
}

impl View for Merchant {
    type V = MerchantModel;

    open spec fn view(&self) -> MerchantModel {
        MerchantModel {
            id: self.id,
            name: self.name@,
            email: self.email@,
            credential: self.credential@,
            active: self.active,
            allow_large_payments: self.allow_large_payments,
        }
    }
}

impl DeepView for Merchant {
    type V = MerchantModel;

    open spec fn deep_view(&self) -> MerchantModel {
        self.view()
    }
}

impl Clone for Merchant {
    /// A clone carries the same model.
    fn clone(&self) -> (r: Merchant)
        ensures
            r@ == self@,
    {
        let r = Merchant {
            id: self.id,
            name: self.name.clone(),
            email: self.email.clone(),
            credential: self.credential.clone(),
            active: self.active,
            allow_large_payments: self.allow_large_payments,
        };
        proof {
            assert(r@ =~= self@);
        }
        r
    }
}

/// Ids and credentials are unique across the directory.
pub open spec fn directory_wf(d: Seq<MerchantModel>) -> bool {
    &&& (forall|i: int, j: int|
        0 <= i < d.len() && 0 <= j < d.len() && i != j ==> (#[trigger] d[i]).id != (
        #[trigger] d[j]).id)
    &&& (forall|i: int, j: int|
        0 <= i < d.len() && 0 <= j < d.len() && i != j ==> (#[trigger] d[i]).credential != (
        #[trigger] d[j]).credential)
}

/// Whether some active merchant carries the credential.
pub open spec fn resolves(d: Seq<MerchantModel>, cred: Seq<char>) -> bool {
    exists|i: int| 0 <= i < d.len() && (#[trigger] d[i]).credential == cred && d[i].active
}

/// The directory of merchants known to the service.
#[derive(Debug)]
pub struct MerchantDirectory {
    pub merchants: Vec<Merchant>,
}

impl View for MerchantDirectory {
    type V = Seq<MerchantModel>;

    open spec fn view(&self) -> Seq<MerchantModel> {
        self.merchants.deep_view()
    }
}

impl MerchantDirectory {
    pub fn new() -> (r: MerchantDirectory)
        ensures
            r@ == Seq::<MerchantModel>::empty(),
            directory_wf(r@),
    {
        let r = MerchantDirectory { merchants: Vec::new() };
        proof {
            assert(r@ =~= Seq::<MerchantModel>::empty());
        }
        r
    }

    /// Registers a merchant; rejected with `Conflict` exactly when its id
    /// or credential is already taken.
    pub fn add_merchant(&mut self, m: Merchant) -> (r: Result<(), DefiantError>)
        requires
            directory_wf(old(self)@),
        ensures
            directory_wf(final(self)@),
            r is Ok <==> (forall|i: int|
                0 <= i < old(self)@.len() ==> (#[trigger] old(self)@[i]).id != m@.id
                    && old(self)@[i].credential != m@.credential),
            r is Ok ==> final(self)@ == old(self)@.push(m@),
            r is Err ==> final(self)@ == old(self)@,
            r matches Err(e) ==> e is Conflict,
    {
        let n = self.merchants.len();
        let mut i: usize = 0;
        while i < n
            invariant
                n == self.merchants.len(),
                i <= n,
                directory_wf(self@),
                forall|j: int|
                    0 <= j < i ==> (#[trigger] self@[j]).id != m@.id && self@[j].credential
                        != m@.credential,
            decreases n - i,
        {
            let existing = &self.merchants[i];
            proof {
                assert(existing@ == self@[i as int]);
            }
            if existing.id == m.id || str_eq(existing.credential.as_str(), m.credential.as_str()) {
                proof {
                    assert(self@[i as int].id == m@.id || self@[i as int].credential
                        == m@.credential);
                }
                return Err(DefiantError::Conflict(String::from_str(
                    "merchant already registered",
                )));
            }
            i += 1;
        }
        let ghost pre = self@;
        self.merchants.push(m);
        proof {
            assert(self@ =~= pre.push(self.merchants@[pre.len() as int]@));
        }
        Ok(())
    }

    /// Resolves a credential to its merchant. Succeeds exactly when an
    /// active merchant carries the credential; an unknown credential and an
    /// inactive merchant both report `AuthenticationError`.
    pub fn resolve(&self, cred: &str) -> (r: Result<&Merchant, DefiantError>)
        requires
            directory_wf(self@),
        ensures
            r is Ok <==> resolves(self@, cred@),
            r matches Ok(m) ==> m@.credential == cred@ && m@.active && (exists|i: int|
                0 <= i < self@.len() && #[trigger] self@[i] == m@),
            r matches Err(e) ==> e is AuthenticationError,
    {
        let n = self.merchants.len();
        let mut i: usize = 0;
        while i < n
            invariant
                n == self.merchants.len(),
                i <= n,
                directory_wf(self@),
                forall|j: int| 0 <= j < i ==> (#[trigger] self@[j]).credential != cred@,
            decreases n - i,
        {
            let m = &self.merchants[i];
            proof {
                assert(m@ == self@[i as int]);
            }
            if str_eq(m.credential.as_str(), cred) {
                if m.active {
                    proof {
                        assert(resolves(self@, cred@));
                    }
                    return Ok(m);
                } else {
                    proof {
                        assert forall|j: int|
                            0 <= j < self@.len() && (#[trigger] self@[j]).credential
                                == cred@ implies !self@[j].active by {
                            if j != i {
                                assert(self@[j].credential != self@[i as int].credential);
                            }
                        }
                    }
                    return Err(DefiantError::AuthenticationError(String::from_str(
                        "merchant is not active",
                    )));
                }
            }
            i += 1;
        }
        Err(DefiantError::AuthenticationError(String::from_str("invalid API key")))
    }

    /// Whether the credential names an active merchant.
    pub fn is_valid_credential(&self, cred: &str) -> (r: bool)
        requires
            directory_wf(self@),
        ensures
            r == resolves(self@, cred@),
    {
        match self.resolve(cred) {
            Ok(_) => true,
            Err(_) => false,
        }
    }
}

} // verus!
