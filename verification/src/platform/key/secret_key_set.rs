use vstd::prelude::*;

use threshold_crypto::SecretKeySet;
use threshold_crypto::SecretKeyShare as BlsSecretKeyShare;

use crate::model::key::{Divisible, SecretKeyShare};
use crate::model::value::ShareIndex;
use crate::platform::threshold::{key_share_of, secret_key_share_of};

verus! {

/// Why a key set could not be divided. Handing out shares of a
/// `threshold_crypto` key set cannot fail, so this is never returned.
#[derive(Debug)]
pub enum SecretKeySetError {
    FailedDivide,
}

impl Divisible for SecretKeySet {
    type TSecretKeyShare = BlsSecretKeyShare;
    type TError = SecretKeySetError;

    /// Hands out shares `0 .. num_divide` of the key set, in index order:
    /// the `i`-th holds the key set's share `i`. Never fails.
    fn divide(&self, num_divide: usize) -> (r: Result<
        Vec<SecretKeyShare<BlsSecretKeyShare>>,
        SecretKeySetError,
    >)
        ensures
            r matches Ok(shares) && {
                &&& shares@.len() == num_divide
                &&& forall|i: int|
                    0 <= i < num_divide ==> (#[trigger] shares@[i]).index@ == i
                        && shares@[i].secret_key_share == key_share_of(*self, i as nat)
            },
    {
        let mut shares: Vec<SecretKeyShare<BlsSecretKeyShare>> = Vec::new();
        let mut i: usize = 0;
        while i < num_divide
            invariant
                i <= num_divide,
                shares@.len() == i,
                forall|j: int|
                    0 <= j < i ==> (#[trigger] shares@[j]).index@ == j
                        && shares@[j].secret_key_share == key_share_of(*self, j as nat),
            decreases num_divide - i,
        {
            let share = secret_key_share_of(self, i);
            shares.push(SecretKeyShare::new(ShareIndex::new(i), share));
            i = i + 1;
        }
        Ok(shares)
    }
}

} // verus!
