//! The registry's description of the current validators, as this library
//! receives it: untrusted, and possibly malformed record by record.

use vstd::prelude::*;

verus! {

/// One validator as the registry reports it. Nothing here has been checked.
#[derive(Debug, PartialEq, Eq)]
pub struct ValidatorSummary {
    pub name: String,
    pub network_pubkey_bytes: Vec<u8>,
    pub p2p_address: String,
}

/// The mathematical content of a [`ValidatorSummary`].
pub struct ValidatorSummaryView {
    pub name: Seq<char>,
    pub network_pubkey_bytes: Seq<u8>,
    pub p2p_address: Seq<char>,
}

impl View for ValidatorSummary {
    type V = ValidatorSummaryView;

    open spec fn view(&self) -> ValidatorSummaryView {
        ValidatorSummaryView {
            name: self.name@,
            network_pubkey_bytes: self.network_pubkey_bytes@,
            p2p_address: self.p2p_address@,
        }
    }
}

impl Clone for ValidatorSummary {
    fn clone(&self) -> (copy: ValidatorSummary)
        ensures
            copy@ == self@,
    {
        ValidatorSummary {
            name: self.name.clone(),
            network_pubkey_bytes: self.network_pubkey_bytes.clone(),
            p2p_address: self.p2p_address.clone(),
        }
    }
}

/// The validator-set summary: the active validators, in the registry's order.
#[derive(Debug, PartialEq, Eq)]
pub struct SystemStateSummary {
    pub active_validators: Vec<ValidatorSummary>,
}

impl View for SystemStateSummary {
    type V = Seq<ValidatorSummaryView>;

    open spec fn view(&self) -> Seq<ValidatorSummaryView> {
        self.active_validators@.map_values(|record: ValidatorSummary| record@)
    }
}

impl Clone for SystemStateSummary {
    fn clone(&self) -> (copy: SystemStateSummary)
        ensures
            copy@ == self@,
    {
        let mut active_validators: Vec<ValidatorSummary> = Vec::new();
        let mut i: usize = 0;
        while i < self.active_validators.len()
            invariant
                i <= self.active_validators.len(),
                active_validators@.len() == i,
                forall|j: int| 0 <= j < i ==> active_validators@[j]@ == self.active_validators@[j]@,
            decreases self.active_validators.len() - i,
        {
            active_validators.push(self.active_validators[i].clone());
            i = i + 1;
        }
        SystemStateSummary { active_validators }
    }
}

} // verus!
