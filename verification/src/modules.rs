//! Module registry: the capability tables, keyed by module-instance id,
//! that give each pluggable module's verdicts on transaction inputs and
//! outputs and the outcomes of committed outputs.
//!
//! Each module owns a namespaced slice of state; the registry hands a
//! caller exactly the table of the module an input or output names, so
//! no module can see another's entries.

use vstd::prelude::*;

use crate::alist::{alist_find, alist_position, unique_keys};
use crate::bytes::bytes_eq;

verus! {

/// What a module reports for a valid transaction input: the amount it
/// contributes and the public keys that must sign the transaction.
#[derive(Debug, Clone, PartialEq, Eq)]
pub struct InputMeta {
    /// Amount the input funds, in the smallest unit.
    pub amount: u64,
    /// 32-byte x-only public keys that must sign the transaction.
    pub pub_keys: Vec<Vec<u8>>,
}

/// One output of a committed transaction, addressed by the transaction
/// id and the output index.
#[derive(Debug, Clone, PartialEq, Eq)]
pub struct OutPoint {
    /// 32-byte id of the committed transaction.
    pub txid: Vec<u8>,
    /// Index of the output within the transaction.
    pub out_idx: u64,
}

/// One module's state: its verdict tables for inputs and outputs, and
/// the outcomes of committed outputs it owns.
#[derive(Debug, Clone, PartialEq, Eq)]
pub struct ModuleData {
    /// Verdicts on inputs: payload handle to the reported meta; inputs
    /// absent from the table are invalid.
    pub input_verdicts: Vec<(u64, InputMeta)>,
    /// Verdicts on outputs: payload handle to the funded amount; outputs
    /// absent from the table are invalid.
    pub output_verdicts: Vec<(u64, u64)>,
    /// Outcome codes of committed outputs owned by this module.
    pub output_outcomes: Vec<(OutPoint, u64)>,
}

/// Registry mapping module-instance ids to module state.
#[derive(Debug, Clone, PartialEq, Eq)]
pub struct ModuleRegistry {
    /// The registered modules, keyed by module-instance id.
    pub modules: Vec<(u64, ModuleData)>,
}

/// First outcome recorded for `point`, scanning left to right.
pub open spec fn outcome_find(s: Seq<(OutPoint, u64)>, txid: Seq<u8>, out_idx: u64) -> Option<
    u64,
>
    decreases s.len(),
{
    if s.len() == 0 {
        None
    } else if s[0].0.txid@ == txid && s[0].0.out_idx == out_idx {
        Some(s[0].1)
    } else {
        outcome_find(s.subrange(1, s.len() as int), txid, out_idx)
    }
}

/// Lookup lands on the first index whose outpoint matches.
pub proof fn lemma_outcome_find_at(s: Seq<(OutPoint, u64)>, txid: Seq<u8>, out_idx: u64, i: int)
    requires
        0 <= i < s.len(),
        s[i].0.txid@ == txid,
        s[i].0.out_idx == out_idx,
        forall|j: int| 0 <= j < i ==> !(s[j].0.txid@ == txid && s[j].0.out_idx == out_idx),
    ensures
        outcome_find(s, txid, out_idx) == Some(s[i].1),
    decreases i,
{
    if i > 0 {
        lemma_outcome_find_at(s.subrange(1, s.len() as int), txid, out_idx, i - 1);
    }
}

/// An outpoint recorded by no entry has no outcome.
pub proof fn lemma_outcome_find_absent(s: Seq<(OutPoint, u64)>, txid: Seq<u8>, out_idx: u64)
    requires
        forall|j: int| 0 <= j < s.len() ==> !(s[j].0.txid@ == txid && s[j].0.out_idx == out_idx),
    ensures
        outcome_find(s, txid, out_idx) is None,
    decreases s.len(),
{
    if s.len() > 0 {
        lemma_outcome_find_absent(s.subrange(1, s.len() as int), txid, out_idx);
    }
}

impl ModuleRegistry {
    /// Registry well-formedness: module ids are unique.
    pub open spec fn wf(&self) -> bool {
        unique_keys(self.modules@)
    }

    /// The state of module `id`, if registered.
    pub open spec fn spec_module(&self, id: u64) -> Option<ModuleData> {
        alist_find(self.modules@, id)
    }

    /// Whether module `id` is registered.
    pub open spec fn spec_has_module(&self, id: u64) -> bool {
        self.spec_module(id) is Some
    }

    /// The meta this registry reports for an input of module `id` with
    /// the given payload handle, if the input is valid.
    pub open spec fn spec_input_meta(&self, id: u64, payload: u64) -> Option<InputMeta> {
        match self.spec_module(id) {
            Some(m) => alist_find(m.input_verdicts@, payload),
            None => None,
        }
    }

    /// The amount this registry reports for an output of module `id`
    /// with the given payload handle, if the output is valid.
    pub open spec fn spec_output_amount(&self, id: u64, payload: u64) -> Option<u64> {
        match self.spec_module(id) {
            Some(m) => alist_find(m.output_verdicts@, payload),
            None => None,
        }
    }

    /// The outcome module `id` records for the given outpoint, if any.
    pub open spec fn spec_output_status(&self, id: u64, txid: Seq<u8>, out_idx: u64) -> Option<
        u64,
    > {
        match self.spec_module(id) {
            Some(m) => outcome_find(m.output_outcomes@, txid, out_idx),
            None => None,
        }
    }

    /// Whether module `id` is registered.
    pub fn has_module(&self, id: u64) -> (r: bool)
        ensures
            r == self.spec_has_module(id),
    {
        alist_position(&self.modules, id).is_some()
    }

    /// Index of module `id` in the registry, if registered.
    pub fn module_position(&self, id: u64) -> (r: Option<usize>)
        ensures
            match r {
                Some(i) => i < self.modules@.len() && self.modules@[i as int].0 == id
                    && self.spec_module(id) == Some(self.modules@[i as int].1),
                None => !self.spec_has_module(id),
            },
    {
        alist_position(&self.modules, id)
    }

    /// Validates one input against module `id`: the index of its meta in
    /// that module's verdict table, if the input is valid.
    pub fn validate_input(&self, id: u64, payload: u64) -> (r: Option<(usize, usize)>)
        ensures
            match r {
                Some((mi, vi)) => mi < self.modules@.len() && self.modules@[mi as int].0 == id
                    && vi < self.modules@[mi as int].1.input_verdicts@.len()
                    && self.modules@[mi as int].1.input_verdicts@[vi as int].0 == payload
                    && self.spec_input_meta(id, payload) == Some(
                    self.modules@[mi as int].1.input_verdicts@[vi as int].1,
                ),
                None => self.spec_input_meta(id, payload) is None,
            },
    {
        match self.module_position(id) {
            Some(mi) => match alist_position(&self.modules[mi].1.input_verdicts, payload) {
                Some(vi) => Some((mi, vi)),
                None => None,
            },
            None => None,
        }
    }

    /// Validates one output against module `id`: the amount it is funded
    /// with, if the output is valid.
    pub fn validate_output(&self, id: u64, payload: u64) -> (r: Option<u64>)
        ensures
            r == self.spec_output_amount(id, payload),
    {
        match self.module_position(id) {
            Some(mi) => match alist_position(&self.modules[mi].1.output_verdicts, payload) {
                Some(vi) => Some(self.modules[mi].1.output_verdicts[vi].1),
                None => None,
            },
            None => None,
        }
    }

    /// The outcome module `id` records for `(txid, out_idx)`, if any.
    #[verifier::loop_isolation(false)]
    pub fn output_status(&self, id: u64, txid: &Vec<u8>, out_idx: u64) -> (r: Option<u64>)
        ensures
            r == self.spec_output_status(id, txid@, out_idx),
    {
        match self.module_position(id) {
            Some(mi) => {
                let outcomes = &self.modules[mi].1.output_outcomes;
                let mut j: usize = 0;
                while j < outcomes.len()
                    invariant
                        j <= outcomes@.len(),
                        forall|x: int|
                            0 <= x < j ==> !(outcomes@[x].0.txid@ == txid@
                                && outcomes@[x].0.out_idx == out_idx),
                    decreases outcomes@.len() - j,
                {
                    if outcomes[j].0.out_idx == out_idx && bytes_eq(&outcomes[j].0.txid, txid) {
                        proof {
                            lemma_outcome_find_at(outcomes@, txid@, out_idx, j as int);
                        }
                        return Some(outcomes[j].1);
                    }
                    j += 1;
                }
                proof {
                    lemma_outcome_find_absent(outcomes@, txid@, out_idx);
                }
                None
            },
            None => None,
        }
    }
}

} // verus!
