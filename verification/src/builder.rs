//! Fluent construction of a `LegacyTransaction`: a scratch aggregate whose
//! setters overwrite scalars, whose adders append to the ordered sequences,
//! and whose `build` hands the collected fields to a finished transaction.

use vstd::prelude::*;
use crate::tx::LegacyTransaction;
use crate::tx::TxData;
use crate::tx::TxInput;
use crate::tx::TxInputData;
use crate::tx::TxOutput;
use crate::tx::TxOutputData;

verus! {

/// A scratch aggregate for building a `LegacyTransaction` incrementally.
/// It carries the same fields as the finished transaction and is consumed
/// by `build`.
pub struct LegacyTransactionBuilder {
    pub version: i32,
    pub inputs: Vec<TxInput>,
    pub outputs: Vec<TxOutput>,
    pub lock_time: u32,
}

impl View for LegacyTransactionBuilder {
    type V = TxData;

    open spec fn view(&self) -> TxData {
        TxData {
            version: self.version,
            inputs: self.inputs@.map_values(|i: TxInput| i@),
            outputs: self.outputs@.map_values(|o: TxOutput| o@),
            lock_time: self.lock_time,
        }
    }
}

/// The state a fresh builder starts from: version 1, no inputs, no
/// outputs, lock time 0.
pub open spec fn initial_builder_data() -> TxData {
    TxData { version: 1, inputs: Seq::empty(), outputs: Seq::empty(), lock_time: 0 }
}

/// What setting the version does to a builder state.
pub open spec fn with_version(d: TxData, version: i32) -> TxData {
    TxData { version, inputs: d.inputs, outputs: d.outputs, lock_time: d.lock_time }
}

/// What setting the lock time does to a builder state.
pub open spec fn with_lock_time(d: TxData, lock_time: u32) -> TxData {
    TxData { version: d.version, inputs: d.inputs, outputs: d.outputs, lock_time }
}

/// What adding one input does to a builder state.
pub open spec fn with_input(d: TxData, input: TxInputData) -> TxData {
    TxData {
        version: d.version,
        inputs: d.inputs.push(input),
        outputs: d.outputs,
        lock_time: d.lock_time,
    }
}

/// What adding one output does to a builder state.
pub open spec fn with_output(d: TxData, output: TxOutputData) -> TxData {
    TxData {
        version: d.version,
        inputs: d.inputs,
        outputs: d.outputs.push(output),
        lock_time: d.lock_time,
    }
}

impl LegacyTransaction {
    /// A fresh builder, starting from the default state.
    pub fn builder() -> (b: LegacyTransactionBuilder)
        ensures
            b@ == initial_builder_data(),
    {
        LegacyTransactionBuilder::new()
    }
}

impl Default for LegacyTransactionBuilder {
    /// A fresh builder: version 1, no inputs, no outputs, lock time 0.
    fn default() -> (b: Self)
        ensures
            b@ == initial_builder_data(),
    {
        let b = LegacyTransactionBuilder {
            version: 1,
            inputs: Vec::new(),
            outputs: Vec::new(),
            lock_time: 0,
        };
        proof {
            assert(b@ =~= initial_builder_data());
        }
        b
    }
}

impl LegacyTransactionBuilder {
    /// A fresh builder, in the default state.
    pub fn new() -> (b: Self)
        ensures
            b@ == initial_builder_data(),
    {
        Self::default()
    }

    /// Overwrites the version; every other field is kept.
    pub fn version(self, version: i32) -> (b: Self)
        ensures
            b@ == with_version(self@, version),
    {
        LegacyTransactionBuilder {
            version,
            inputs: self.inputs,
            outputs: self.outputs,
            lock_time: self.lock_time,
        }
    }

    /// Overwrites the lock time; every other field is kept.
    pub fn lock_time(self, lock_time: u32) -> (b: Self)
        ensures
            b@ == with_lock_time(self@, lock_time),
    {
        LegacyTransactionBuilder {
            version: self.version,
            inputs: self.inputs,
            outputs: self.outputs,
            lock_time,
        }
    }

    /// Appends one input; order is preserved and every other field kept.
    pub fn add_input(self, input: TxInput) -> (b: Self)
        ensures
            b@ == with_input(self@, input@),
    {
        let mut inputs = self.inputs;
        let ghost prior = inputs@;
        inputs.push(input);
        let b = LegacyTransactionBuilder {
            version: self.version,
            inputs,
            outputs: self.outputs,
            lock_time: self.lock_time,
        };
        proof {
            assert(b@.inputs =~= prior.map_values(|i: TxInput| i@).push(input@));
            assert(b@ =~= with_input(self@, input@));
        }
        b
    }

    /// Appends one output; order is preserved and every other field kept.
    pub fn add_output(self, output: TxOutput) -> (b: Self)
        ensures
            b@ == with_output(self@, output@),
    {
        let mut outputs = self.outputs;
        let ghost prior = outputs@;
        outputs.push(output);
        let b = LegacyTransactionBuilder {
            version: self.version,
            inputs: self.inputs,
            outputs,
            lock_time: self.lock_time,
        };
        proof {
            assert(b@.outputs =~= prior.map_values(|o: TxOutput| o@).push(output@));
            assert(b@ =~= with_output(self@, output@));
        }
        b
    }

    /// Consumes the builder; the transaction takes over its fields
    /// unchanged. No validation happens here: a transaction with no inputs
    /// and no outputs is permitted.
    pub fn build(self) -> (t: LegacyTransaction)
        ensures
            t@ == self@,
    {
        let t = LegacyTransaction {
            version: self.version,
            inputs: self.inputs,
            outputs: self.outputs,
            lock_time: self.lock_time,
        };
        proof {
            assert(t@ =~= self@);
        }
        t
    }
}

/// Setters overwrite: setting the version twice leaves the builder exactly
/// as if only the second value had ever been set.
pub proof fn lemma_version_setter_overwrites(d: TxData, v1: i32, v2: i32)
    ensures
        with_version(with_version(d, v1), v2) == with_version(d, v2),
{
    assert(with_version(with_version(d, v1), v2) =~= with_version(d, v2));
}

/// The same for the lock-time setter: the last value set is retained.
pub proof fn lemma_lock_time_setter_overwrites(d: TxData, lt1: u32, lt2: u32)
    ensures
        with_lock_time(with_lock_time(d, lt1), lt2) == with_lock_time(d, lt2),
{
    assert(with_lock_time(with_lock_time(d, lt1), lt2) =~= with_lock_time(d, lt2));
}

} // verus!
