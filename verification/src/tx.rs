//! The transaction records: out-points, inputs, outputs, and the legacy
//! transaction aggregate, each with a spec-level view.

use vstd::prelude::*;

verus! {

/// Spec-level form of an `OutPoint`.
#[verifier::ext_equal]
pub ghost struct OutPointData {
    pub txid: Seq<u8>,
    pub vout: u32,
}

/// Spec-level form of a `TxInput`.
#[verifier::ext_equal]
pub ghost struct TxInputData {
    pub previous_output: OutPointData,
    pub script_sig: Seq<u8>,
    pub sequence: u32,
}

/// Spec-level form of a `TxOutput`.
#[verifier::ext_equal]
pub ghost struct TxOutputData {
    pub value: u64,
    pub script_pubkey: Seq<u8>,
}

/// Spec-level form of a transaction: also the view of the builder, which
/// carries the same fields while a transaction is under construction.
#[verifier::ext_equal]
pub ghost struct TxData {
    pub version: i32,
    pub inputs: Seq<TxInputData>,
    pub outputs: Seq<TxOutputData>,
    pub lock_time: u32,
}

/// A reference to an output of an earlier transaction: the 32-byte
/// identifier of that transaction and the index of the output within it.
#[derive(Debug, Clone)]
pub struct OutPoint {
    pub txid: [u8; 32],
    pub vout: u32,
}

impl View for OutPoint {
    type V = OutPointData;

    open spec fn view(&self) -> OutPointData {
        OutPointData { txid: self.txid@, vout: self.vout }
    }
}

/// One input of a transaction: the out-point it spends, an opaque unlock
/// script, and a sequence number.
#[derive(Debug, Clone)]
pub struct TxInput {
    pub previous_output: OutPoint,
    pub script_sig: Vec<u8>,
    pub sequence: u32,
}

impl View for TxInput {
    type V = TxInputData;

    open spec fn view(&self) -> TxInputData {
        TxInputData {
            previous_output: self.previous_output@,
            script_sig: self.script_sig@,
            sequence: self.sequence,
        }
    }
}

/// One output of a transaction: an amount in satoshis and an opaque lock
/// script.
#[derive(Debug, Clone)]
pub struct TxOutput {
    pub value: u64,
    pub script_pubkey: Vec<u8>,
}

impl View for TxOutput {
    type V = TxOutputData;

    open spec fn view(&self) -> TxOutputData {
        TxOutputData { value: self.value, script_pubkey: self.script_pubkey@ }
    }
}

/// A legacy (pre-witness) transaction: a signed 32-bit version, the ordered
/// inputs and outputs, and an unsigned 32-bit lock time.
#[derive(Debug, Clone)]
pub struct LegacyTransaction {
    pub version: i32,
    pub inputs: Vec<TxInput>,
    pub outputs: Vec<TxOutput>,
    pub lock_time: u32,
}

impl View for LegacyTransaction {
    type V = TxData;

    open spec fn view(&self) -> TxData {
        TxData {
            version: self.version,
            inputs: self.inputs@.map_values(|i: TxInput| i@),
            outputs: self.outputs@.map_values(|o: TxOutput| o@),
            lock_time: self.lock_time,
        }
    }
}

} // verus!
