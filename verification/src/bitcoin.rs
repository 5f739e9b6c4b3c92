//! What the relay knows of the payment network: transactions as far as their
//! outputs, and the ways in which a node can refuse a request.

use vstd::prelude::*;
use vstd::string::*;

verus! {

/// What decoding `bytes` as a transaction gives: its outputs, each as value
/// and script, or the text of the decoder's complaint.
pub uninterp spec fn decode_outputs(bytes: Seq<u8>) -> Result<Seq<(u64, Seq<u8>)>, Seq<char>>;

/// One output of a transaction.
#[derive(Debug)]
pub struct TxOut {
    /// The amount that the output carries, in satoshis.
    pub value: u64,
    /// The script that locks the output.
    pub script_pubkey: Vec<u8>,
}

impl View for TxOut {
    type V = (u64, Seq<u8>);

    open spec fn view(&self) -> (u64, Seq<u8>) {
        (self.value, self.script_pubkey@)
    }
}

/// A decoded transaction, reduced to its outputs.
#[derive(Debug)]
pub struct Transaction {
    /// The outputs, in the order in which the transaction lists them.
    pub output: Vec<TxOut>,
}

impl View for Transaction {
    type V = Seq<(u64, Seq<u8>)>;

    open spec fn view(&self) -> Seq<(u64, Seq<u8>)> {
        self.output@.map_values(|out: TxOut| out@)
    }
}

/// The sum of the values of `outputs`.
pub open spec fn total_value(outputs: Seq<(u64, Seq<u8>)>) -> nat
    decreases outputs.len(),
{
    if outputs.len() == 0 {
        0
    } else {
        total_value(outputs.drop_last()) + outputs.last().0 as nat
    }
}

/// A decoding result as plain values: the outputs, or the complaint's text.
pub open spec fn result_view(r: Result<Transaction, String>) -> Result<
    Seq<(u64, Seq<u8>)>,
    Seq<char>,
> {
    match r {
        Ok(tx) => Ok(tx@),
        Err(text) => Err(text@),
    }
}

/// Calls `deserialize` of `bitcoin::util::psbt::serialize::Deserialize` for
/// `bitcoin::Transaction`. Trusted: what comes back is what `decode_outputs`
/// names, the outputs in their order on success and the error's text
/// otherwise.
#[verifier::external_body]
fn decode_transaction(bytes: &[u8]) -> (r: Result<Transaction, String>)
    ensures
        decode_outputs(bytes@) == result_view(r),
{
    match <::bitcoin::Transaction as ::bitcoin::util::psbt::serialize::Deserialize>::deserialize(
        bytes,
    ) {
        Ok(tx) => Ok(
            Transaction {
                output: tx.output.into_iter().map(
                    |out| TxOut { value: out.value, script_pubkey: out.script_pubkey.into_bytes() },
                ).collect(),
            },
        ),
        Err(err) => Err(err.to_string()),
    }
}

impl Transaction {
    /// Decodes a transaction from its consensus encoding. All of `bytes`
    /// must be used up.
    pub fn deserialize(bytes: &[u8]) -> (r: Result<Transaction, String>)
        ensures
            decode_outputs(bytes@) == result_view(r),
    {
        decode_transaction(bytes)
    }

    /// Whether the outputs together carry at least `amount`.
    pub fn covers(&self, amount: u64) -> (covered: bool)
        ensures
            covered == (total_value(self@) >= amount),
    {
        let mut sum: u64 = 0;
        let mut i: usize = 0;
        while i < self.output.len()
            invariant
                i <= self.output.len(),
                sum == total_value(self@.subrange(0, i as int)),
                sum < amount || i == 0,
            decreases self.output.len() - i,
        {
            let value: u64 = self.output[i].value;
            proof {
                let next = self@.subrange(0, i + 1);
                assert(next.drop_last() =~= self@.subrange(0, i as int));
                assert(next.last() == self@[i as int]);
                lemma_total_value_prefix(self@, i + 1);
            }
            if value >= amount - sum {
                return true;
            }
            sum = sum + value;
            i = i + 1;
        }
        assert(self@.subrange(0, self.output.len() as int) =~= self@);
        sum >= amount
    }
}

/// The values of a prefix of `outputs` sum to no more than those of all of
/// them.
pub proof fn lemma_total_value_prefix(outputs: Seq<(u64, Seq<u8>)>, n: int)
    requires
        0 <= n <= outputs.len(),
    ensures
        total_value(outputs.subrange(0, n)) <= total_value(outputs),
    decreases outputs.len(),
{
    if n < outputs.len() {
        assert(outputs.drop_last().subrange(0, n) =~= outputs.subrange(0, n));
        lemma_total_value_prefix(outputs.drop_last(), n);
    } else {
        assert(outputs.subrange(0, n) =~= outputs);
    }
}

/// Why the node did not take a request.
#[derive(Debug)]
pub enum BitcoinError {
    /// The node answered with nothing.
    EmptyResponse,
    /// The request did not reach the node, or its answer did not arrive.
    Http(String),
    /// The node's answer was not the JSON expected.
    Json(String),
    /// The node answered with an error of its own.
    Rpc(String),
}

/// The name under which stamp verification knows a node's refusal.
pub type NodeError = BitcoinError;

impl BitcoinError {
    /// The text that describes this refusal.
    pub open spec fn message(self) -> Seq<char> {
        match self {
            BitcoinError::EmptyResponse => "empty response"@,
            BitcoinError::Http(text) => text@,
            BitcoinError::Json(text) => text@,
            BitcoinError::Rpc(text) => text@,
        }
    }

    /// Renders the refusal as text.
    pub fn to_string(&self) -> (text: String)
        ensures
            text@ == self.message(),
    {
        match self {
            BitcoinError::EmptyResponse => String::from_str("empty response"),
            BitcoinError::Http(text) => text.clone(),
            BitcoinError::Json(text) => text.clone(),
            BitcoinError::Rpc(text) => text.clone(),
        }
    }
}

} // verus!
