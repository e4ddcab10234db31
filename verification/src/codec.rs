//! Row codec: each entity declares its destination table, its ordered
//! column list, and the exact textual rendering of one row's values.

use vstd::prelude::*;

use crate::encode::{dec_of, dec_str_u128, dec_str_u64, decode_lit, to_decode};
use crate::entities::{Block, Log, Reward, Topic, Transaction};

verus! {

/// An entity that can be rendered as one row of a multi-row INSERT.
pub trait Sequelizable: Sized {
    /// The destination table's name.
    spec fn spec_table() -> Seq<char>;

    /// The ordered column list, as it appears in the INSERT header.
    spec fn spec_fields() -> Seq<char>;

    /// The exact text of this row's comma-separated values.
    spec fn spec_values(&self) -> Seq<char>;

    fn table_name() -> (r: &'static str)
        ensures
            r@ == Self::spec_table(),
    ;

    fn insert_fields() -> (r: &'static str)
        ensures
            r@ == Self::spec_fields(),
    ;

    fn to_insert_values(&self) -> (r: String)
        ensures
            r@ == self.spec_values(),
    ;
}

/// The store's null literal, used for every absent optional field.
pub open spec fn null_lit() -> Seq<char> {
    "NULL"@
}

/// An optional binary field: hex-decoded byte literal, or NULL.
pub open spec fn opt_decode_spec(v: Option<Seq<u8>>) -> Seq<char> {
    match v {
        Option::Some(b) => decode_lit(b),
        Option::None => null_lit(),
    }
}

/// An optional integer field: decimal literal, or NULL.
pub open spec fn opt_dec_spec(v: Option<u64>) -> Seq<char> {
    match v {
        Option::Some(n) => dec_of(n as nat),
        Option::None => null_lit(),
    }
}

/// An optional text field: single-quoted literal, or NULL.
pub open spec fn opt_quoted_spec(v: Option<Seq<char>>) -> Seq<char> {
    match v {
        Option::Some(s) => "'"@ + s + "'"@,
        Option::None => null_lit(),
    }
}

/// An optional boolean field: TRUE or FALSE, or NULL.
pub open spec fn opt_bool_spec(v: Option<bool>) -> Seq<char> {
    match v {
        Option::Some(b) => if b {
            "TRUE"@
        } else {
            "FALSE"@
        },
        Option::None => null_lit(),
    }
}

fn opt_decode_str(v: &Option<Vec<u8>>) -> (r: String)
    ensures
        r@ == opt_decode_spec(match *v {
            Option::Some(b) => Option::Some(b@),
            Option::None => Option::None,
        }),
{
    match v {
        Option::Some(b) => to_decode(b),
        Option::None => {
            let mut s = String::new();
            s.append("NULL");
            s
        },
    }
}

fn opt_dec_str(v: &Option<u64>) -> (r: String)
    ensures
        r@ == opt_dec_spec(*v),
{
    match v {
        Option::Some(n) => dec_str_u64(*n),
        Option::None => {
            let mut s = String::new();
            s.append("NULL");
            s
        },
    }
}

fn opt_quoted_str(v: &Option<String>) -> (r: String)
    ensures
        r@ == opt_quoted_spec(match *v {
            Option::Some(s) => Option::Some(s@),
            Option::None => Option::None,
        }),
{
    match v {
        Option::Some(t) => {
            let mut s = String::new();
            s.append("'");
            s.append(t.as_str());
            s.append("'");
            proof {
                assert(s@ =~= "'"@ + t@ + "'"@);
            }
            s
        },
        Option::None => {
            let mut s = String::new();
            s.append("NULL");
            s
        },
    }
}

fn opt_bool_str(v: &Option<bool>) -> (r: &'static str)
    ensures
        r@ == opt_bool_spec(*v),
{
    match v {
        Option::Some(b) => if *b {
            "TRUE"
        } else {
            "FALSE"
        },
        Option::None => "NULL",
    }
}

impl Sequelizable for Transaction {
    open spec fn spec_table() -> Seq<char> {
        "transactions"@
    }

    open spec fn spec_fields() -> Seq<char> {
        "hash, nonce, blockHash, blockNumber, transactionIndex, \"from\", \"to\", \"value\", gas, gasPrice"@
    }

    open spec fn spec_values(&self) -> Seq<char> {
        decode_lit(self.hash@) + ", "@ + dec_of(self.nonce as nat) + ", "@ + decode_lit(
            self.block_hash@,
        ) + ", "@ + dec_of(self.block_number as nat) + ", "@ + dec_of(
            self.transaction_index as nat,
        ) + ", "@ + decode_lit(self.from@) + ", "@ + opt_decode_spec(
            match self.to {
                Option::Some(a) => Option::Some(a@),
                Option::None => Option::None,
            },
        ) + ", "@ + dec_of(self.value as nat) + ", "@ + dec_of(self.gas as nat) + ", "@ + dec_of(
            self.gas_price as nat,
        )
    }

    fn table_name() -> (r: &'static str) {
        "transactions"
    }

    fn insert_fields() -> (r: &'static str) {
        "hash, nonce, blockHash, blockNumber, transactionIndex, \"from\", \"to\", \"value\", gas, gasPrice"
    }

    fn to_insert_values(&self) -> (r: String) {
        let mut s = to_decode(&self.hash);
        s.append(", ");
        s.append(dec_str_u64(self.nonce).as_str());
        s.append(", ");
        s.append(to_decode(&self.block_hash).as_str());
        s.append(", ");
        s.append(dec_str_u64(self.block_number).as_str());
        s.append(", ");
        s.append(dec_str_u64(self.transaction_index).as_str());
        s.append(", ");
        s.append(to_decode(&self.from).as_str());
        s.append(", ");
        s.append(opt_decode_str(&self.to).as_str());
        s.append(", ");
        s.append(dec_str_u128(self.value).as_str());
        s.append(", ");
        s.append(dec_str_u128(self.gas).as_str());
        s.append(", ");
        s.append(dec_str_u128(self.gas_price).as_str());
        proof {
            assert(s@ =~= self.spec_values());
        }
        s
    }
}

impl Sequelizable for Block {
    open spec fn spec_table() -> Seq<char> {
        "blocks"@
    }

    open spec fn spec_fields() -> Seq<char> {
        "\"number\", hash, \"timestamp\""@
    }

    open spec fn spec_values(&self) -> Seq<char> {
        dec_of(self.number as nat) + ", "@ + decode_lit(self.hash@) + ", TO_TIMESTAMP("@ + dec_of(
            self.timestamp as nat,
        ) + ")"@
    }

    fn table_name() -> (r: &'static str) {
        "blocks"
    }

    fn insert_fields() -> (r: &'static str) {
        "\"number\", hash, \"timestamp\""
    }

    fn to_insert_values(&self) -> (r: String) {
        let mut s = dec_str_u64(self.number);
        s.append(", ");
        s.append(to_decode(&self.hash).as_str());
        s.append(", TO_TIMESTAMP(");
        s.append(dec_str_u64(self.timestamp).as_str());
        s.append(")");
        proof {
            assert(s@ =~= self.spec_values());
        }
        s
    }
}

impl Sequelizable for Log {
    open spec fn spec_table() -> Seq<char> {
        "logs"@
    }

    open spec fn spec_fields() -> Seq<char> {
        "address, data, block_hash, block_number, transaction_hash, transaction_index, log_index, transaction_log_index, log_type, removed"@
    }

    open spec fn spec_values(&self) -> Seq<char> {
        decode_lit(self.address@) + ", "@ + decode_lit(self.data@) + ", "@ + opt_decode_spec(
            match self.block_hash {
                Option::Some(b) => Option::Some(b@),
                Option::None => Option::None,
            },
        ) + ", "@ + opt_dec_spec(self.block_number) + ", "@ + opt_decode_spec(
            match self.transaction_hash {
                Option::Some(b) => Option::Some(b@),
                Option::None => Option::None,
            },
        ) + ", "@ + opt_dec_spec(self.transaction_index) + ", "@ + opt_dec_spec(self.log_index)
            + ", "@ + opt_dec_spec(self.transaction_log_index) + ", "@ + opt_quoted_spec(
            match self.log_type {
                Option::Some(t) => Option::Some(t@),
                Option::None => Option::None,
            },
        ) + ", "@ + opt_bool_spec(self.removed)
    }

    fn table_name() -> (r: &'static str) {
        "logs"
    }

    fn insert_fields() -> (r: &'static str) {
        "address, data, block_hash, block_number, transaction_hash, transaction_index, log_index, transaction_log_index, log_type, removed"
    }

    fn to_insert_values(&self) -> (r: String) {
        let mut s = to_decode(&self.address);
        s.append(", ");
        s.append(to_decode(&self.data).as_str());
        s.append(", ");
        s.append(opt_decode_str(&self.block_hash).as_str());
        s.append(", ");
        s.append(opt_dec_str(&self.block_number).as_str());
        s.append(", ");
        s.append(opt_decode_str(&self.transaction_hash).as_str());
        s.append(", ");
        s.append(opt_dec_str(&self.transaction_index).as_str());
        s.append(", ");
        s.append(opt_dec_str(&self.log_index).as_str());
        s.append(", ");
        s.append(opt_dec_str(&self.transaction_log_index).as_str());
        s.append(", ");
        s.append(opt_quoted_str(&self.log_type).as_str());
        s.append(", ");
        s.append(opt_bool_str(&self.removed));
        proof {
            assert(s@ =~= self.spec_values());
        }
        s
    }
}

impl Sequelizable for Topic {
    open spec fn spec_table() -> Seq<char> {
        "topics"@
    }

    open spec fn spec_fields() -> Seq<char> {
        "topic, log_address"@
    }

    open spec fn spec_values(&self) -> Seq<char> {
        decode_lit(self.topic@) + ", "@ + decode_lit(self.log_address@)
    }

    fn table_name() -> (r: &'static str) {
        "topics"
    }

    fn insert_fields() -> (r: &'static str) {
        "topic, log_address"
    }

    fn to_insert_values(&self) -> (r: String) {
        let mut s = to_decode(&self.topic);
        s.append(", ");
        s.append(to_decode(&self.log_address).as_str());
        proof {
            assert(s@ =~= self.spec_values());
        }
        s
    }
}

impl Sequelizable for Reward {
    open spec fn spec_table() -> Seq<char> {
        "rewards"@
    }

    open spec fn spec_fields() -> Seq<char> {
        "blockNumber, reward"@
    }

    open spec fn spec_values(&self) -> Seq<char> {
        dec_of(self.block_number as nat) + ", "@ + dec_of(self.reward as nat)
    }

    fn table_name() -> (r: &'static str) {
        "rewards"
    }

    fn insert_fields() -> (r: &'static str) {
        "blockNumber, reward"
    }

    fn to_insert_values(&self) -> (r: String) {
        let mut s = dec_str_u64(self.block_number);
        s.append(", ");
        s.append(dec_str_u128(self.reward).as_str());
        proof {
            assert(s@ =~= self.spec_values());
        }
        s
    }
}

} // verus!
