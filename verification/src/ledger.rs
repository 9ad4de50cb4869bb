//! The ledger of trades: every transaction gets the next number.

use vstd::prelude::*;
use crate::shared::OrderType;
use crate::text::{decimal, decimal_string};

verus! {

/// The key under which the ledger is kept.
pub const LEDGER_KEY: &'static str = "__WMI_LEDGER";

/// A moment in local time: seconds and nanoseconds since 1970 in universal
/// time, and how many seconds local time was ahead of it.
#[derive(Clone, Copy, Debug, PartialEq, Eq, Structural, Hash)]
pub struct Timestamp {
    pub seconds: i64,
    pub nanos: u32,
    pub offset_seconds: i32,
}

/// The number of a transaction in the ledger.
#[derive(Clone, Copy, Debug, PartialEq, Eq, Structural, Hash)]
pub struct TransactionId(pub u64);

impl TransactionId {
    /// The number as it is shown: `TRX-` and the number in decimal.
    pub fn label(&self) -> (label: String)
        ensures
            label@ == "TRX-"@ + decimal(self.0 as nat),
    {
        String::from_str("TRX-").concat(decimal_string(self.0).as_str())
    }
}

/// The other party of a trade.
#[derive(Clone, Debug, PartialEq, Hash)]
pub struct TransactionUser {
    pub id: String,
    pub ingame_name: String,
}

/// An item of the catalogue, as the ledger keeps it.
#[derive(Clone, Debug, PartialEq, Hash)]
pub struct TransactionShortItem {
    pub id: String,
    pub item_name: String,
}

/// What was traded: an item of the catalogue, or something described.
#[derive(Clone, Debug, PartialEq, Hash)]
pub enum TransactionItem {
    Item(TransactionShortItem),
    Other(String),
}

/// A trade.
#[derive(Clone, Debug, PartialEq, Hash)]
pub struct Transaction {
    pub transaction_id: TransactionId,
    pub item: TransactionItem,
    pub price: u32,
    pub kind: OrderType,
    pub recipient: TransactionUser,
    pub timestamp: Timestamp,
}

impl Transaction {
    /// A trade made at `timestamp`. It has the number 0 until the ledger
    /// gives it one.
    pub fn new(
        item: TransactionItem,
        recipient: TransactionUser,
        price: u32,
        kind: OrderType,
        timestamp: Timestamp,
    ) -> (transaction: Transaction)
        ensures
            transaction == (Transaction {
                transaction_id: TransactionId(0),
                item,
                price,
                kind,
                recipient,
                timestamp,
            }),
    {
        Transaction { item, recipient, price, kind, timestamp, transaction_id: TransactionId(0) }
    }
}

/// The trades made, each with its number, and the last number given.
#[derive(Clone, Debug, PartialEq)]
pub struct Ledger {
    transaction_id_counter: u64,
    pub transactions: Vec<Transaction>,
}

impl Ledger {
    /// The last number given.
    pub closed spec fn counter(&self) -> u64 {
        self.transaction_id_counter
    }

    /// The trades, in the order in which they were submitted.
    pub closed spec fn entries(&self) -> Seq<Transaction> {
        self.transactions@
    }

    /// A ledger that holds `transactions` and has given out the numbers up
    /// to `transaction_id_counter`.
    pub fn from_parts(transaction_id_counter: u64, transactions: Vec<Transaction>) -> (ledger:
        Ledger)
        ensures
            ledger.counter() == transaction_id_counter,
            ledger.entries() == transactions@,
    {
        Ledger { transaction_id_counter, transactions }
    }

    /// The last number given.
    pub fn transaction_id_counter(&self) -> (counter: u64)
        ensures
            counter == self.counter(),
    {
        self.transaction_id_counter
    }

    /// The trades, in the order in which they were submitted.
    pub fn transactions(&self) -> (transactions: &Vec<Transaction>)
        ensures
            transactions@ == self.entries(),
    {
        &self.transactions
    }

    /// Gives out the next number.
    fn generate_transaction_id(&mut self) -> (id: TransactionId)
        requires
            old(self).counter() < u64::MAX,
        ensures
            id.0 == old(self).counter() + 1,
            final(self).counter() == id.0,
            final(self).entries() == old(self).entries(),
    {
        self.transaction_id_counter += 1;
        TransactionId(self.transaction_id_counter)
    }

    /// Enters `transaction` under the next number, whatever number it came
    /// with.
    pub fn submit_transaction(&mut self, transaction: Transaction)
        requires
            old(self).counter() < u64::MAX,
        ensures
            final(self).counter() == old(self).counter() + 1,
            final(self).entries() == old(self).entries().push(
                Transaction {
                    transaction_id: TransactionId((old(self).counter() + 1) as u64),
                    ..transaction
                },
            ),
    {
        let mut transaction = transaction;
        let id = self.generate_transaction_id();
        transaction.transaction_id = id;
        self.transactions.push(transaction);
    }
}

impl Default for Ledger {
    /// The empty ledger.
    fn default() -> (ledger: Ledger)
        ensures
            ledger.counter() == 0,
            ledger.entries() == Seq::<Transaction>::empty(),
    {
        Ledger { transaction_id_counter: 0, transactions: Vec::new() }
    }
}

/// Whether the trades of `entries` are numbered as a ledger numbers them
/// that started empty: the first is number 1, and each has the number after
/// the one before it.
pub open spec fn numbered_in_order(entries: Seq<Transaction>) -> bool {
    forall|i: int| 0 <= i < entries.len() ==> (#[trigger] entries[i]).transaction_id.0 == i + 1
}

/// A ledger whose trades are numbered in order, and that has given out as
/// many numbers as it holds trades, stays so when a trade is submitted.
pub proof fn lemma_submit_keeps_numbering(before: Ledger, after: Ledger, transaction: Transaction)
    requires
        numbered_in_order(before.entries()),
        before.counter() == before.entries().len(),
        before.counter() < u64::MAX,
        after.counter() == before.counter() + 1,
        after.entries() == before.entries().push(
            Transaction {
                transaction_id: TransactionId((before.counter() + 1) as u64),
                ..transaction
            },
        ),
    ensures
        numbered_in_order(after.entries()),
        after.counter() == after.entries().len(),
{
}

} // verus!
