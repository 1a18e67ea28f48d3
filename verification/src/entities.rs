//! The data model shared by the importer and its consumers: the canonical
//! transaction record that every statement format is normalized into, and the
//! records the surrounding ledger application exchanges with its storage.
use vstd::prelude::*;

verus! {

/// A ledger account: its name and its balance in minor currency units.
pub struct Account {
    pub name: String,
    pub balance: i64,
}

/// A manual balance transfer between two accounts, as entered by a user.
pub struct Operation {
    pub from: String,
    pub to: String,
    pub comment: String,
    pub amount: i64,
    pub datetime: i64,
}

/// The canonical transaction record all statement formats converge to.
///
/// `datetime` is seconds since the epoch (the source's local time, taken as
/// UTC by convention). `amount` is non-negative, in minor currency units;
/// direction is encoded purely by which of `from`/`to` names the tracked
/// account, never by sign. An empty `from` or `to` stands for an external or
/// unknown counterparty.
#[derive(Debug, Clone)]
pub struct Transaction {
    pub datetime: i64,
    pub from: String,
    pub to: String,
    pub amount: i64,
    pub description: String,
}

/// The mathematical value of a `Transaction`: integers and character
/// sequences, with no executable representation attached.
#[verifier::ext_equal]
pub ghost struct TransactionV {
    pub datetime: int,
    pub from: Seq<char>,
    pub to: Seq<char>,
    pub amount: int,
    pub description: Seq<char>,
}

impl View for Transaction {
    type V = TransactionV;

    open spec fn view(&self) -> TransactionV {
        TransactionV {
            datetime: self.datetime as int,
            from: self.from@,
            to: self.to@,
            amount: self.amount as int,
            description: self.description@,
        }
    }
}

impl DeepView for Transaction {
    type V = TransactionV;

    open spec fn deep_view(&self) -> TransactionV {
        self.view()
    }
}

impl PartialEq for Transaction {
    fn eq(&self, other: &Transaction) -> (r: bool) {
        self.datetime == other.datetime && self.amount == other.amount
            && self.from == other.from && self.to == other.to
            && self.description == other.description
    }
}

impl vstd::std_specs::cmp::PartialEqSpecImpl for Transaction {
    open spec fn obeys_eq_spec() -> bool {
        true
    }

    open spec fn eq_spec(&self, other: &Transaction) -> bool {
        self@ == other@
    }
}

/// A token the client presents to start a session.
pub struct LoginChallenge {
    pub token: String,
}

/// The version tag of the storage schema and when it was deployed.
pub struct DbVersion {
    pub version: String,
    pub deploy_at: i64,
}

} // verus!
