//! The commit status of a batch, as the validator reports it.

use vstd::prelude::*;
use vstd::string::*;

verus! {

/// What the validator knows of a submitted batch.
#[derive(Clone, Copy, Debug, PartialEq, Eq, Structural)]
pub enum BatchStatus {
    /// The validator has no record of the batch.
    Unknown,
    /// The batch is known and not yet decided.
    Pending,
    /// The batch was refused; it will never commit.
    Invalid,
    /// The batch is part of the ledger.
    Committed,
}

impl BatchStatus {
    /// A terminal status is final: the batch never leaves it.
    pub open spec fn is_terminal(self) -> bool {
        self is Invalid || self is Committed
    }

    /// Tells whether the status is final.
    pub fn terminal(&self) -> (res: bool)
        ensures
            res == self.is_terminal(),
    {
        match self {
            BatchStatus::Invalid | BatchStatus::Committed => true,
            BatchStatus::Unknown | BatchStatus::Pending => false,
        }
    }
}

/// The name of a status, as the validator writes it.
pub open spec fn status_name(status: BatchStatus) -> Seq<char> {
    match status {
        BatchStatus::Unknown => "UNKNOWN"@,
        BatchStatus::Pending => "PENDING"@,
        BatchStatus::Invalid => "INVALID"@,
        BatchStatus::Committed => "COMMITTED"@,
    }
}

/// The status that a name stands for; a name that the gateway does not know
/// stands for `Unknown`.
pub open spec fn status_of_name(name: Seq<char>) -> BatchStatus {
    if name == "COMMITTED"@ {
        BatchStatus::Committed
    } else if name == "INVALID"@ {
        BatchStatus::Invalid
    } else if name == "PENDING"@ {
        BatchStatus::Pending
    } else {
        BatchStatus::Unknown
    }
}

/// Reading the name of a status gives the status back.
pub proof fn lemma_status_of_its_name(status: BatchStatus)
    ensures
        status_of_name(status_name(status)) == status,
{
    reveal_strlit("UNKNOWN");
    reveal_strlit("PENDING");
    reveal_strlit("INVALID");
    reveal_strlit("COMMITTED");
    assert("PENDING"@[0] == 'P' && "INVALID"@[0] == 'I' && "UNKNOWN"@[0] == 'U');
}

/// Tells whether two texts are the same.
pub fn same_text(a: &str, b: &str) -> (same: bool)
    ensures
        same == (a@ == b@),
{
    a.to_owned() == b.to_owned()
}

/// Writes the name of a status.
pub fn status_text(status: BatchStatus) -> (text: &'static str)
    ensures
        text@ == status_name(status),
{
    match status {
        BatchStatus::Unknown => "UNKNOWN",
        BatchStatus::Pending => "PENDING",
        BatchStatus::Invalid => "INVALID",
        BatchStatus::Committed => "COMMITTED",
    }
}

impl BatchStatus {
    /// Reads the name of a status.
    pub fn from_name(name: &str) -> (status: BatchStatus)
        ensures
            status == status_of_name(name@),
    {
        if same_text(name, "COMMITTED") {
            BatchStatus::Committed
        } else if same_text(name, "INVALID") {
            BatchStatus::Invalid
        } else if same_text(name, "PENDING") {
            BatchStatus::Pending
        } else {
            BatchStatus::Unknown
        }
    }
}

} // verus!
