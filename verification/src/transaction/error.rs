//! The errors of the transaction manager.

use vstd::prelude::*;
use crate::text::{append, append_str, append_string, decimal, decimal_v, string_of};

verus! {

/// Why a transaction, a rollback or a generation lookup failed.
#[derive(Debug, Clone)]
pub enum TrxError {
    GenerationNotFound(u64),
    NoCurrentGeneration,
    AlreadyActive(u64),
    AlreadyCurrent { target: u64, current: u64 },
    PendingDirMissing(String),
    AtomicRenameFailed(String),
    /// An I/O error, by its message.
    Io(String),
    /// A (de)serialisation error, by its message.
    Serde(String),
    Plan(String),
}

/// The plain value of a `TrxError`.
pub enum TrxErrorView {
    GenerationNotFound(u64),
    NoCurrentGeneration,
    AlreadyActive(u64),
    AlreadyCurrent { target: u64, current: u64 },
    PendingDirMissing(Seq<char>),
    AtomicRenameFailed(Seq<char>),
    Io(Seq<char>),
    Serde(Seq<char>),
    Plan(Seq<char>),
}

impl View for TrxError {
    type V = TrxErrorView;

    open spec fn view(&self) -> TrxErrorView {
        match self {
            TrxError::GenerationNotFound(id) => TrxErrorView::GenerationNotFound(*id),
            TrxError::NoCurrentGeneration => TrxErrorView::NoCurrentGeneration,
            TrxError::AlreadyActive(id) => TrxErrorView::AlreadyActive(*id),
            TrxError::AlreadyCurrent { target, current } => TrxErrorView::AlreadyCurrent {
                target: *target,
                current: *current,
            },
            TrxError::PendingDirMissing(s) => TrxErrorView::PendingDirMissing(s@),
            TrxError::AtomicRenameFailed(s) => TrxErrorView::AtomicRenameFailed(s@),
            TrxError::Io(s) => TrxErrorView::Io(s@),
            TrxError::Serde(s) => TrxErrorView::Serde(s@),
            TrxError::Plan(s) => TrxErrorView::Plan(s@),
        }
    }
}

/// The text shown for an error.
pub open spec fn trx_error_message(e: TrxErrorView) -> Seq<char> {
    match e {
        TrxErrorView::GenerationNotFound(id) => "Generation "@ + decimal(id as nat) + " not found"@,
        TrxErrorView::NoCurrentGeneration => "No current generation exists — database not initialised"@,
        TrxErrorView::AlreadyActive(id) => "Transaction already active (generation "@ + decimal(
            id as nat,
        ) + " pending)"@,
        TrxErrorView::AlreadyCurrent { target, current } => "Rollback target "@ + decimal(
            target as nat,
        ) + " is already current ("@ + decimal(current as nat) + ")"@,
        TrxErrorView::PendingDirMissing(s) => "Pending generation directory missing: "@ + s,
        TrxErrorView::AtomicRenameFailed(s) => "Atomic rename failed: "@ + s,
        TrxErrorView::Io(s) => "I/O error: "@ + s,
        TrxErrorView::Serde(s) => "Serialisation error: "@ + s,
        TrxErrorView::Plan(s) => "Plan error: "@ + s,
    }
}

impl TrxError {
    /// The text shown for this error.
    pub fn message(&self) -> (res: String)
        ensures
            res@ == trx_error_message(self@),
    {
        let mut out: Vec<char> = Vec::new();
        match self {
            TrxError::GenerationNotFound(id) => {
                append_str(&mut out, "Generation ");
                append(&mut out, &decimal_v(*id));
                append_str(&mut out, " not found");
            },
            TrxError::NoCurrentGeneration => {
                append_str(&mut out, "No current generation exists — database not initialised");
            },
            TrxError::AlreadyActive(id) => {
                append_str(&mut out, "Transaction already active (generation ");
                append(&mut out, &decimal_v(*id));
                append_str(&mut out, " pending)");
            },
            TrxError::AlreadyCurrent { target, current } => {
                append_str(&mut out, "Rollback target ");
                append(&mut out, &decimal_v(*target));
                append_str(&mut out, " is already current (");
                append(&mut out, &decimal_v(*current));
                append_str(&mut out, ")");
            },
            TrxError::PendingDirMissing(s) => {
                append_str(&mut out, "Pending generation directory missing: ");
                append_string(&mut out, s);
            },
            TrxError::AtomicRenameFailed(s) => {
                append_str(&mut out, "Atomic rename failed: ");
                append_string(&mut out, s);
            },
            TrxError::Io(s) => {
                append_str(&mut out, "I/O error: ");
                append_string(&mut out, s);
            },
            TrxError::Serde(s) => {
                append_str(&mut out, "Serialisation error: ");
                append_string(&mut out, s);
            },
            TrxError::Plan(s) => {
                append_str(&mut out, "Plan error: ");
                append_string(&mut out, s);
            },
        }
        string_of(&out)
    }
}

} // verus!
