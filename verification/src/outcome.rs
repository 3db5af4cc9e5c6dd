//! Tagged outcomes of the two mutating operations.
//!
//! Success and business failure travel in the result value itself, so a
//! caller can branch on the variant; `message` renders the same
//! information as one descriptive line.

use vstd::prelude::*;
use vstd::string::StringExecFns;
use crate::decimal::{dec_rep, push_decimal};

verus! {

/// What a `send_tokens` call reported.
#[derive(Debug)]
pub enum SendOutcome {
    /// The transfer completed: `amount` tokens moved to `to`.
    Sent { amount: u64, to: String },
    /// The caller's balance, `available`, was smaller than the amount
    /// asked for; nothing changed.
    InsufficientFunds { available: u64 },
    /// Crediting the recipient would have pushed its balance past
    /// `u64::MAX`; nothing changed.
    Overflow,
}

/// What a `receive_tokens` call reported.
#[derive(Debug)]
pub enum ReceiveOutcome {
    /// The credit completed: `amount` tokens arrived, attributed to
    /// `from`.
    Received { amount: u64, from: String },
    /// Crediting the caller would have pushed its balance past
    /// `u64::MAX`; nothing changed.
    Overflow,
}

impl SendOutcome {
    /// The descriptive line for this outcome.
    pub open spec fn spec_message(&self) -> Seq<char> {
        match self {
            SendOutcome::Sent { amount, to } => "Sent "@ + dec_rep(*amount as nat)
                + " tokens to "@ + to@,
            SendOutcome::InsufficientFunds { available } => "Insufficient funds: "@ + dec_rep(
                *available as nat,
            ),
            SendOutcome::Overflow => "Balance overflow"@,
        }
    }

    /// Renders the outcome as one descriptive line.
    pub fn message(&self) -> (text: String)
        ensures
            text@ == self.spec_message(),
    {
        match self {
            SendOutcome::Sent { amount, to } => {
                let mut text = String::from_str("Sent ");
                push_decimal(&mut text, *amount);
                text.append(" tokens to ");
                text.append(to.as_str());
                text
            },
            SendOutcome::InsufficientFunds { available } => {
                let mut text = String::from_str("Insufficient funds: ");
                push_decimal(&mut text, *available);
                text
            },
            SendOutcome::Overflow => String::from_str("Balance overflow"),
        }
    }
}

impl ReceiveOutcome {
    /// The descriptive line for this outcome.
    pub open spec fn spec_message(&self) -> Seq<char> {
        match self {
            ReceiveOutcome::Received { amount, from } => "Received "@ + dec_rep(*amount as nat)
                + " tokens from "@ + from@,
            ReceiveOutcome::Overflow => "Balance overflow"@,
        }
    }

    /// Renders the outcome as one descriptive line.
    pub fn message(&self) -> (text: String)
        ensures
            text@ == self.spec_message(),
    {
        match self {
            ReceiveOutcome::Received { amount, from } => {
                let mut text = String::from_str("Received ");
                push_decimal(&mut text, *amount);
                text.append(" tokens from ");
                text.append(from.as_str());
                text
            },
            ReceiveOutcome::Overflow => String::from_str("Balance overflow"),
        }
    }
}

} // verus!
