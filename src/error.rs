use vstd::prelude::*;

verus! {

/// Why an operation on a vending machine was refused.
#[derive(Debug, Clone, Copy, PartialEq, Eq, Structural)]
pub enum VendingMachineError {
    /// A caller, the mint or the authority does not match the machine or ticket.
    Unauthorized,
    /// The machine has never been funded.
    NotReady,
    /// The sale window has not opened.
    NotStarted,
    /// The ticket's remaining allocation is smaller than the amount asked for.
    NotEnoughFunds,
    /// Not enough supply units are left for the purchase.
    ShortSupply,
    /// Every ticket the machine offers has been sold.
    NoTickets,
    /// A count or a price would leave the range of `u64`.
    Overflow,
}

impl VendingMachineError {
    /// A short human-readable description of the error.
    pub fn message(&self) -> (r: &'static str) {
        match self {
            VendingMachineError::Unauthorized => "Unauthorized access",
            VendingMachineError::NotReady => "Machine not ready",
            VendingMachineError::NotStarted => "Sale not commenced",
            VendingMachineError::NotEnoughFunds => "Not enough funds",
            VendingMachineError::ShortSupply => "Not enough SPL tokens to fulfill purchase",
            VendingMachineError::NoTickets => "Allocation tickets have sold out",
            VendingMachineError::Overflow => "Arithmetic overflow",
        }
    }
}

} // verus!
