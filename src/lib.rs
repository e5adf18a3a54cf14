//! A vending machine for a fungible supply token: it is funded by its
//! authority, sells allocation tickets, redeems tickets for supply units and
//! sells supply units directly, except while the whole stock is reserved
//! for ticket holders.
//!
//! Every operation is a pure transition over explicit records. It either
//! returns the transfers that must be carried out together with the new
//! state, or an error and leaves every record untouched.

mod error;
pub mod laws;
mod program;
mod state;

pub use error::VendingMachineError;
pub use program::{
    buy_spl, buy_spl_with_ticket, buy_ticket, create_machine, created, fund_machine, funded,
    spl_bought, ticket_bought, ticket_redeemed,
};
pub use state::{machine_seed_prefix, Identity, Ticket, Transfer, VendingMachine};
