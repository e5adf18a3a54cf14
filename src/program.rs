use vstd::prelude::*;

use crate::error::VendingMachineError;
use crate::state::{Identity, Ticket, Transfer, VendingMachine};

verus! {

/// The record of a machine just created: nothing in stock, no ticket sold,
/// not ready, everything else as given.
pub open spec fn created(
    bump: u8,
    authority: Identity,
    spl_mint: Identity,
    ppa: u64,
    ppt: u64,
    ticket_allocation: u64,
    presale_start: i64,
    presale_end: i64,
    pubsale_start: i64,
    pubsale_end: i64,
) -> VendingMachine {
    VendingMachine {
        bump,
        authority,
        spl_mint,
        spl_stock: 0,
        ticket_allocation,
        tickets_sold: 0,
        ppa,
        ppt,
        ready: false,
        presale_start,
        presale_end,
        pubsale_start,
        pubsale_end,
    }
}

/// What funding `m` with `amount` supply units yields: the machine
/// afterwards and the transfers to carry out, or the first check that fails.
pub open spec fn funded(m: VendingMachine, funder: Identity, spl_mint: Identity, amount: u64) -> Result<
    (VendingMachine, Seq<Transfer>),
    VendingMachineError,
> {
    if m.spl_mint != spl_mint || m.authority != funder {
        Err(VendingMachineError::Unauthorized)
    } else if m.spl_stock + amount > u64::MAX {
        Err(VendingMachineError::Overflow)
    } else {
        Ok(
            (
                VendingMachine { spl_stock: (m.spl_stock + amount) as u64, ready: true, ..m },
                seq![Transfer::Deposit { from: funder, amount }],
            ),
        )
    }
}

/// What selling a ticket for `amount` allocation units from `m`, whose
/// address is `machine_key`, yields: the machine afterwards, the new ticket
/// and the transfers to carry out, or the first check that fails.
pub open spec fn ticket_bought(
    m: VendingMachine,
    machine_key: Identity,
    buyer: Identity,
    authority: Identity,
    amount: u64,
) -> Result<(VendingMachine, Ticket, Seq<Transfer>), VendingMachineError> {
    if !m.ready {
        Err(VendingMachineError::NotReady)
    } else if m.tickets_sold >= m.ticket_allocation {
        Err(VendingMachineError::NoTickets)
    } else if m.authority != authority {
        Err(VendingMachineError::Unauthorized)
    } else if amount * m.ppa > u64::MAX {
        Err(VendingMachineError::Overflow)
    } else {
        Ok(
            (
                VendingMachine { tickets_sold: (m.tickets_sold + 1) as u64, ..m },
                Ticket { vending_machine: machine_key, buyer, unspent: amount, spent: 0 },
                seq![Transfer::Payment { from: buyer, to: m.authority, amount: (amount * m.ppa) as u64 }],
            ),
        )
    }
}

/// What redeeming `amount` units of `t` against `m` yields: the machine and
/// ticket afterwards and the transfers to carry out, or the first check that
/// fails.
pub open spec fn ticket_redeemed(
    m: VendingMachine,
    t: Ticket,
    signer: Identity,
    authority: Identity,
    amount: u64,
) -> Result<(VendingMachine, Ticket, Seq<Transfer>), VendingMachineError> {
    if t.spent > t.unspent {
        Err(VendingMachineError::Overflow)
    } else if t.unspent - t.spent < amount {
        Err(VendingMachineError::NotEnoughFunds)
    } else if amount > m.ticket_allocation {
        Err(VendingMachineError::ShortSupply)
    } else if !m.ready {
        Err(VendingMachineError::NotReady)
    } else if t.buyer != signer || m.authority != authority {
        Err(VendingMachineError::Unauthorized)
    } else if amount > m.spl_stock || amount * m.ppt > u64::MAX {
        Err(VendingMachineError::Overflow)
    } else {
        Ok(
            (
                VendingMachine {
                    ticket_allocation: (m.ticket_allocation - amount) as u64,
                    spl_stock: (m.spl_stock - amount) as u64,
                    ..m
                },
                Ticket { spent: (t.spent + amount) as u64, unspent: (t.unspent - amount) as u64, ..t },
                seq![
                    Transfer::Payment { from: signer, to: m.authority, amount: (amount * m.ppt) as u64 },
                    Transfer::Delivery { to: signer, amount },
                ],
            ),
        )
    }
}

/// What buying `amount` units directly from `m` yields: the machine
/// afterwards and the transfers to carry out, or the first check that fails.
pub open spec fn spl_bought(m: VendingMachine, signer: Identity, authority: Identity, amount: u64) -> Result<
    (VendingMachine, Seq<Transfer>),
    VendingMachineError,
> {
    if !m.ready {
        Err(VendingMachineError::NotReady)
    } else if m.ticket_allocation == m.spl_stock || amount > m.spl_stock {
        Err(VendingMachineError::ShortSupply)
    } else if m.authority != authority {
        Err(VendingMachineError::Unauthorized)
    } else if amount * m.ppt > u64::MAX {
        Err(VendingMachineError::Overflow)
    } else {
        Ok(
            (
                VendingMachine { spl_stock: (m.spl_stock - amount) as u64, ..m },
                seq![
                    Transfer::Payment { from: signer, to: m.authority, amount: (amount * m.ppt) as u64 },
                    Transfer::Delivery { to: signer, amount },
                ],
            ),
        )
    }
}

/// Creates a machine owned by `authority` that sells units of `spl_mint`.
/// It starts with no stock and no ticket sold, and is not ready until it is
/// first funded.
pub fn create_machine(
    bump: u8,
    authority: Identity,
    spl_mint: Identity,
    ppa: u64,
    ppt: u64,
    ticket_allocation: u64,
    presale_start: i64,
    presale_end: i64,
    pubsale_start: i64,
    pubsale_end: i64,
) -> (m: VendingMachine)
    ensures
        m == created(
            bump,
            authority,
            spl_mint,
            ppa,
            ppt,
            ticket_allocation,
            presale_start,
            presale_end,
            pubsale_start,
            pubsale_end,
        ),
{
    VendingMachine {
        bump,
        authority,
        spl_mint,
        spl_stock: 0,
        ticket_allocation,
        tickets_sold: 0,
        ppa,
        ppt,
        ready: false,
        presale_start,
        presale_end,
        pubsale_start,
        pubsale_end,
    }
}

/// Adds `amount` units of the machine's mint to its stock, moved in from the
/// authority, and marks the machine ready. Only the authority may fund the
/// machine, and only with the mint it was created for.
pub fn fund_machine(machine: &mut VendingMachine, funder: &Identity, spl_mint: &Identity, amount: u64) -> (r:
    Result<Vec<Transfer>, VendingMachineError>)
    ensures
        match r {
            Ok(xs) => funded(*old(machine), *funder, *spl_mint, amount) == Ok::<
                _,
                VendingMachineError,
            >((*final(machine), xs@)),
            Err(e) => funded(*old(machine), *funder, *spl_mint, amount) == Err::<
                (VendingMachine, Seq<Transfer>),
                _,
            >(e) && *final(machine) == *old(machine),
        },
{
    if !machine.spl_mint.same_as(spl_mint) || !machine.authority.same_as(funder) {
        return Err(VendingMachineError::Unauthorized);
    }
    let stock = match machine.spl_stock.checked_add(amount) {
        Some(s) => s,
        None => return Err(VendingMachineError::Overflow),
    };
    machine.spl_stock = stock;
    machine.ready = true;
    let transfers = vec![Transfer::Deposit { from: *funder, amount }];
    assert(transfers@ =~= funded(*old(machine), *funder, *spl_mint, amount)->Ok_0.1);
    Ok(transfers)
}

/// Sells `buyer` a ticket for `amount` allocation units of the machine at
/// address `machine_key`. The buyer pays `amount * ppa` credits to the
/// authority; the machine counts one more ticket sold, whatever `amount` is.
pub fn buy_ticket(
    machine: &mut VendingMachine,
    machine_key: &Identity,
    buyer: &Identity,
    authority: &Identity,
    amount: u64,
) -> (r: Result<(Ticket, Vec<Transfer>), VendingMachineError>)
    ensures
        match r {
            Ok((t, xs)) => ticket_bought(*old(machine), *machine_key, *buyer, *authority, amount)
                == Ok::<_, VendingMachineError>((*final(machine), t, xs@)),
            Err(e) => ticket_bought(*old(machine), *machine_key, *buyer, *authority, amount)
                == Err::<(VendingMachine, Ticket, Seq<Transfer>), _>(e) && *final(machine)
                == *old(machine),
        },
{
    if !machine.ready {
        return Err(VendingMachineError::NotReady);
    }
    if machine.tickets_sold >= machine.ticket_allocation {
        return Err(VendingMachineError::NoTickets);
    }
    if !machine.authority.same_as(authority) {
        return Err(VendingMachineError::Unauthorized);
    }
    let price = match amount.checked_mul(machine.ppa) {
        Some(p) => p,
        None => return Err(VendingMachineError::Overflow),
    };
    let ticket = Ticket { vending_machine: *machine_key, buyer: *buyer, unspent: amount, spent: 0 };
    machine.tickets_sold = machine.tickets_sold + 1;
    let transfers = vec![Transfer::Payment { from: *buyer, to: machine.authority, amount: price }];
    assert(transfers@ =~= ticket_bought(*old(machine), *machine_key, *buyer, *authority, amount)->Ok_0.2);
    Ok((ticket, transfers))
}

/// Redeems `amount` allocation units of `ticket` for supply units at the
/// ticket price. On success the ticket's `spent` grows and its `unspent`
/// shrinks by `amount`, and so do the machine's reserve and stock; the
/// signer pays `amount * ppt` credits to the authority and receives
/// `amount` supply units from the machine.
pub fn buy_spl_with_ticket(
    machine: &mut VendingMachine,
    ticket: &mut Ticket,
    signer: &Identity,
    authority: &Identity,
    amount: u64,
) -> (r: Result<Vec<Transfer>, VendingMachineError>)
    ensures
        match r {
            Ok(xs) => ticket_redeemed(*old(machine), *old(ticket), *signer, *authority, amount)
                == Ok::<_, VendingMachineError>((*final(machine), *final(ticket), xs@)),
            Err(e) => ticket_redeemed(*old(machine), *old(ticket), *signer, *authority, amount)
                == Err::<(VendingMachine, Ticket, Seq<Transfer>), _>(e) && *final(machine)
                == *old(machine) && *final(ticket) == *old(ticket),
        },
{
    if ticket.spent > ticket.unspent {
        return Err(VendingMachineError::Overflow);
    }
    if ticket.unspent - ticket.spent < amount {
        return Err(VendingMachineError::NotEnoughFunds);
    }
    if amount > machine.ticket_allocation {
        return Err(VendingMachineError::ShortSupply);
    }
    if !machine.ready {
        return Err(VendingMachineError::NotReady);
    }
    if !ticket.buyer.same_as(signer) || !machine.authority.same_as(authority) {
        return Err(VendingMachineError::Unauthorized);
    }
    if amount > machine.spl_stock {
        return Err(VendingMachineError::Overflow);
    }
    let price = match amount.checked_mul(machine.ppt) {
        Some(p) => p,
        None => return Err(VendingMachineError::Overflow),
    };
    ticket.spent = ticket.spent + amount;
    ticket.unspent = ticket.unspent - amount;
    machine.ticket_allocation = machine.ticket_allocation - amount;
    machine.spl_stock = machine.spl_stock - amount;
    let transfers = vec![
        Transfer::Payment { from: *signer, to: machine.authority, amount: price },
        Transfer::Delivery { to: *signer, amount },
    ];
    assert(transfers@ =~= ticket_redeemed(*old(machine), *old(ticket), *signer, *authority, amount)->Ok_0.2);
    Ok(transfers)
}

/// Sells `amount` supply units directly, outside any ticket. Refused while
/// the whole stock is reserved for ticket holders. On success the stock
/// shrinks by `amount`; the signer pays `amount * ppt` credits to the
/// authority and receives `amount` supply units from the machine.
pub fn buy_spl(machine: &mut VendingMachine, signer: &Identity, authority: &Identity, amount: u64) -> (r:
    Result<Vec<Transfer>, VendingMachineError>)
    ensures
        match r {
            Ok(xs) => spl_bought(*old(machine), *signer, *authority, amount) == Ok::<
                _,
                VendingMachineError,
            >((*final(machine), xs@)),
            Err(e) => spl_bought(*old(machine), *signer, *authority, amount) == Err::<
                (VendingMachine, Seq<Transfer>),
                _,
            >(e) && *final(machine) == *old(machine),
        },
{
    if !machine.ready {
        return Err(VendingMachineError::NotReady);
    }
    if machine.ticket_allocation == machine.spl_stock || amount > machine.spl_stock {
        return Err(VendingMachineError::ShortSupply);
    }
    if !machine.authority.same_as(authority) {
        return Err(VendingMachineError::Unauthorized);
    }
    let price = match amount.checked_mul(machine.ppt) {
        Some(p) => p,
        None => return Err(VendingMachineError::Overflow),
    };
    machine.spl_stock = machine.spl_stock - amount;
    let transfers = vec![
        Transfer::Payment { from: *signer, to: machine.authority, amount: price },
        Transfer::Delivery { to: *signer, amount },
    ];
    assert(transfers@ =~= spl_bought(*old(machine), *signer, *authority, amount)->Ok_0.1);
    Ok(transfers)
}

} // verus!
