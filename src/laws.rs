//! Properties that hold across calls of the operations, stated over the spec
//! functions that the operations' contracts are written in.
use vstd::prelude::*;

use crate::error::VendingMachineError;
use crate::program::{created, funded, spl_bought, ticket_bought, ticket_redeemed};
use crate::state::{Identity, Ticket, VendingMachine};

verus! {

/// A machine that was just created holds no stock and is not ready.
pub proof fn lemma_new_machine_is_empty_and_not_ready(
    bump: u8,
    authority: Identity,
    spl_mint: Identity,
    ppa: u64,
    ppt: u64,
    ticket_allocation: u64,
    presale_start: i64,
    presale_end: i64,
    pubsale_start: i64,
    pubsale_end: i64,
)
    ensures
        ({
            let m = created(
                bump,
                authority,
                spl_mint,
                ppa,
                ppt,
                ticket_allocation,
                presale_start,
                presale_end,
                pubsale_start,
                pubsale_end,
            );
            m.spl_stock == 0 && !m.ready && m.tickets_sold == 0
        }),
{
}

/// Funding adds up and leaves the machine ready: when the authority funds
/// its machine with `a` and then with `b` units of its mint, and the sum
/// fits in a `u64`, both calls succeed and the stock grows by `a + b`.
pub proof fn lemma_funding_adds_up(m: VendingMachine, a: u64, b: u64)
    requires
        m.spl_stock + a + b <= u64::MAX,
    ensures
        funded(m, m.authority, m.spl_mint, a) is Ok,
        ({
            let m1 = funded(m, m.authority, m.spl_mint, a)->Ok_0.0;
            &&& funded(m1, m.authority, m.spl_mint, b) is Ok
            &&& m1.ready
            &&& funded(m1, m.authority, m.spl_mint, b)->Ok_0.0.spl_stock == m.spl_stock + a + b
            &&& funded(m1, m.authority, m.spl_mint, b)->Ok_0.0.ready
        }),
{
}

/// A ticket sale never takes the count of tickets sold past the number on
/// offer, and once that number is reached a ready machine refuses further
/// sales with `NoTickets`.
pub proof fn lemma_ticket_sales_capped(
    m: VendingMachine,
    machine_key: Identity,
    buyer: Identity,
    authority: Identity,
    amount: u64,
)
    ensures
        ticket_bought(m, machine_key, buyer, authority, amount) is Ok ==> ({
            let m2 = ticket_bought(m, machine_key, buyer, authority, amount)->Ok_0.0;
            m2.tickets_sold <= m2.ticket_allocation
        }),
        m.ready && m.tickets_sold >= m.ticket_allocation ==> ticket_bought(
            m,
            machine_key,
            buyer,
            authority,
            amount,
        ) == Err::<(VendingMachine, Ticket, Seq<crate::state::Transfer>), _>(
            VendingMachineError::NoTickets,
        ),
{
}

/// A newly sold ticket has spent nothing of its allocation.
pub proof fn lemma_new_ticket_unspent(
    m: VendingMachine,
    machine_key: Identity,
    buyer: Identity,
    authority: Identity,
    amount: u64,
)
    ensures
        ticket_bought(m, machine_key, buyer, authority, amount) is Ok ==> ({
            let t = ticket_bought(m, machine_key, buyer, authority, amount)->Ok_0.1;
            t.spent == 0 && t.spent <= t.unspent && t.unspent == amount
        }),
{
}

/// Redemption never lowers what a ticket has spent.
pub proof fn lemma_redemption_spent_grows(
    m: VendingMachine,
    t: Ticket,
    signer: Identity,
    authority: Identity,
    amount: u64,
)
    ensures
        ticket_redeemed(m, t, signer, authority, amount) is Ok ==> t.spent <= ticket_redeemed(
            m,
            t,
            signer,
            authority,
            amount,
        )->Ok_0.1.spent,
{
}

/// A redemption of at most half a ticket's remaining allocation keeps its
/// `spent` within its `unspent`.
pub proof fn lemma_redemption_keeps_spent_within_unspent(
    m: VendingMachine,
    t: Ticket,
    signer: Identity,
    authority: Identity,
    amount: u64,
)
    requires
        t.spent <= t.unspent,
        2 * amount <= t.unspent - t.spent,
    ensures
        ticket_redeemed(m, t, signer, authority, amount) is Ok ==> ({
            let t2 = ticket_redeemed(m, t, signer, authority, amount)->Ok_0.1;
            t2.spent <= t2.unspent
        }),
{
}

/// Redeeming a ticket keeps the reserve within the stock: both shrink by the
/// same amount.
pub proof fn lemma_redemption_keeps_reserve_within_stock(
    m: VendingMachine,
    t: Ticket,
    signer: Identity,
    authority: Identity,
    amount: u64,
)
    requires
        m.ticket_allocation <= m.spl_stock,
    ensures
        ticket_redeemed(m, t, signer, authority, amount) is Ok ==> ({
            let m2 = ticket_redeemed(m, t, signer, authority, amount)->Ok_0.0;
            m2.ticket_allocation <= m2.spl_stock
        }),
{
}

/// A direct sale that takes no more than the unreserved stock keeps the
/// reserve within the stock, and a direct sale from a fully reserved stock
/// is refused with `ShortSupply`, whatever the amount.
pub proof fn lemma_direct_sale_keeps_reserve_within_stock(
    m: VendingMachine,
    signer: Identity,
    authority: Identity,
    amount: u64,
)
    requires
        m.ticket_allocation <= m.spl_stock,
    ensures
        amount <= m.spl_stock - m.ticket_allocation && spl_bought(m, signer, authority, amount) is Ok
            ==> ({
            let m2 = spl_bought(m, signer, authority, amount)->Ok_0.0;
            m2.ticket_allocation <= m2.spl_stock
        }),
        m.ready && m.ticket_allocation == m.spl_stock ==> spl_bought(m, signer, authority, amount)
            == Err::<(VendingMachine, Seq<crate::state::Transfer>), _>(
            VendingMachineError::ShortSupply,
        ),
{
}

} // verus!
