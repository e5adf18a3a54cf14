use spl_vending_machine::{
    buy_spl, buy_spl_with_ticket, buy_ticket, create_machine, fund_machine, Identity, Ticket,
    Transfer, VendingMachine, VendingMachineError,
};

fn id(b: u8) -> Identity {
    Identity { bytes: [b; 32] }
}

fn authority() -> Identity {
    id(1)
}

fn mint() -> Identity {
    id(2)
}

fn machine_key() -> Identity {
    id(3)
}

fn buyer() -> Identity {
    id(4)
}

fn new_machine(ppa: u64, ppt: u64, ticket_allocation: u64) -> VendingMachine {
    create_machine(254, authority(), mint(), ppa, ppt, ticket_allocation, 10, 20, 30, 40)
}

fn funded_machine(ppa: u64, ppt: u64, ticket_allocation: u64, stock: u64) -> VendingMachine {
    let mut m = new_machine(ppa, ppt, ticket_allocation);
    fund_machine(&mut m, &authority(), &mint(), stock).unwrap();
    m
}

#[test]
fn create_machine_starts_empty_and_not_ready() {
    let m = new_machine(10, 5, 100);
    assert_eq!(m.spl_stock, 0);
    assert_eq!(m.tickets_sold, 0);
    assert!(!m.ready);
    assert_eq!(m.bump, 254);
    assert_eq!(m.authority, authority());
    assert_eq!(m.spl_mint, mint());
    assert_eq!((m.ppa, m.ppt, m.ticket_allocation), (10, 5, 100));
    assert_eq!((m.presale_start, m.presale_end, m.pubsale_start, m.pubsale_end), (10, 20, 30, 40));
}

#[test]
fn full_sale_scenario() {
    let mut m = new_machine(10, 5, 100);
    let deposit = fund_machine(&mut m, &authority(), &mint(), 1000).unwrap();
    assert_eq!(deposit, vec![Transfer::Deposit { from: authority(), amount: 1000 }]);
    assert_eq!(m.spl_stock, 1000);
    assert!(m.ready);

    let (mut t, pay) = buy_ticket(&mut m, &machine_key(), &buyer(), &authority(), 50).unwrap();
    assert_eq!(
        t,
        Ticket { vending_machine: machine_key(), buyer: buyer(), unspent: 50, spent: 0 }
    );
    assert_eq!(m.tickets_sold, 1);
    assert_eq!(pay, vec![Transfer::Payment { from: buyer(), to: authority(), amount: 500 }]);

    let xs = buy_spl_with_ticket(&mut m, &mut t, &buyer(), &authority(), 30).unwrap();
    assert_eq!((t.unspent, t.spent), (20, 30));
    assert_eq!(m.ticket_allocation, 70);
    assert_eq!(m.spl_stock, 970);
    assert_eq!(
        xs,
        vec![
            Transfer::Payment { from: buyer(), to: authority(), amount: 150 },
            Transfer::Delivery { to: buyer(), amount: 30 },
        ]
    );
}

#[test]
fn fully_reserved_stock_refuses_direct_sale() {
    for amount in [0u64, 1, 50, 100, 1000] {
        let mut m = funded_machine(10, 5, 100, 100);
        let before = m;
        assert_eq!(
            buy_spl(&mut m, &buyer(), &authority(), amount),
            Err(VendingMachineError::ShortSupply)
        );
        assert_eq!(m, before);
    }
}

#[test]
fn redemption_beyond_capacity_is_refused() {
    let mut m = funded_machine(10, 5, 100, 1000);
    let (mut t, _) = buy_ticket(&mut m, &machine_key(), &buyer(), &authority(), 50).unwrap();
    let (m0, t0) = (m, t);
    assert_eq!(
        buy_spl_with_ticket(&mut m, &mut t, &buyer(), &authority(), 51),
        Err(VendingMachineError::NotEnoughFunds)
    );
    assert_eq!(m, m0);
    assert_eq!(t, t0);
}

#[test]
fn funding_twice_adds_up() {
    let mut m = new_machine(10, 5, 100);
    fund_machine(&mut m, &authority(), &mint(), 300).unwrap();
    fund_machine(&mut m, &authority(), &mint(), 700).unwrap();
    assert_eq!(m.spl_stock, 1000);
    assert!(m.ready);
}

#[test]
fn funding_with_zero_makes_ready() {
    let mut m = new_machine(10, 5, 100);
    assert_eq!(
        fund_machine(&mut m, &authority(), &mint(), 0),
        Ok(vec![Transfer::Deposit { from: authority(), amount: 0 }])
    );
    assert_eq!(m.spl_stock, 0);
    assert!(m.ready);
}

#[test]
fn funding_refused_for_wrong_mint_or_funder() {
    let mut m = new_machine(10, 5, 100);
    let before = m;
    assert_eq!(fund_machine(&mut m, &authority(), &id(9), 5), Err(VendingMachineError::Unauthorized));
    assert_eq!(fund_machine(&mut m, &buyer(), &mint(), 5), Err(VendingMachineError::Unauthorized));
    assert_eq!(m, before);
}

#[test]
fn funding_past_u64_overflows() {
    let mut m = funded_machine(10, 5, 100, u64::MAX - 1);
    let before = m;
    assert_eq!(fund_machine(&mut m, &authority(), &mint(), 2), Err(VendingMachineError::Overflow));
    assert_eq!(m, before);
}

#[test]
fn ticket_refused_before_funding() {
    let mut m = new_machine(10, 5, 100);
    let before = m;
    assert_eq!(
        buy_ticket(&mut m, &machine_key(), &buyer(), &authority(), 1),
        Err(VendingMachineError::NotReady)
    );
    assert_eq!(m, before);
}

#[test]
fn tickets_sell_out() {
    let mut m = funded_machine(10, 5, 2, 1000);
    buy_ticket(&mut m, &machine_key(), &buyer(), &authority(), 1).unwrap();
    buy_ticket(&mut m, &machine_key(), &buyer(), &authority(), 1).unwrap();
    assert_eq!(m.tickets_sold, 2);
    assert!(m.tickets_sold <= m.ticket_allocation);
    let before = m;
    assert_eq!(
        buy_ticket(&mut m, &machine_key(), &buyer(), &authority(), 1),
        Err(VendingMachineError::NoTickets)
    );
    assert_eq!(m, before);
    assert_eq!(m.tickets_sold, 2);
}

#[test]
fn ticket_refused_for_wrong_authority() {
    let mut m = funded_machine(10, 5, 100, 1000);
    assert_eq!(
        buy_ticket(&mut m, &machine_key(), &buyer(), &buyer(), 1),
        Err(VendingMachineError::Unauthorized)
    );
    assert_eq!(m.tickets_sold, 0);
}

#[test]
fn ticket_price_overflow_is_refused() {
    let mut m = funded_machine(u64::MAX / 2 + 1, 5, 100, 1000);
    assert_eq!(
        buy_ticket(&mut m, &machine_key(), &buyer(), &authority(), 2),
        Err(VendingMachineError::Overflow)
    );
    assert_eq!(m.tickets_sold, 0);
}

#[test]
fn redemption_checks_in_order() {
    let mut m = funded_machine(10, 5, 100, 1000);
    let (mut t, _) = buy_ticket(&mut m, &machine_key(), &buyer(), &authority(), 50).unwrap();
    // someone else holding the ticket
    assert_eq!(
        buy_spl_with_ticket(&mut m, &mut t, &id(9), &authority(), 10),
        Err(VendingMachineError::Unauthorized)
    );
    // proceeds must go to the machine's authority
    assert_eq!(
        buy_spl_with_ticket(&mut m, &mut t, &buyer(), &buyer(), 10),
        Err(VendingMachineError::Unauthorized)
    );
    // more than the reserve left on the machine
    let mut small = funded_machine(10, 5, 5, 1000);
    let (mut t2, _) = buy_ticket(&mut small, &machine_key(), &buyer(), &authority(), 50).unwrap();
    assert_eq!(
        buy_spl_with_ticket(&mut small, &mut t2, &buyer(), &authority(), 10),
        Err(VendingMachineError::ShortSupply)
    );
    assert_eq!(t.spent, 0);
    assert_eq!(t2.spent, 0);
}

#[test]
fn redemption_on_unready_machine_is_refused() {
    let mut m = new_machine(10, 5, 100);
    let mut t = Ticket { vending_machine: machine_key(), buyer: buyer(), unspent: 10, spent: 0 };
    assert_eq!(
        buy_spl_with_ticket(&mut m, &mut t, &buyer(), &authority(), 5),
        Err(VendingMachineError::NotReady)
    );
}

#[test]
fn redemption_past_spent_capacity_overflows() {
    let mut m = funded_machine(10, 5, 100, 1000);
    let mut t = Ticket { vending_machine: machine_key(), buyer: buyer(), unspent: 20, spent: 30 };
    let t0 = t;
    assert_eq!(
        buy_spl_with_ticket(&mut m, &mut t, &buyer(), &authority(), 0),
        Err(VendingMachineError::Overflow)
    );
    assert_eq!(t, t0);
}

#[test]
fn redemption_beyond_stock_overflows() {
    let mut m = funded_machine(10, 5, 100, 40);
    let mut t = Ticket { vending_machine: machine_key(), buyer: buyer(), unspent: 50, spent: 0 };
    let before = m;
    assert_eq!(
        buy_spl_with_ticket(&mut m, &mut t, &buyer(), &authority(), 45),
        Err(VendingMachineError::Overflow)
    );
    assert_eq!(m, before);
}

#[test]
fn redemption_keeps_reserve_within_stock_and_spent_grows() {
    let mut m = funded_machine(10, 5, 100, 1000);
    let (mut t, _) = buy_ticket(&mut m, &machine_key(), &buyer(), &authority(), 50).unwrap();
    let mut last_spent = t.spent;
    for amount in [10u64, 5, 5] {
        buy_spl_with_ticket(&mut m, &mut t, &buyer(), &authority(), amount).unwrap();
        assert!(m.ticket_allocation <= m.spl_stock);
        assert!(t.spent >= last_spent);
        assert!(t.spent <= t.unspent);
        last_spent = t.spent;
    }
    assert_eq!((t.unspent, t.spent), (30, 20));
}

#[test]
fn direct_sale_within_unreserved_stock() {
    let mut m = funded_machine(10, 7, 100, 1000);
    let xs = buy_spl(&mut m, &buyer(), &authority(), 900).unwrap();
    assert_eq!(m.spl_stock, 100);
    assert!(m.ticket_allocation <= m.spl_stock);
    assert_eq!(
        xs,
        vec![
            Transfer::Payment { from: buyer(), to: authority(), amount: 6300 },
            Transfer::Delivery { to: buyer(), amount: 900 },
        ]
    );
}

#[test]
fn direct_sale_errors() {
    let mut m = new_machine(10, 5, 100);
    assert_eq!(buy_spl(&mut m, &buyer(), &authority(), 1), Err(VendingMachineError::NotReady));
    let mut m = funded_machine(10, 5, 100, 1000);
    let before = m;
    assert_eq!(buy_spl(&mut m, &buyer(), &authority(), 1001), Err(VendingMachineError::ShortSupply));
    assert_eq!(buy_spl(&mut m, &buyer(), &buyer(), 1), Err(VendingMachineError::Unauthorized));
    let mut pricey = funded_machine(10, u64::MAX, 100, 1000);
    assert_eq!(buy_spl(&mut pricey, &buyer(), &authority(), 2), Err(VendingMachineError::Overflow));
    assert_eq!(m, before);
}

#[test]
fn identity_comparison() {
    let a = id(7);
    let mut b = id(7);
    assert!(a.same_as(&b));
    b.bytes[31] = 8;
    assert!(!a.same_as(&b));
}

#[test]
fn signer_seeds_of_machine() {
    let m = new_machine(1, 1, 1);
    let seeds = m.signer_seeds();
    assert_eq!(seeds.len(), 3);
    assert_eq!(seeds[0], b"vending-machine".to_vec());
    assert_eq!(seeds[1], vec![1u8; 32]);
    assert_eq!(seeds[2], vec![254u8]);
}

#[test]
fn error_messages() {
    assert_eq!(VendingMachineError::NoTickets.message(), "Allocation tickets have sold out");
    assert_eq!(VendingMachineError::NotStarted.message(), "Sale not commenced");
}
