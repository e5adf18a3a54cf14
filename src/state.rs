use vstd::prelude::*;

verus! {

broadcast use vstd::array::group_array_axioms;

/// The 32-byte address of an account or a mint.
#[derive(Debug, Clone, Copy, PartialEq, Eq)]
pub struct Identity {
    pub bytes: [u8; 32],
}

impl Identity {
    /// Compares two addresses byte by byte.
    pub fn same_as(&self, other: &Identity) -> (r: bool)
        ensures
            r == (*self == *other),
    {
        let mut i: usize = 0;
        while i < 32
            invariant
                i <= 32,
                forall|j: int| 0 <= j < i ==> self.bytes@[j] == other.bytes@[j],
            decreases 32 - i,
        {
            if self.bytes[i] != other.bytes[i] {
                return false;
            }
            i = i + 1;
        }
        assert(self.bytes =~= other.bytes);
        true
    }
}

/// A vending machine record: the stock it holds for sale, the part of that
/// stock reserved for ticket holders, its prices and its sale windows.
#[derive(Debug, Clone, Copy, PartialEq, Eq)]
pub struct VendingMachine {
    /// The bump of the machine's program-derived address.
    pub bump: u8,
    /// The party that funds the machine and receives the proceeds.
    pub authority: Identity,
    /// The mint of the supply token on sale.
    pub spl_mint: Identity,
    /// Supply units the machine holds.
    pub spl_stock: u64,
    /// Supply units reserved for redemption through tickets; while tickets
    /// are still on sale, also the number of tickets offered.
    pub ticket_allocation: u64,
    /// Tickets issued so far.
    pub tickets_sold: u64,
    /// Price in credits of one allocation unit on a ticket.
    pub ppa: u64,
    /// Price in credits of one supply unit.
    pub ppt: u64,
    /// Whether the machine has been funded at least once.
    pub ready: bool,
    pub presale_start: i64,
    pub presale_end: i64,
    pub pubsale_start: i64,
    pub pubsale_end: i64,
}

/// The bytes of the text `vending-machine`, the first seed of every
/// machine's derived address.
pub open spec fn machine_seed_prefix() -> Seq<u8> {
    seq![118, 101, 110, 100, 105, 110, 103, 45, 109, 97, 99, 104, 105, 110, 101]
}

impl VendingMachine {
    /// The seeds from which the machine's derived address is computed, and
    /// with which the machine signs transfers out of its own token account:
    /// the fixed prefix, the authority's address and the bump.
    pub fn signer_seeds(&self) -> (r: Vec<Vec<u8>>)
        ensures
            r@.len() == 3,
            r@[0]@ == machine_seed_prefix(),
            r@[1]@ == self.authority.bytes@,
            r@[2]@ == seq![self.bump],
    {
        let prefix: Vec<u8> = vec![118, 101, 110, 100, 105, 110, 103, 45, 109, 97, 99, 104, 105, 110, 101];
        let mut authority: Vec<u8> = Vec::new();
        let mut i: usize = 0;
        while i < 32
            invariant
                i <= 32,
                authority@ == self.authority.bytes@.subrange(0, i as int),
            decreases 32 - i,
        {
            authority.push(self.authority.bytes[i]);
            i = i + 1;
        }
        let bump: Vec<u8> = vec![self.bump];
        assert(prefix@ =~= machine_seed_prefix());
        assert(authority@ =~= self.authority.bytes@);
        assert(bump@ =~= seq![self.bump]);
        vec![prefix, authority, bump]
    }
}

/// A right, held by one buyer, to redeem supply units at the ticket price.
#[derive(Debug, Clone, Copy, PartialEq, Eq)]
pub struct Ticket {
    /// The address of the machine that issued the ticket.
    pub vending_machine: Identity,
    /// The only party that may redeem the ticket.
    pub buyer: Identity,
    pub unspent: u64,
    pub spent: u64,
}

/// A movement of assets that must be carried out in the same transaction as
/// the state change that produced it.
#[derive(Debug, Clone, Copy, PartialEq, Eq)]
pub enum Transfer {
    /// Supply units move from `from`'s token account into the machine's,
    /// signed by `from`.
    Deposit { from: Identity, amount: u64 },
    /// Credits move from `from` to `to`, signed by `from`.
    Payment { from: Identity, to: Identity, amount: u64 },
    /// Supply units move from the machine's token account into `to`'s,
    /// signed by the machine through its derived address.
    Delivery { to: Identity, amount: u64 },
}

} // verus!
