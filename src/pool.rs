//! The pool record and the account keys handed to the venue.
use vstd::prelude::*;

verus! {

/// Number of spot markets on the venue.
pub const MAX_PAIRS: usize = 15;

/// One pool, identified by its name and its admin's key.
#[derive(Clone, Debug)]
pub struct Pool {
    pub pool_name: String,
    pub pool_bump: u8,
    pub iou_mint_bump: u8,
    /// Key of the receipt-token mint.
    pub iou_mint: [u8; 32],
    pub admin: [u8; 32],
    /// Deposit fee in basis points.
    pub fee_basis: u8,
}

impl Pool {
    pub fn new(
        pool_name: String,
        pool_bump: u8,
        iou_mint_bump: u8,
        iou_mint: [u8; 32],
        admin: [u8; 32],
        fee_basis: u8,
    ) -> (r: Pool)
        ensures
            r.pool_name@ == pool_name@,
            r.pool_bump == pool_bump,
            r.iou_mint_bump == iou_mint_bump,
            r.iou_mint == iou_mint,
            r.admin == admin,
            r.fee_basis == fee_basis,
    {
        Pool { pool_name, pool_bump, iou_mint_bump, iou_mint, admin, fee_basis }
    }
}

pub open spec fn is_default_key(k: [u8; 32]) -> bool {
    forall|j: int| 0 <= j < 32 ==> k@[j] == 0
}

/// The open-orders keys of every market: the given keys in order, then the
/// all-zero key for each market left.
pub fn convert_remaining_accounts_to_open_orders_keys(keys: &Vec<[u8; 32]>) -> (r: Vec<[u8; 32]>)
    requires
        keys@.len() <= MAX_PAIRS,
    ensures
        r@.len() == MAX_PAIRS,
        forall|i: int| 0 <= i < keys@.len() ==> r@[i] == keys@[i],
        forall|i: int| keys@.len() <= i < MAX_PAIRS ==> is_default_key(#[trigger] r@[i]),
{
    let mut result: Vec<[u8; 32]> = Vec::new();
    let mut i: usize = 0;
    while i < MAX_PAIRS
        invariant
            keys@.len() <= MAX_PAIRS,
            i <= MAX_PAIRS,
            result@.len() == i,
            forall|k: int| 0 <= k < i && k < keys@.len() ==> result@[k] == keys@[k],
            forall|k: int| keys@.len() <= k < i ==> is_default_key(#[trigger] result@[k]),
        decreases MAX_PAIRS - i,
    {
        if i < keys.len() {
            result.push(keys[i]);
        } else {
            let zero: [u8; 32] = [0u8; 32];
            result.push(zero);
        }
        i += 1;
    }
    result
}

} // verus!
