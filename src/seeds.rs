//! Seed paths of the program-derived addresses that stand in for a user.
use vstd::prelude::*;
use vstd::slice::slice_to_vec;

verus! {

/// The bytes of the label `open-orders`.
pub open spec fn open_orders_label() -> Seq<u8> {
    seq![111u8, 112, 101, 110, 45, 111, 114, 100, 101, 114, 115]
}

/// The bytes of the label `open-orders-init`.
pub open spec fn open_orders_init_label() -> Seq<u8> {
    open_orders_label() + seq![45u8, 105, 110, 105, 116]
}

/// The seed path of a user's open orders authority on a market.
pub open spec fn authority_path(dex: [u8; 32], market: [u8; 32], authority: [u8; 32], bump: u8)
    -> Seq<Seq<u8>> {
    seq![open_orders_label(), dex@, market@, authority@, seq![bump]]
}

/// The seed path of the address that may authorize account creation on a
/// market.
pub open spec fn init_authority_path(dex: [u8; 32], market: [u8; 32], bump: u8) -> Seq<Seq<u8>> {
    seq![open_orders_init_label(), dex@, market@, seq![bump]]
}

fn label_bytes(init: bool) -> (r: Vec<u8>)
    ensures
        r@ == (if init {
            open_orders_init_label()
        } else {
            open_orders_label()
        }),
{
    let mut r: Vec<u8> = vec![111u8, 112, 101, 110, 45, 111, 114, 100, 101, 114, 115];
    if init {
        r.push(45u8);
        r.push(105u8);
        r.push(110u8);
        r.push(105u8);
        r.push(116u8);
    }
    proof {
        assert(r@ =~= (if init {
            open_orders_init_label()
        } else {
            open_orders_label()
        }));
    }
    r
}

/// Returns the seeds used for a user's open orders account PDA.
pub fn open_orders_authority(dex: &[u8; 32], market: &[u8; 32], authority: &[u8; 32], bump: u8)
    -> (r: Vec<Vec<u8>>)
    ensures
        r@.map_values(|s: Vec<u8>| s@) == authority_path(*dex, *market, *authority, bump),
{
    let mut r: Vec<Vec<u8>> = Vec::new();
    r.push(label_bytes(false));
    r.push(slice_to_vec(dex.as_slice()));
    r.push(slice_to_vec(market.as_slice()));
    r.push(slice_to_vec(authority.as_slice()));
    r.push(vec![bump]);
    proof {
        assert(r@[4]@ =~= seq![bump]);
        assert(r@.map_values(|s: Vec<u8>| s@) =~= authority_path(*dex, *market, *authority, bump));
    }
    r
}

/// Returns the seeds used for the open orders init authority: the account
/// that must sign to create a new open orders account on the market.
pub fn open_orders_init_authority(dex: &[u8; 32], market: &[u8; 32], bump: u8) -> (r: Vec<
    Vec<u8>,
>)
    ensures
        r@.map_values(|s: Vec<u8>| s@) == init_authority_path(*dex, *market, bump),
{
    let mut r: Vec<Vec<u8>> = Vec::new();
    r.push(label_bytes(true));
    r.push(slice_to_vec(dex.as_slice()));
    r.push(slice_to_vec(market.as_slice()));
    r.push(vec![bump]);
    proof {
        assert(r@[3]@ =~= seq![bump]);
        assert(r@.map_values(|s: Vec<u8>| s@) =~= init_authority_path(*dex, *market, bump));
    }
    r
}

} // verus!
