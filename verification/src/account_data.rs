//! Serialized record layout. Each persisted record is a type discriminator,
//! followed by the record's fields (integers little-endian, booleans as one
//! byte), followed by the opaque locator-derivation seed.

use vstd::prelude::*;

use crate::state::{
    BridgeCardsState, MerchantDebitorState, MerchantDestinationState, MerchantManagerState,
    UserDelegateState,
};

verus! {

/// The little-endian bytes of a 64-bit value, least significant first.
pub open spec fn u64_le_bytes(x: u64) -> Seq<u8> {
    seq![
        (x % 256) as u8,
        ((x / 256) % 256) as u8,
        ((x / 65536) % 256) as u8,
        ((x / 16777216) % 256) as u8,
        ((x / 4294967296) % 256) as u8,
        ((x / 1099511627776) % 256) as u8,
        ((x / 281474976710656) % 256) as u8,
        ((x / 72057594037927936) % 256) as u8,
    ]
}

/// The little-endian bytes of a 32-bit value, least significant first.
pub open spec fn u32_le_bytes(x: u32) -> Seq<u8> {
    seq![
        (x % 256) as u8,
        ((x / 256) % 256) as u8,
        ((x / 65536) % 256) as u8,
        ((x / 16777216) % 256) as u8,
    ]
}

/// A boolean as one byte: one for true, zero for false.
pub open spec fn bool_byte(b: bool) -> u8 {
    if b {
        1
    } else {
        0
    }
}

fn push_u64_le(data: &mut Vec<u8>, x: u64)
    ensures
        final(data)@ == old(data)@ + u64_le_bytes(x),
{
    data.push((x % 256) as u8);
    data.push(((x / 256) % 256) as u8);
    data.push(((x / 65536) % 256) as u8);
    data.push(((x / 16777216) % 256) as u8);
    data.push(((x / 4294967296) % 256) as u8);
    data.push(((x / 1099511627776) % 256) as u8);
    data.push(((x / 281474976710656) % 256) as u8);
    data.push(((x / 72057594037927936) % 256) as u8);
    proof {
        assert(data@ =~= old(data)@ + u64_le_bytes(x));
    }
}

fn push_u32_le(data: &mut Vec<u8>, x: u32)
    ensures
        final(data)@ == old(data)@ + u32_le_bytes(x),
{
    data.push((x % 256) as u8);
    data.push(((x / 256) % 256) as u8);
    data.push(((x / 65536) % 256) as u8);
    data.push(((x / 16777216) % 256) as u8);
    proof {
        assert(data@ =~= old(data)@ + u32_le_bytes(x));
    }
}

/// Serialization of one record type into its persisted byte layout.
pub trait AccountData {
    /// The record's persisted bytes: its type discriminator, its fields in
    /// declaration order, then its locator-derivation seed.
    spec fn spec_account_data(&self) -> Seq<u8>;

    /// Serialize the record; the result is exactly `spec_account_data`.
    fn account_data(&self) -> (data: Vec<u8>)
        ensures
            data@ == self.spec_account_data(),
    ;
}

impl AccountData for BridgeCardsState {
    open spec fn spec_account_data(&self) -> Seq<u8> {
        seq![0u8] + u64_le_bytes(self.admin.0) + seq![self.bump]
    }

    fn account_data(&self) -> (data: Vec<u8>) {
        let mut data: Vec<u8> = Vec::new();
        data.push(0u8);
        push_u64_le(&mut data, self.admin.0);
        data.push(self.bump);
        proof {
            assert(data@ =~= self.spec_account_data());
        }
        data
    }
}

impl AccountData for MerchantManagerState {
    open spec fn spec_account_data(&self) -> Seq<u8> {
        seq![1u8] + u64_le_bytes(self.manager.0) + seq![self.bump]
    }

    fn account_data(&self) -> (data: Vec<u8>) {
        let mut data: Vec<u8> = Vec::new();
        data.push(1u8);
        push_u64_le(&mut data, self.manager.0);
        data.push(self.bump);
        proof {
            assert(data@ =~= self.spec_account_data());
        }
        data
    }
}

impl AccountData for MerchantDebitorState {
    open spec fn spec_account_data(&self) -> Seq<u8> {
        seq![2u8] + seq![bool_byte(self.allowed)] + seq![self.bump]
    }

    fn account_data(&self) -> (data: Vec<u8>) {
        let mut data: Vec<u8> = Vec::new();
        data.push(2u8);
        data.push(if self.allowed { 1 } else { 0 });
        data.push(self.bump);
        proof {
            assert(data@ =~= self.spec_account_data());
        }
        data
    }
}

impl AccountData for MerchantDestinationState {
    open spec fn spec_account_data(&self) -> Seq<u8> {
        seq![3u8] + seq![bool_byte(self.allowed)] + seq![self.bump]
    }

    fn account_data(&self) -> (data: Vec<u8>) {
        let mut data: Vec<u8> = Vec::new();
        data.push(3u8);
        data.push(if self.allowed { 1 } else { 0 });
        data.push(self.bump);
        proof {
            assert(data@ =~= self.spec_account_data());
        }
        data
    }
}

impl AccountData for UserDelegateState {
    open spec fn spec_account_data(&self) -> Seq<u8> {
        seq![4u8] + u64_le_bytes(self.per_transfer_limit) + u64_le_bytes(self.period_transfer_limit)
            + u64_le_bytes(self.period_transferred_amount) + u64_le_bytes(
            self.period_timestamp_last_reset,
        ) + u32_le_bytes(self.transfer_limit_period_seconds) + u64_le_bytes(
            self.slot_last_transferred,
        ) + seq![self.bump]
    }

    fn account_data(&self) -> (data: Vec<u8>) {
        let mut data: Vec<u8> = Vec::new();
        data.push(4u8);
        push_u64_le(&mut data, self.per_transfer_limit);
        push_u64_le(&mut data, self.period_transfer_limit);
        push_u64_le(&mut data, self.period_transferred_amount);
        push_u64_le(&mut data, self.period_timestamp_last_reset);
        push_u32_le(&mut data, self.transfer_limit_period_seconds);
        push_u64_le(&mut data, self.slot_last_transferred);
        data.push(self.bump);
        proof {
            assert(data@ =~= self.spec_account_data());
        }
        data
    }
}

} // verus!
