use vstd::prelude::*;

use crate::key::Key;

verus! {

/// An account that an instruction reads or writes, with the permissions it asks for.
pub struct AccountMeta {
    pub pubkey: Key,
    pub is_signer: bool,
    pub is_writable: bool,
}

/// An instruction for another program, as plain values: the program that runs it,
/// the accounts it touches and its serialised arguments.
pub struct Instruction {
    pub program_id: Key,
    pub accounts: Vec<AccountMeta>,
    pub data: Vec<u8>,
}

/// The account entry `pubkey` with the given permissions.
pub open spec fn meta(pubkey: Key, is_signer: bool, is_writable: bool) -> AccountMeta {
    AccountMeta { pubkey, is_signer, is_writable }
}

/// The address of the system program: 32 zero bytes.
pub open spec fn is_system_program(k: Key) -> bool {
    k.bytes@ == Seq::new(32, |i: int| 0u8)
}

/// The eight bytes of `x`, least significant first.
pub open spec fn le_bytes(x: u64) -> Seq<u8> {
    Seq::new(8, |i: int| ((x >> ((8 * i) as u64)) & 0xffu64) as u8)
}

/// The serialised arguments of the system program's transfer of `lamports`: the transfer's
/// variant number, 2, as four little-endian bytes, then `lamports` as eight.
pub open spec fn system_transfer_data(lamports: u64) -> Seq<u8> {
    seq![2u8, 0u8, 0u8, 0u8] + le_bytes(lamports)
}

/// What a system-program transfer of `lamports` from `from` to `to` is: an instruction for
/// the system program, with `from` as writable signer and `to` as writable account.
pub open spec fn is_system_transfer(ix: Instruction, from: Key, to: Key, lamports: u64) -> bool {
    &&& is_system_program(ix.program_id)
    &&& ix.accounts@ == seq![meta(from, true, true), meta(to, false, true)]
    &&& ix.data@ == system_transfer_data(lamports)
}

/// Calls `solana_program::system_instruction::transfer`, which builds the system program's
/// instruction that moves `lamports` from `from` to `to`. Claimed, as its source shows: the
/// program is the system program (all-zero address), the accounts are `from` (signer, writable)
/// then `to` (writable), and the data is the serialised transfer of `lamports`: the variant
/// number 2 as a little-endian `u32`, then `lamports` as a little-endian `u64`.
#[verifier::external_body]
pub(crate) fn system_transfer(from: &Key, to: &Key, lamports: u64) -> (ix: Instruction)
    ensures
        is_system_program(ix.program_id),
        ix.accounts@ == seq![meta(*from, true, true), meta(*to, false, true)],
        ix.data@ == system_transfer_data(lamports),
{
    let ix = anchor_lang::solana_program::system_instruction::transfer(
        &anchor_lang::prelude::Pubkey::new_from_array(from.bytes),
        &anchor_lang::prelude::Pubkey::new_from_array(to.bytes),
        lamports,
    );
    Instruction {
        program_id: Key { bytes: ix.program_id.to_bytes() },
        accounts: ix.accounts.iter().map(|m| AccountMeta {
            pubkey: Key { bytes: m.pubkey.to_bytes() },
            is_signer: m.is_signer,
            is_writable: m.is_writable,
        }).collect(),
        data: ix.data,
    }
}

/// The number that eight bytes stand for, least significant first.
pub open spec fn le_value(b: Seq<u8>) -> int {
    b[0] + 256 * b[1] + 65536 * b[2] + 16777216 * b[3] + 4294967296 * b[4] + 1099511627776 * b[5]
        + 281474976710656 * b[6] + 72057594037927936 * b[7]
}

/// A system-program transfer names the system program (all-zero address), takes the sender as
/// writable signer and the receiver as writable non-signer, and its data is twelve bytes: the
/// transfer's variant number 2 as a little-endian `u32`, then eight bytes that read back, least
/// significant first, as the amount. So transfers of different amounts carry different data.
pub proof fn lemma_system_transfer_shape(ix: Instruction, from: Key, to: Key, lamports: u64, other: u64)
    requires
        is_system_transfer(ix, from, to, lamports),
    ensures
        forall|i: int| 0 <= i < 32 ==> ix.program_id.bytes@[i] == 0u8,
        ix.accounts@.len() == 2,
        ix.accounts@[0].pubkey == from && ix.accounts@[0].is_signer && ix.accounts@[0].is_writable,
        ix.accounts@[1].pubkey == to && !ix.accounts@[1].is_signer && ix.accounts@[1].is_writable,
        ix.data@.len() == 12,
        ix.data@[0] == 2u8 && ix.data@[1] == 0u8 && ix.data@[2] == 0u8 && ix.data@[3] == 0u8,
        le_value(ix.data@.subrange(4, 12)) == lamports,
        other != lamports ==> system_transfer_data(other) != system_transfer_data(lamports),
{
    let d = ix.data@.subrange(4, 12);
    assert(d =~= le_bytes(lamports));
    let x = lamports;
    assert(x == ((x >> 0u64) & 0xffu64) + 256 * ((x >> 8u64) & 0xffu64) + 65536 * ((x >> 16u64) & 0xffu64)
        + 16777216 * ((x >> 24u64) & 0xffu64) + 4294967296 * ((x >> 32u64) & 0xffu64)
        + 1099511627776 * ((x >> 40u64) & 0xffu64) + 281474976710656 * ((x >> 48u64) & 0xffu64)
        + 72057594037927936 * ((x >> 56u64) & 0xffu64)) by (bit_vector);
    assert forall|k: u64| #![auto] ((x >> k) & 0xffu64) as u8 == (x >> k) & 0xffu64 by {
        assert(((x >> k) & 0xffu64) < 256) by (bit_vector);
    }
    assert(d[0] == ((x >> 0u64) & 0xffu64) as u8);
    assert(d[1] == ((x >> 8u64) & 0xffu64) as u8);
    assert(d[2] == ((x >> 16u64) & 0xffu64) as u8);
    assert(d[3] == ((x >> 24u64) & 0xffu64) as u8);
    assert(d[4] == ((x >> 32u64) & 0xffu64) as u8);
    assert(d[5] == ((x >> 40u64) & 0xffu64) as u8);
    assert(d[6] == ((x >> 48u64) & 0xffu64) as u8);
    assert(d[7] == ((x >> 56u64) & 0xffu64) as u8);
    if other != lamports && system_transfer_data(other) == system_transfer_data(lamports) {
        let y = other;
        let e = system_transfer_data(other).subrange(4, 12);
        assert(e =~= le_bytes(other));
        assert(e =~= d);
        assert(y == ((y >> 0u64) & 0xffu64) + 256 * ((y >> 8u64) & 0xffu64) + 65536 * ((y >> 16u64) & 0xffu64)
            + 16777216 * ((y >> 24u64) & 0xffu64) + 4294967296 * ((y >> 32u64) & 0xffu64)
            + 1099511627776 * ((y >> 40u64) & 0xffu64) + 281474976710656 * ((y >> 48u64) & 0xffu64)
            + 72057594037927936 * ((y >> 56u64) & 0xffu64)) by (bit_vector);
        assert forall|k: u64| #![auto] ((y >> k) & 0xffu64) as u8 == (y >> k) & 0xffu64 by {
            assert(((y >> k) & 0xffu64) < 256) by (bit_vector);
        }
        assert(e[0] == ((y >> 0u64) & 0xffu64) as u8);
        assert(e[1] == ((y >> 8u64) & 0xffu64) as u8);
        assert(e[2] == ((y >> 16u64) & 0xffu64) as u8);
        assert(e[3] == ((y >> 24u64) & 0xffu64) as u8);
        assert(e[4] == ((y >> 32u64) & 0xffu64) as u8);
        assert(e[5] == ((y >> 40u64) & 0xffu64) as u8);
        assert(e[6] == ((y >> 48u64) & 0xffu64) as u8);
        assert(e[7] == ((y >> 56u64) & 0xffu64) as u8);
    }
}

/// A transfer of `amount` tokens between two token accounts, authorised by `authority`.
pub struct TokenTransfer {
    pub from: Key,
    pub to: Key,
    pub authority: Key,
    pub amount: u64,
}

} // verus!
