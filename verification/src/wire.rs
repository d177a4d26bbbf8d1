//! The fixed on-wire shape of a record: little-endian fields, zero padding,
//! and the byte-level model of one 512-byte record.

use vstd::prelude::*;
use vstd::arithmetic::div_mod::lemma_fundamental_div_mod;

use crate::block::UF2Block;
use crate::{FAMILY_ID, MAGIC_END, MAGIC_START0};

verus! {

/// The four bytes of `x` in little-endian order.
pub open spec fn le32(x: u32) -> Seq<u8> {
    seq![
        (x % 256) as u8,
        ((x / 256) % 256) as u8,
        ((x / 0x10000) % 256) as u8,
        ((x / 0x1000000) % 256) as u8,
    ]
}

/// The value a little-endian 4-byte field holds.
pub open spec fn le32_value(b: Seq<u8>) -> int
    recommends
        b.len() == 4,
{
    b[0] + 0x100 * b[1] + 0x10000 * b[2] + 0x1000000 * b[3]
}

/// Reading back the four little-endian bytes of `x` yields `x`.
pub proof fn lemma_le32_value(x: u32)
    ensures
        le32_value(le32(x)) == x,
{
    lemma_fundamental_div_mod(x as int, 0x100);
    lemma_fundamental_div_mod(x as int / 0x100, 0x100);
    lemma_fundamental_div_mod(x as int / 0x10000, 0x100);
    assert(x as int / 0x1000000 < 0x100);
    assert(x as int / 0x10000 / 0x100 == x as int / 0x1000000) by (nonlinear_arith);
    assert(x as int / 0x100 / 0x100 == x as int / 0x10000) by (nonlinear_arith);
}

/// `s` extended with zero bytes up to `n` bytes.
pub open spec fn zero_pad(s: Seq<u8>, n: nat) -> Seq<u8>
    recommends
        s.len() <= n,
{
    s + Seq::new((n - s.len()) as nat, |i: int| 0u8)
}

/// Appends the little-endian bytes of `x`.
pub fn push_le32(out: &mut Vec<u8>, x: u32)
    ensures
        final(out)@ == old(out)@ + le32(x),
{
    out.push((x % 256) as u8);
    out.push((x / 256 % 256) as u8);
    out.push((x / 0x10000 % 256) as u8);
    out.push((x / 0x1000000 % 256) as u8);
    proof {
        assert(out@ =~= old(out)@ + le32(x));
    }
}

/// The 512 bytes of one serialized record: magic, secondary magic, flags,
/// target address, logical payload length, record index, record count,
/// family id, the payload zero-padded to 476 bytes, and the trailing magic.
pub open spec fn record_bytes(
    block_no: u32,
    total_blocks: u32,
    start1: u32,
    flags: u32,
    target_addr: u32,
    payload: Seq<u8>,
) -> Seq<u8>
    recommends
        payload.len() <= 476,
{
    le32(MAGIC_START0) + le32(start1) + le32(flags) + le32(target_addr)
        + le32(payload.len() as u32) + le32(block_no) + le32(total_blocks) + le32(FAMILY_ID)
        + zero_pad(payload, 476) + le32(MAGIC_END)
}

/// Renders one logical record into its fixed 512-byte on-wire form.
pub fn serialize_block(block_no: u32, total_blocks: u32, block: &UF2Block) -> (out: Vec<u8>)
    requires
        block.payload@.len() <= 476,
    ensures
        out@ == record_bytes(
            block_no,
            total_blocks,
            block.start1,
            block.flags,
            block.target_addr,
            block.payload@,
        ),
        out@.len() == 512,
{
    let mut out: Vec<u8> = Vec::new();
    push_le32(&mut out, MAGIC_START0);
    push_le32(&mut out, block.start1);
    push_le32(&mut out, block.flags);
    push_le32(&mut out, block.target_addr);
    push_le32(&mut out, block.payload.len() as u32);
    push_le32(&mut out, block_no);
    push_le32(&mut out, total_blocks);
    push_le32(&mut out, FAMILY_ID);
    let ghost prefix = out@;
    assert(prefix.len() == 32);

    let mut i: usize = 0;
    while i < block.payload.len()
        invariant
            i <= block.payload@.len(),
            out@ == prefix + block.payload@.subrange(0, i as int),
        decreases block.payload@.len() - i,
    {
        out.push(block.payload[i]);
        proof {
            assert(out@ =~= prefix + block.payload@.subrange(0, i + 1));
        }
        i += 1;
    }
    proof {
        assert(block.payload@.subrange(0, block.payload@.len() as int) =~= block.payload@);
    }

    while out.len() < 508
        invariant
            prefix.len() == 32,
            block.payload@.len() <= 476,
            32 + block.payload@.len() <= out@.len() <= 508,
            out@ == prefix + zero_pad(block.payload@, (out@.len() - 32) as nat),
        decreases 508 - out@.len(),
    {
        out.push(0);
        proof {
            assert(out@ =~= prefix + zero_pad(block.payload@, (out@.len() - 32) as nat));
        }
    }

    push_le32(&mut out, MAGIC_END);
    proof {
        assert(out@ =~= record_bytes(
            block_no,
            total_blocks,
            block.start1,
            block.flags,
            block.target_addr,
            block.payload@,
        ));
    }
    out
}

/// A record is 512 bytes however short its payload is.
pub proof fn lemma_record_len(
    block_no: u32,
    total_blocks: u32,
    start1: u32,
    flags: u32,
    target_addr: u32,
    payload: Seq<u8>,
)
    requires
        payload.len() <= 476,
    ensures
        record_bytes(block_no, total_blocks, start1, flags, target_addr, payload).len() == 512,
{
}

} // verus!
