use vstd::prelude::*;
use vstd::string::StrSliceExecFns;
use vstd::utf8::encode_utf8;
use crate::types::{Address, AddressKind};

verus! {

/// XDR tag of an address value.
pub const XDR_TAG_ADDRESS: u32 = 18;

/// XDR tag of a string value.
pub const XDR_TAG_STRING: u32 = 14;

/// A 32-bit unsigned integer, big-endian.
pub open spec fn be32(n: u32) -> Seq<u8> {
    seq![
        (n / 0x100_0000) as u8,
        ((n / 0x1_0000) % 0x100) as u8,
        ((n / 0x100) % 0x100) as u8,
        (n % 0x100) as u8,
    ]
}

/// XDR of an address value: the value tag, the address kind, for an account
/// the key type (ed25519), then the 32 key bytes.
pub open spec fn xdr_address(a: Address) -> Seq<u8> {
    match a.kind {
        AddressKind::Account => be32(XDR_TAG_ADDRESS) + be32(0) + be32(0) + a.key@,
        AddressKind::Contract => be32(XDR_TAG_ADDRESS) + be32(1) + a.key@,
    }
}

/// Zero bytes that pad a body of `len` bytes to a multiple of four.
pub open spec fn xdr_padding(len: nat) -> Seq<u8> {
    Seq::new(((4 - len % 4) % 4) as nat, |i: int| 0u8)
}

/// XDR of a string value whose UTF-8 bytes are `bytes`: the value tag, the
/// length, the bytes and their padding.
pub open spec fn xdr_string(bytes: Seq<u8>) -> Seq<u8> {
    be32(XDR_TAG_STRING) + be32(bytes.len() as u32) + bytes + xdr_padding(bytes.len())
}

/// A string can be written as XDR when its byte length fits in 32 bits.
pub open spec fn encodable_string(s: Seq<char>) -> bool {
    encode_utf8(s).len() <= u32::MAX
}

/// The message that a claim proof signs: the claimant's XDR followed by the
/// recipient hash's XDR.
pub open spec fn claim_payload(claimant: Address, recipient_proof_hash: Seq<char>) -> Seq<u8> {
    xdr_address(claimant) + xdr_string(encode_utf8(recipient_proof_hash))
}

fn push_be32(out: &mut Vec<u8>, n: u32)
    ensures
        final(out)@ == old(out)@ + be32(n),
{
    out.push((n / 0x100_0000) as u8);
    out.push(((n / 0x1_0000) % 0x100) as u8);
    out.push(((n / 0x100) % 0x100) as u8);
    out.push((n % 0x100) as u8);
    proof {
        assert(final(out)@ =~= old(out)@ + be32(n));
    }
}

fn push_bytes(out: &mut Vec<u8>, bytes: &[u8])
    ensures
        final(out)@ == old(out)@ + bytes@,
{
    let ghost start = out@;
    let mut i: usize = 0;
    while i < bytes.len()
        invariant
            i <= bytes@.len(),
            out@ == start + bytes@.subrange(0, i as int),
        decreases bytes@.len() - i,
    {
        out.push(bytes[i]);
        i = i + 1;
        proof {
            assert(bytes@.subrange(0, i as int) =~= bytes@.subrange(0, i - 1) + seq![bytes@[i - 1]]);
        }
    }
    proof {
        assert(bytes@.subrange(0, bytes@.len() as int) =~= bytes@);
    }
}

/// Writes the XDR of an address.
pub fn encode_address(out: &mut Vec<u8>, a: &Address)
    ensures
        final(out)@ == old(out)@ + xdr_address(*a),
{
    push_be32(out, XDR_TAG_ADDRESS);
    match a.kind {
        AddressKind::Account => {
            push_be32(out, 0);
            push_be32(out, 0);
        },
        AddressKind::Contract => {
            push_be32(out, 1);
        },
    }
    push_bytes(out, a.key.as_slice());
    proof {
        assert(final(out)@ =~= old(out)@ + xdr_address(*a));
    }
}

/// Writes the XDR of a string whose UTF-8 bytes are `bytes`.
pub fn encode_string_bytes(out: &mut Vec<u8>, bytes: &Vec<u8>)
    requires
        bytes@.len() <= u32::MAX,
    ensures
        final(out)@ == old(out)@ + xdr_string(bytes@),
{
    push_be32(out, XDR_TAG_STRING);
    let len: u32 = bytes.len() as u32;
    push_be32(out, len);
    push_bytes(out, bytes.as_slice());
    let pad: usize = (4 - bytes.len() % 4) % 4;
    let ghost before_pad = out@;
    let mut i: usize = 0;
    while i < pad
        invariant
            i <= pad,
            pad == ((4 - bytes@.len() % 4) % 4),
            out@ == before_pad + Seq::new(i as nat, |k: int| 0u8),
        decreases pad - i,
    {
        out.push(0u8);
        i = i + 1;
        proof {
            assert(out@ =~= before_pad + Seq::new(i as nat, |k: int| 0u8));
        }
    }
    proof {
        assert(final(out)@ =~= old(out)@ + xdr_string(bytes@));
    }
}

/// The message a claim proof must sign, or `None` when the recipient hash is
/// too long to be written as XDR.
pub fn build_claim_payload(claimant: &Address, recipient_proof_hash: &String) -> (r: Option<Vec<u8>>)
    ensures
        r is Some <==> encodable_string(recipient_proof_hash@),
        r matches Some(p) ==> p@ == claim_payload(*claimant, recipient_proof_hash@),
{
    let bytes = recipient_proof_hash.as_str().as_bytes_vec();
    if bytes.len() > 0xffff_ffffusize {
        return None;
    }
    let mut out: Vec<u8> = Vec::new();
    encode_address(&mut out, claimant);
    encode_string_bytes(&mut out, &bytes);
    proof {
        assert(out@ =~= claim_payload(*claimant, recipient_proof_hash@));
    }
    Some(out)
}

} // verus!
