//! The wire form of a signed request for the relay: one JSON object that holds
//! the domain, every field of the forwarded request, its registered type, the
//! signature and the gas estimate. Byte strings and words are written as
//! `0x`-prefixed lower-case hex, text as JSON strings.
use vstd::prelude::*;
use vstd::string::StringSliceAdditionalSpecFns;
use vstd::utf8::encode_utf8;
use crate::abi::append_bytes;
use crate::typed_data::{word_of_u64, word_of_u64_spec, ForwardRequest};

verus! {

/// The lower-case hex digit of a value below 16.
pub open spec fn hex_digit(n: u8) -> u8 {
    if n < 10 { (48 + n) as u8 } else { (87 + n) as u8 }
}

/// Two hex digits per byte.
pub open spec fn hex_bytes(b: Seq<u8>) -> Seq<u8>
    decreases b.len(),
{
    if b.len() == 0 {
        Seq::empty()
    } else {
        hex_bytes(b.drop_last()) + seq![hex_digit(b.last() / 16), hex_digit(b.last() % 16)]
    }
}

/// A JSON string holding `0x` and the hex digits of `b`.
pub open spec fn quoted_hex(b: Seq<u8>) -> Seq<u8> {
    seq![34u8, 48u8, 120u8] + hex_bytes(b) + seq![34u8]
}

/// One byte of a JSON string body: the quote and the backslash escaped by a
/// backslash, control bytes as `\u00XX`, every other byte as it is.
pub open spec fn escape_byte(c: u8) -> Seq<u8> {
    if c == 34 {
        seq![92u8, 34u8]
    } else if c == 92 {
        seq![92u8, 92u8]
    } else if c < 32 {
        seq![92u8, 117u8, 48u8, 48u8, hex_digit(c / 16), hex_digit(c % 16)]
    } else {
        seq![c]
    }
}

/// The escaped body of a JSON string.
pub open spec fn escape_bytes(b: Seq<u8>) -> Seq<u8>
    decreases b.len(),
{
    if b.len() == 0 {
        Seq::empty()
    } else {
        escape_bytes(b.drop_last()) + escape_byte(b.last())
    }
}

/// A JSON string holding the UTF-8 text `b`.
pub open spec fn quoted_text(b: Seq<u8>) -> Seq<u8> {
    seq![34u8] + escape_bytes(b) + seq![34u8]
}

/// The relay payload of a signed request with its gas estimate.
pub open spec fn payload_spec(r: ForwardRequest, signature: Seq<u8>, gas: u64) -> Seq<u8> {
    "{\"forwardRequest\":{\"domain\":{\"name\":".spec_bytes() + quoted_text(encode_utf8(r.domain_name@))
        + ",\"version\":".spec_bytes() + quoted_text(encode_utf8(r.domain_version@))
        + ",\"chainId\":".spec_bytes() + quoted_hex(r.chain_id@)
        + ",\"verifyingContract\":".spec_bytes() + quoted_hex(r.verifying_contract@)
        + "},\"message\":{\"from\":".spec_bytes() + quoted_hex(r.from@)
        + ",\"to\":".spec_bytes() + quoted_hex(r.to@)
        + ",\"value\":".spec_bytes() + quoted_hex(r.value@)
        + ",\"gas\":".spec_bytes() + quoted_hex(r.gas@)
        + ",\"nonce\":".spec_bytes() + quoted_hex(r.nonce@)
        + ",\"data\":".spec_bytes() + quoted_hex(r.data@)
        + ",\"validUntilTime\":".spec_bytes() + quoted_hex(r.valid_until_time@)
        + "},\"typeName\":".spec_bytes() + quoted_text(encode_utf8(r.request_type_name@))
        + ",\"typeSuffixData\":".spec_bytes() + quoted_text(encode_utf8(r.type_suffix_data@))
        + "},\"metadata\":{\"signature\":".spec_bytes() + quoted_hex(signature)
        + ",\"estimatedGas\":".spec_bytes() + quoted_hex(word_of_u64_spec(gas))
        + "}}".spec_bytes()
}

fn digit(n: u8) -> (r: u8)
    requires
        n < 16,
    ensures
        r == hex_digit(n),
{
    if n < 10 { 48 + n } else { 87 + n }
}

fn push_quoted_hex(out: &mut Vec<u8>, b: &[u8])
    ensures
        final(out)@ == old(out)@ + quoted_hex(b@),
{
    let ghost start = out@;
    out.push(34u8);
    out.push(48u8);
    out.push(120u8);
    let ghost head = out@;
    let mut i: usize = 0;
    while i < b.len()
        invariant
            0 <= i <= b@.len(),
            head == start + seq![34u8, 48u8, 120u8],
            out@ == head + hex_bytes(b@.take(i as int)),
        decreases b@.len() - i,
    {
        let c = b[i];
        proof {
            let t = b@.take(i as int + 1);
            assert(t.drop_last() == b@.take(i as int));
            assert(t.last() == c);
        }
        out.push(digit(c / 16));
        out.push(digit(c % 16));
        i = i + 1;
        proof {
            assert(out@ =~= head + hex_bytes(b@.take(i as int)));
        }
    }
    out.push(34u8);
    proof {
        assert(b@.take(b@.len() as int) == b@);
        assert(out@ =~= start + quoted_hex(b@));
    }
}

fn push_escaped_byte(out: &mut Vec<u8>, c: u8)
    ensures
        final(out)@ == old(out)@ + escape_byte(c),
{
    let ghost start = out@;
    if c == 34 {
        out.push(92u8);
        out.push(34u8);
    } else if c == 92 {
        out.push(92u8);
        out.push(92u8);
    } else if c < 32 {
        out.push(92u8);
        out.push(117u8);
        out.push(48u8);
        out.push(48u8);
        out.push(digit(c / 16));
        out.push(digit(c % 16));
    } else {
        out.push(c);
    }
    proof {
        assert(out@ =~= start + escape_byte(c));
    }
}

fn push_quoted_text(out: &mut Vec<u8>, b: &[u8])
    ensures
        final(out)@ == old(out)@ + quoted_text(b@),
{
    let ghost start = out@;
    out.push(34u8);
    let ghost head = out@;
    let mut i: usize = 0;
    while i < b.len()
        invariant
            0 <= i <= b@.len(),
            head == start + seq![34u8],
            out@ == head + escape_bytes(b@.take(i as int)),
        decreases b@.len() - i,
    {
        let c = b[i];
        proof {
            let t = b@.take(i as int + 1);
            assert(t.drop_last() == b@.take(i as int));
            assert(t.last() == c);
        }
        push_escaped_byte(out, c);
        i = i + 1;
        proof {
            assert(out@ =~= head + escape_bytes(b@.take(i as int)));
        }
    }
    out.push(34u8);
    proof {
        assert(b@.take(b@.len() as int) == b@);
        assert(out@ =~= start + quoted_text(b@));
    }
}

/// Writes the relay payload of `r`, signed with `signature`, with the gas
/// estimate `gas`.
pub fn relay_payload(r: &ForwardRequest, signature: &Vec<u8>, gas: u64) -> (out: Vec<u8>)
    ensures
        out@ == payload_spec(*r, signature@, gas),
{
    let mut out: Vec<u8> = Vec::new();
    append_bytes(&mut out, "{\"forwardRequest\":{\"domain\":{\"name\":".as_bytes());
    push_quoted_text(&mut out, r.domain_name.as_str().as_bytes());
    append_bytes(&mut out, ",\"version\":".as_bytes());
    push_quoted_text(&mut out, r.domain_version.as_str().as_bytes());
    append_bytes(&mut out, ",\"chainId\":".as_bytes());
    push_quoted_hex(&mut out, &r.chain_id);
    append_bytes(&mut out, ",\"verifyingContract\":".as_bytes());
    push_quoted_hex(&mut out, &r.verifying_contract);
    append_bytes(&mut out, "},\"message\":{\"from\":".as_bytes());
    push_quoted_hex(&mut out, &r.from);
    append_bytes(&mut out, ",\"to\":".as_bytes());
    push_quoted_hex(&mut out, &r.to);
    append_bytes(&mut out, ",\"value\":".as_bytes());
    push_quoted_hex(&mut out, &r.value);
    append_bytes(&mut out, ",\"gas\":".as_bytes());
    push_quoted_hex(&mut out, &r.gas);
    append_bytes(&mut out, ",\"nonce\":".as_bytes());
    push_quoted_hex(&mut out, &r.nonce);
    append_bytes(&mut out, ",\"data\":".as_bytes());
    push_quoted_hex(&mut out, r.data.as_slice());
    append_bytes(&mut out, ",\"validUntilTime\":".as_bytes());
    push_quoted_hex(&mut out, &r.valid_until_time);
    append_bytes(&mut out, "},\"typeName\":".as_bytes());
    push_quoted_text(&mut out, r.request_type_name.as_str().as_bytes());
    append_bytes(&mut out, ",\"typeSuffixData\":".as_bytes());
    push_quoted_text(&mut out, r.type_suffix_data.as_str().as_bytes());
    append_bytes(&mut out, "},\"metadata\":{\"signature\":".as_bytes());
    push_quoted_hex(&mut out, signature.as_slice());
    append_bytes(&mut out, ",\"estimatedGas\":".as_bytes());
    let g = word_of_u64(gas);
    push_quoted_hex(&mut out, &g);
    append_bytes(&mut out, "}}".as_bytes());
    out
}

} // verus!
