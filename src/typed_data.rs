//! The forwarded request that a relay executes on a signer's behalf, and its
//! typed structured-data digest: the domain separator and the struct hash,
//! joined under the `0x19 0x01` prefix, which the signer signs.
use vstd::prelude::*;
use vstd::string::StringSliceAdditionalSpecFns;
use vstd::utf8::encode_utf8;
use crate::abi::{address_padding, append_bytes};
use crate::hash::{keccak, keccak_of};

verus! {

/// The gas allowance written into every request: large enough that a
/// following estimation does not fail on an undersized hint.
pub const REQUEST_GAS: u64 = 30000;

/// A big-endian 256-bit word holding `v`.
pub open spec fn word_of_u64_spec(v: u64) -> Seq<u8> {
    Seq::new(32, |i: int| if i < 24 { 0u8 } else { (v >> ((8 * (31 - i)) as u64)) as u8 })
}

/// The word zero.
pub open spec fn zero_word() -> Seq<u8> {
    Seq::new(32, |i: int| 0u8)
}

/// The largest word: every bit set.
pub open spec fn max_word() -> Seq<u8> {
    Seq::new(32, |i: int| 0xffu8)
}

/// Writes `v` as a big-endian 256-bit word.
pub fn word_of_u64(v: u64) -> (r: [u8; 32])
    ensures
        r@ == word_of_u64_spec(v),
{
    let mut w: [u8; 32] = [0u8; 32];
    let mut i: usize = 24;
    while i < 32
        invariant
            24 <= i <= 32,
            forall|j: int| 0 <= j < 24 ==> w@[j] == 0u8,
            forall|j: int| 24 <= j < i ==> w@[j] == word_of_u64_spec(v)[j],
        decreases 32 - i,
    {
        let shift: u64 = (8 * (31 - i)) as u64;
        w[i] = (v >> shift) as u8;
        i = i + 1;
    }
    proof {
        assert(w@ =~= word_of_u64_spec(v));
    }
    w
}

/// Why a chain reply could not be read.
#[derive(Clone, Copy, Debug, PartialEq, Eq, Structural)]
pub enum DecodeError {
    /// The reply is longer than one word.
    TooLong,
}

/// The word that a reply of at most 32 bytes reads as: the bytes left-padded
/// with zeros.
pub open spec fn left_pad_word(b: Seq<u8>) -> Seq<u8> {
    Seq::new((32 - b.len()) as nat, |i: int| 0u8) + b
}

/// The unsigned integer that bytes spell in big-endian order.
pub open spec fn be_value(b: Seq<u8>) -> nat
    decreases b.len(),
{
    if b.len() == 0 {
        0
    } else {
        be_value(b.drop_last()) * 256 + b.last() as nat
    }
}

proof fn lemma_zeros_value(k: nat)
    ensures
        be_value(Seq::new(k, |i: int| 0u8)) == 0,
    decreases k,
{
    if k > 0 {
        let z = Seq::new(k, |i: int| 0u8);
        assert(z.drop_last() =~= Seq::new((k - 1) as nat, |i: int| 0u8));
        lemma_zeros_value((k - 1) as nat);
    }
}

/// Leading zero bytes do not change the value.
proof fn lemma_leading_zeros_value(k: nat, b: Seq<u8>)
    ensures
        be_value(Seq::new(k, |i: int| 0u8) + b) == be_value(b),
    decreases b.len(),
{
    let z = Seq::new(k, |i: int| 0u8);
    if b.len() == 0 {
        assert(z + b =~= z);
        lemma_zeros_value(k);
    } else {
        assert((z + b).drop_last() =~= z + b.drop_last());
        assert((z + b).last() == b.last());
        lemma_leading_zeros_value(k, b.drop_last());
    }
}

/// Reads a forwarder's `getNonce` reply as a big-endian 256-bit counter.
/// A reply longer than one word cannot be such a counter.
pub fn decode_nonce(output: &[u8]) -> (r: Result<[u8; 32], DecodeError>)
    ensures
        output@.len() <= 32 <==> r is Ok,
        r is Ok ==> r->Ok_0@ == left_pad_word(output@),
        r is Ok ==> be_value(r->Ok_0@) == be_value(output@),
        r is Err ==> r->Err_0 == DecodeError::TooLong,
{
    let n = output.len();
    if n > 32 {
        return Err(DecodeError::TooLong);
    }
    let mut w: [u8; 32] = [0u8; 32];
    let off: usize = 32 - n;
    let mut i: usize = 0;
    while i < n
        invariant
            n == output@.len(),
            n <= 32,
            off == 32 - n,
            0 <= i <= n,
            forall|j: int| 0 <= j < off ==> w@[j] == 0u8,
            forall|j: int| off <= j < off + i ==> w@[j] == output@[j - off],
        decreases n - i,
    {
        w[off + i] = output[i];
        i = i + 1;
    }
    proof {
        assert(w@ =~= left_pad_word(output@));
        lemma_leading_zeros_value((32 - n) as nat, output@);
    }
    Ok(w)
}

/// A request for a forwarder to call `to` with `data` on behalf of `from`,
/// together with the domain and type under which it is signed.
#[derive(Clone, Debug)]
pub struct ForwardRequest {
    pub domain_name: String,
    pub domain_version: String,
    pub chain_id: [u8; 32],
    /// The forwarder contract, which verifies the signature.
    pub verifying_contract: [u8; 20],
    pub from: [u8; 20],
    pub to: [u8; 20],
    pub value: [u8; 32],
    pub gas: [u8; 32],
    pub nonce: [u8; 32],
    pub data: Vec<u8>,
    pub valid_until_time: [u8; 32],
    pub request_type_name: String,
    pub type_suffix_data: String,
}

impl ForwardRequest {
    /// Assembles a request: no value, the fixed gas allowance
    /// [`REQUEST_GAS`], no expiry, and every other field as given.
    pub fn new(
        domain_name: String,
        domain_version: String,
        chain_id: [u8; 32],
        verifying_contract: [u8; 20],
        from: [u8; 20],
        to: [u8; 20],
        nonce: [u8; 32],
        data: Vec<u8>,
        request_type_name: String,
        type_suffix_data: String,
    ) -> (r: ForwardRequest)
        ensures
            r.domain_name@ == domain_name@,
            r.domain_version@ == domain_version@,
            r.chain_id == chain_id,
            r.verifying_contract == verifying_contract,
            r.from == from,
            r.to == to,
            r.value@ == zero_word(),
            r.gas@ == word_of_u64_spec(REQUEST_GAS),
            r.nonce == nonce,
            r.data@ == data@,
            r.valid_until_time@ == max_word(),
            r.request_type_name@ == request_type_name@,
            r.type_suffix_data@ == type_suffix_data@,
    {
        let value: [u8; 32] = [0u8; 32];
        let valid_until_time: [u8; 32] = [0xffu8; 32];
        proof {
            assert(value@ =~= zero_word());
            assert(valid_until_time@ =~= max_word());
        }
        ForwardRequest {
            domain_name,
            domain_version,
            chain_id,
            verifying_contract,
            from,
            to,
            value,
            gas: word_of_u64(REQUEST_GAS),
            nonce,
            data,
            valid_until_time,
            request_type_name,
            type_suffix_data,
        }
    }
}

/// The type of the signing domain.
pub open spec fn domain_type() -> Seq<u8> {
    "EIP712Domain(string name,string version,uint256 chainId,address verifyingContract)".spec_bytes()
}

/// The fields that every forwarded request type starts with.
pub open spec fn generic_params() -> Seq<u8> {
    "address from,address to,uint256 value,uint256 gas,uint256 nonce,bytes data,uint256 validUntilTime".spec_bytes()
}

/// The registered request type: `name(generic params,suffix`, where the suffix
/// closes the parenthesis.
pub open spec fn request_type(name: Seq<u8>, type_suffix: Seq<u8>) -> Seq<u8> {
    name + seq![40u8] + generic_params() + seq![44u8] + type_suffix
}

/// The domain separator: the digest of the domain type's digest, the digests
/// of name and version, the chain id and the padded verifying contract.
pub open spec fn domain_separator_spec(r: ForwardRequest) -> Seq<u8> {
    keccak_of(
        keccak_of(domain_type()) + keccak_of(encode_utf8(r.domain_name@))
            + keccak_of(encode_utf8(r.domain_version@)) + r.chain_id@ + address_padding()
            + r.verifying_contract@,
    )
}

/// The struct hash: the digest of the request type's digest followed by the
/// encoded fields, the call data by its digest.
pub open spec fn struct_hash_spec(r: ForwardRequest) -> Seq<u8> {
    keccak_of(
        keccak_of(request_type(encode_utf8(r.request_type_name@), encode_utf8(r.type_suffix_data@)))
            + address_padding() + r.from@ + address_padding() + r.to@ + r.value@ + r.gas@
            + r.nonce@ + keccak_of(r.data@) + r.valid_until_time@,
    )
}

/// The digest that is signed: `0x19 0x01`, the domain separator, the struct hash.
pub open spec fn digest_spec(r: ForwardRequest) -> Seq<u8> {
    keccak_of(seq![0x19u8, 0x01u8] + domain_separator_spec(r) + struct_hash_spec(r))
}

fn append_string_digest(out: &mut Vec<u8>, s: &String)
    ensures
        final(out)@ == old(out)@ + keccak_of(encode_utf8(s@)),
{
    let d = keccak(s.as_str().as_bytes());
    append_bytes(out, d.as_slice());
}

fn append_padded_address(out: &mut Vec<u8>, a: &[u8; 20])
    ensures
        final(out)@ == old(out)@ + address_padding() + a@,
{
    let pad: [u8; 12] = [0u8; 12];
    proof {
        assert(pad@ =~= address_padding());
    }
    append_bytes(out, &pad);
    append_bytes(out, a);
}

impl ForwardRequest {
    /// The domain separator of the request's signing domain.
    pub fn domain_separator(&self) -> (r: Vec<u8>)
        ensures
            r@ == domain_separator_spec(*self),
    {
        let mut buf: Vec<u8> = Vec::new();
        let t = keccak("EIP712Domain(string name,string version,uint256 chainId,address verifyingContract)".as_bytes());
        append_bytes(&mut buf, t.as_slice());
        append_string_digest(&mut buf, &self.domain_name);
        append_string_digest(&mut buf, &self.domain_version);
        append_bytes(&mut buf, &self.chain_id);
        append_padded_address(&mut buf, &self.verifying_contract);
        proof {
            assert(buf@ =~= keccak_of(domain_type()) + keccak_of(encode_utf8(self.domain_name@))
                + keccak_of(encode_utf8(self.domain_version@)) + self.chain_id@ + address_padding()
                + self.verifying_contract@);
        }
        keccak(buf.as_slice())
    }

    /// The registered request type of this request, as bytes.
    pub fn request_type_bytes(&self) -> (r: Vec<u8>)
        ensures
            r@ == request_type(encode_utf8(self.request_type_name@), encode_utf8(self.type_suffix_data@)),
    {
        let mut buf: Vec<u8> = Vec::new();
        append_bytes(&mut buf, self.request_type_name.as_str().as_bytes());
        buf.push(40u8);
        append_bytes(&mut buf, "address from,address to,uint256 value,uint256 gas,uint256 nonce,bytes data,uint256 validUntilTime".as_bytes());
        buf.push(44u8);
        append_bytes(&mut buf, self.type_suffix_data.as_str().as_bytes());
        proof {
            assert(buf@ =~= request_type(encode_utf8(self.request_type_name@), encode_utf8(self.type_suffix_data@)));
        }
        buf
    }

    /// The struct hash of the request under its registered type.
    pub fn struct_hash(&self) -> (r: Vec<u8>)
        ensures
            r@ == struct_hash_spec(*self),
    {
        let ty = self.request_type_bytes();
        let mut buf: Vec<u8> = Vec::new();
        let th = keccak(ty.as_slice());
        append_bytes(&mut buf, th.as_slice());
        append_padded_address(&mut buf, &self.from);
        append_padded_address(&mut buf, &self.to);
        append_bytes(&mut buf, &self.value);
        append_bytes(&mut buf, &self.gas);
        append_bytes(&mut buf, &self.nonce);
        let dh = keccak(self.data.as_slice());
        append_bytes(&mut buf, dh.as_slice());
        append_bytes(&mut buf, &self.valid_until_time);
        proof {
            assert(buf@ =~= keccak_of(request_type(encode_utf8(self.request_type_name@), encode_utf8(self.type_suffix_data@)))
                + address_padding() + self.from@ + address_padding() + self.to@ + self.value@ + self.gas@
                + self.nonce@ + keccak_of(self.data@) + self.valid_until_time@);
        }
        keccak(buf.as_slice())
    }

    /// The typed-data digest that the signer signs.
    pub fn digest(&self) -> (r: Vec<u8>)
        ensures
            r@ == digest_spec(*self),
            r@.len() == 32,
    {
        let mut buf: Vec<u8> = Vec::new();
        buf.push(0x19u8);
        buf.push(0x01u8);
        let ds = self.domain_separator();
        append_bytes(&mut buf, ds.as_slice());
        let sh = self.struct_hash();
        append_bytes(&mut buf, sh.as_slice());
        proof {
            assert(buf@ =~= seq![0x19u8, 0x01u8] + domain_separator_spec(*self) + struct_hash_spec(*self));
        }
        keccak(buf.as_slice())
    }
}

} // verus!
