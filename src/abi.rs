//! Calldata encoding: a four-byte selector taken from the canonical function
//! signature, followed by the head encoding of the (static) arguments.
use vstd::prelude::*;
use crate::hash::{keccak, keccak_of};
use vstd::string::StringSliceAdditionalSpecFns;

verus! {

/// The parameter types that the encoder supports.
#[derive(Clone, Copy, Debug, PartialEq, Eq, Structural)]
pub enum ParamType {
    Address,
    Uint256,
}

/// A named parameter of a function signature.
#[derive(Clone, Debug)]
pub struct Param {
    pub name: String,
    pub kind: ParamType,
}

/// An argument value: a 20-byte address or a big-endian 256-bit word.
#[derive(Clone, Copy, Debug)]
pub enum Token {
    Address([u8; 20]),
    Uint([u8; 32]),
}

/// Why a call could not be encoded.
#[derive(Clone, Copy, Debug, PartialEq, Eq, Structural)]
pub enum EncodeError {
    /// The number of arguments differs from the number of parameters.
    WrongArgumentCount,
    /// Some argument does not have the type that its parameter declares.
    WrongArgumentType,
}

pub open spec fn address_type_bytes() -> Seq<u8> {
    seq![97u8, 100u8, 100u8, 114u8, 101u8, 115u8, 115u8]
}

pub open spec fn uint256_type_bytes() -> Seq<u8> {
    seq![117u8, 105u8, 110u8, 116u8, 50u8, 53u8, 54u8]
}

/// The canonical name of a type, as it stands in a signature.
pub open spec fn type_bytes(k: ParamType) -> Seq<u8> {
    match k {
        ParamType::Address => address_type_bytes(),
        ParamType::Uint256 => uint256_type_bytes(),
    }
}

/// The type names joined by commas.
pub open spec fn type_list_bytes(ks: Seq<ParamType>) -> Seq<u8>
    decreases ks.len(),
{
    if ks.len() == 0 {
        Seq::empty()
    } else if ks.len() == 1 {
        type_bytes(ks[0])
    } else {
        type_list_bytes(ks.drop_last()) + seq![44u8] + type_bytes(ks.last())
    }
}

/// The canonical signature `name(type1,type2,...)`.
pub open spec fn signature_bytes(name: Seq<u8>, ks: Seq<ParamType>) -> Seq<u8> {
    name + seq![40u8] + type_list_bytes(ks) + seq![41u8]
}

/// The first four bytes of the digest of the canonical signature.
pub open spec fn selector(name: Seq<u8>, ks: Seq<ParamType>) -> Seq<u8> {
    keccak_of(signature_bytes(name, ks)).take(4)
}

/// The types of a parameter list.
pub open spec fn kinds(ps: Seq<Param>) -> Seq<ParamType> {
    ps.map_values(|p: Param| p.kind)
}

/// Twelve zero bytes, which left-pad an address to a word.
pub open spec fn address_padding() -> Seq<u8> {
    Seq::new(12, |i: int| 0u8)
}

/// The 32-byte head encoding of one argument.
pub open spec fn encode_token(t: Token) -> Seq<u8> {
    match t {
        Token::Address(a) => address_padding() + a@,
        Token::Uint(w) => w@,
    }
}

/// The arguments encoded one after the other.
pub open spec fn encode_tokens(ts: Seq<Token>) -> Seq<u8>
    decreases ts.len(),
{
    if ts.len() == 0 {
        Seq::empty()
    } else {
        encode_tokens(ts.drop_last()) + encode_token(ts.last())
    }
}

pub open spec fn token_has_type(t: Token, k: ParamType) -> bool {
    match t {
        Token::Address(_) => k == ParamType::Address,
        Token::Uint(_) => k == ParamType::Uint256,
    }
}

/// Each argument has the type of its parameter.
pub open spec fn tokens_match(ks: Seq<ParamType>, ts: Seq<Token>) -> bool {
    &&& ks.len() == ts.len()
    &&& forall|i: int| 0 <= i < ts.len() ==> token_has_type(#[trigger] ts[i], ks[i])
}

/// The calldata of a call: selector, then the encoded arguments.
pub open spec fn calldata(name: Seq<u8>, ks: Seq<ParamType>, ts: Seq<Token>) -> Seq<u8> {
    selector(name, ks) + encode_tokens(ts)
}

/// What encoding a call gives, or the error for it.
pub open spec fn encode_calldata_spec(name: Seq<u8>, ks: Seq<ParamType>, ts: Seq<Token>) -> Result<
    Seq<u8>,
    EncodeError,
> {
    if ks.len() != ts.len() {
        Err(EncodeError::WrongArgumentCount)
    } else if !tokens_match(ks, ts) {
        Err(EncodeError::WrongArgumentType)
    } else {
        Ok(calldata(name, ks, ts))
    }
}

/// Appends a byte slice to a vector.
pub fn append_bytes(out: &mut Vec<u8>, b: &[u8])
    ensures
        final(out)@ == old(out)@ + b@,
{
    let ghost start = out@;
    let mut i: usize = 0;
    while i < b.len()
        invariant
            0 <= i <= b@.len(),
            out@ == start + b@.take(i as int),
        decreases b@.len() - i,
    {
        out.push(b[i]);
        i = i + 1;
        proof {
            assert(b@.take(i as int) == b@.take(i - 1) + seq![b@[i - 1]]);
        }
    }
    proof {
        assert(b@.take(b@.len() as int) == b@);
    }
}

fn push_type_bytes(out: &mut Vec<u8>, k: ParamType)
    ensures
        final(out)@ == old(out)@ + type_bytes(k),
{
    let bytes: [u8; 7] = match k {
        ParamType::Address => [97u8, 100u8, 100u8, 114u8, 101u8, 115u8, 115u8],
        ParamType::Uint256 => [117u8, 105u8, 110u8, 116u8, 50u8, 53u8, 54u8],
    };
    let ghost start = out@;
    let mut i: usize = 0;
    while i < 7
        invariant
            0 <= i <= 7,
            bytes@ == type_bytes(k),
            out@ == start + bytes@.take(i as int),
        decreases 7 - i,
    {
        out.push(bytes[i]);
        i = i + 1;
        proof {
            assert(bytes@.take(i as int) == bytes@.take(i - 1) + seq![bytes@[i - 1]]);
        }
    }
    proof {
        assert(bytes@.take(7) == bytes@);
    }
}

/// The canonical signature of a function, as bytes.
pub fn signature(name: &str, inputs: &Vec<Param>) -> (r: Vec<u8>)
    ensures
        r@ == signature_bytes(name.spec_bytes(), kinds(inputs@)),
{
    let mut out: Vec<u8> = Vec::new();
    append_bytes(&mut out, name.as_bytes());
    out.push(40u8);
    let ghost head = out@;
    let mut i: usize = 0;
    while i < inputs.len()
        invariant
            0 <= i <= inputs@.len(),
            head == name.spec_bytes() + seq![40u8],
            out@ == head + type_list_bytes(kinds(inputs@).take(i as int)),
        decreases inputs@.len() - i,
    {
        let ghost ks = kinds(inputs@).take(i as int + 1);
        proof {
            assert(ks.drop_last() == kinds(inputs@).take(i as int));
            assert(ks.last() == inputs@[i as int].kind);
        }
        if i > 0 {
            out.push(44u8);
        }
        push_type_bytes(&mut out, inputs[i].kind);
        proof {
            if i == 0 {
                assert(ks.len() == 1);
                assert(kinds(inputs@).take(0).len() == 0);
            }
        }
        i = i + 1;
    }
    proof {
        assert(kinds(inputs@).take(inputs@.len() as int) == kinds(inputs@));
    }
    out.push(41u8);
    out
}

/// Checks that each argument has the type of its parameter.
pub fn check_tokens(inputs: &Vec<Param>, args: &Vec<Token>) -> (r: bool)
    requires
        inputs@.len() == args@.len(),
    ensures
        r == tokens_match(kinds(inputs@), args@),
{
    let mut i: usize = 0;
    while i < args.len()
        invariant
            0 <= i <= args@.len(),
            inputs@.len() == args@.len(),
            forall|j: int| 0 <= j < i ==> token_has_type(#[trigger] args@[j], kinds(inputs@)[j]),
        decreases args@.len() - i,
    {
        let ok = match args[i] {
            Token::Address(_) => inputs[i].kind == ParamType::Address,
            Token::Uint(_) => inputs[i].kind == ParamType::Uint256,
        };
        if !ok {
            proof {
                assert(!token_has_type(args@[i as int], kinds(inputs@)[i as int]));
            }
            return false;
        }
        i = i + 1;
    }
    true
}

fn push_token(out: &mut Vec<u8>, t: Token)
    ensures
        final(out)@ == old(out)@ + encode_token(t),
        encode_token(t).len() == 32,
{
    match t {
        Token::Address(a) => {
            let ghost start = out@;
            let mut i: usize = 0;
            while i < 12
                invariant
                    0 <= i <= 12,
                    out@ == start + address_padding().take(i as int),
                decreases 12 - i,
            {
                out.push(0u8);
                i = i + 1;
                proof {
                    assert(address_padding().take(i as int) == address_padding().take(i - 1)
                        + seq![0u8]);
                }
            }
            proof {
                assert(address_padding().take(12) == address_padding());
            }
            append_bytes(out, &a);
        },
        Token::Uint(w) => {
            append_bytes(out, &w);
        },
    }
}

/// Encodes a call of `name` with parameters `inputs` on the arguments `args`.
/// Fails when the arguments do not match the parameters in number or in type.
pub fn encode_calldata(name: &str, inputs: &Vec<Param>, args: &Vec<Token>) -> (r: Result<
    Vec<u8>,
    EncodeError,
>)
    ensures
        match r {
            Ok(v) => encode_calldata_spec(name.spec_bytes(), kinds(inputs@), args@) == Ok::<
                Seq<u8>,
                EncodeError,
            >(v@),
            Err(e) => encode_calldata_spec(name.spec_bytes(), kinds(inputs@), args@) == Err::<
                Seq<u8>,
                EncodeError,
            >(e),
        },
        r is Ok ==> r->Ok_0@.len() == 4 + 32 * args@.len(),
{
    if inputs.len() != args.len() {
        return Err(EncodeError::WrongArgumentCount);
    }
    if !check_tokens(inputs, args) {
        return Err(EncodeError::WrongArgumentType);
    }
    let sig = signature(name, inputs);
    let digest = keccak(sig.as_slice());
    let mut out: Vec<u8> = Vec::new();
    let mut k: usize = 0;
    while k < 4
        invariant
            0 <= k <= 4,
            digest@.len() == 32,
            out@ == digest@.take(k as int),
        decreases 4 - k,
    {
        out.push(digest[k]);
        k = k + 1;
        proof {
            assert(digest@.take(k as int) == digest@.take(k - 1) + seq![digest@[k - 1]]);
        }
    }
    let ghost head = out@;
    let mut i: usize = 0;
    while i < args.len()
        invariant
            0 <= i <= args@.len(),
            head == selector(name.spec_bytes(), kinds(inputs@)),
            head.len() == 4,
            out@ == head + encode_tokens(args@.take(i as int)),
            out@.len() == 4 + 32 * i,
        decreases args@.len() - i,
    {
        proof {
            let ts = args@.take(i as int + 1);
            assert(ts.drop_last() == args@.take(i as int));
            assert(ts.last() == args@[i as int]);
        }
        push_token(&mut out, args[i]);
        i = i + 1;
    }
    proof {
        assert(args@.take(args@.len() as int) == args@);
    }
    Ok(out)
}

/// The calldata of `getNonce(address)` on `from`.
pub open spec fn get_nonce_calldata_spec(from: [u8; 20]) -> Seq<u8> {
    calldata("getNonce".spec_bytes(), seq![ParamType::Address], seq![Token::Address(from)])
}

/// The calldata of `getNonce(address from)`, which asks a forwarder for the
/// replay-protection counter of `from`: the selector, then the address
/// left-padded to a word.
pub fn get_nonce_calldata(from: [u8; 20]) -> (r: Vec<u8>)
    ensures
        r@ == get_nonce_calldata_spec(from),
        r@ == selector("getNonce".spec_bytes(), seq![ParamType::Address]) + address_padding()
            + from@,
        r@.len() == 36,
{
    let inputs: Vec<Param> = vec![Param { name: "from".to_owned(), kind: ParamType::Address }];
    let args: Vec<Token> = vec![Token::Address(from)];
    proof {
        reveal_strlit("getNonce");
        assert(kinds(inputs@) =~= seq![ParamType::Address]);
        assert(args@ =~= seq![Token::Address(from)]);
        assert(token_has_type(args@[0], kinds(inputs@)[0]));
        let ts = seq![Token::Address(from)];
        assert(ts.drop_last() =~= Seq::<Token>::empty());
        assert(encode_tokens(ts.drop_last()) =~= Seq::<u8>::empty());
        assert(encode_tokens(ts) =~= encode_token(Token::Address(from)));
    }
    match encode_calldata("getNonce", &inputs, &args) {
        Ok(v) => v,
        Err(_) => {
            proof {
                assert(false);
            }
            Vec::new()
        },
    }
}

/// The calldata of `increment()`.
pub open spec fn increment_calldata_spec() -> Seq<u8> {
    calldata("increment".spec_bytes(), Seq::empty(), Seq::empty())
}

/// The calldata of the argument-less `increment()` call: its selector alone.
pub fn increment_calldata() -> (r: Vec<u8>)
    ensures
        r@ == increment_calldata_spec(),
        r@ == selector("increment".spec_bytes(), Seq::empty()),
        r@.len() == 4,
{
    let inputs: Vec<Param> = Vec::new();
    let args: Vec<Token> = Vec::new();
    proof {
        reveal_strlit("increment");
        assert(kinds(inputs@) =~= Seq::<ParamType>::empty());
        assert(args@ =~= Seq::<Token>::empty());
        assert(encode_tokens(Seq::<Token>::empty()) =~= Seq::<u8>::empty());
        assert(selector("increment".spec_bytes(), Seq::empty()) + Seq::<u8>::empty()
            =~= selector("increment".spec_bytes(), Seq::empty()));
    }
    match encode_calldata("increment", &inputs, &args) {
        Ok(v) => v,
        Err(_) => {
            proof {
                assert(false);
            }
            Vec::new()
        },
    }
}

/// Encoding is deterministic: the same name, parameter types and arguments give
/// the same result, bytes or error, every time.
pub proof fn lemma_encoding_deterministic(
    name1: Seq<u8>,
    ks1: Seq<ParamType>,
    ts1: Seq<Token>,
    name2: Seq<u8>,
    ks2: Seq<ParamType>,
    ts2: Seq<Token>,
)
    requires
        name1 == name2,
        ks1 == ks2,
        ts1 == ts2,
    ensures
        encode_calldata_spec(name1, ks1, ts1) == encode_calldata_spec(name2, ks2, ts2),
{
}

} // verus!
