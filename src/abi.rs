use std::str::FromStr;
use vstd::prelude::*;

verus! {

/// The static ABI parameter types that the remote calls use.
#[derive(Clone, Copy, Debug, PartialEq, Eq, Structural)]
pub enum AbiType {
    Uint256,
    Address,
}

/// An unsigned 256-bit integer, held as its 32 big-endian bytes.
#[derive(Clone, Copy, Debug, PartialEq, Eq)]
pub struct U256 {
    pub be_bytes: [u8; 32],
}

/// One argument of a remote call.
#[derive(Clone, Copy, Debug, PartialEq, Eq)]
pub enum AbiValue {
    Uint(U256),
    Address([u8; 20]),
}

/// The number that a big-endian byte string denotes.
pub open spec fn be_value(b: Seq<u8>) -> nat
    decreases b.len(),
{
    if b.len() == 0 {
        0
    } else {
        be_value(b.drop_last()) * 256 + b.last() as nat
    }
}

/// The largest value of an unsigned 256-bit integer.
pub open spec fn u256_max() -> nat {
    (pow256(32) - 1) as nat
}

/// 256 to the power `n`.
pub open spec fn pow256(n: nat) -> nat
    decreases n,
{
    if n == 0 {
        1
    } else {
        256 * pow256((n - 1) as nat)
    }
}

impl U256 {
    /// The number held.
    pub open spec fn value(&self) -> nat {
        be_value(self.be_bytes@)
    }

    /// The integer whose big-endian bytes are `be_bytes`.
    pub fn from_be_bytes(be_bytes: [u8; 32]) -> (r: U256)
        ensures
            r.be_bytes@ == be_bytes@,
            r.value() == be_value(be_bytes@),
    {
        U256 { be_bytes }
    }

    /// The big-endian bytes of the integer.
    pub fn to_be_bytes(&self) -> (r: [u8; 32])
        ensures
            r@ == self.be_bytes@,
    {
        self.be_bytes
    }
}

/// The ABI name of a parameter type.
pub open spec fn abi_type_name(t: AbiType) -> Seq<char> {
    match t {
        AbiType::Uint256 => seq!['u', 'i', 'n', 't', '2', '5', '6'],
        AbiType::Address => seq!['a', 'd', 'd', 'r', 'e', 's', 's'],
    }
}

/// The canonical signature `name(type)` of a function with at most one parameter.
pub open spec fn canonical_signature(name: Seq<char>, param: Option<AbiType>) -> Seq<char> {
    match param {
        None => name + seq!['(', ')'],
        Some(t) => name + seq!['('] + abi_type_name(t) + seq![')'],
    }
}

/// The type of an argument.
pub open spec fn type_of(v: AbiValue) -> AbiType {
    match v {
        AbiValue::Uint(_) => AbiType::Uint256,
        AbiValue::Address(_) => AbiType::Address,
    }
}

/// The 32-byte head word of a static argument: a `uint256` in big-endian order, an
/// address left-padded with twelve zero bytes.
pub open spec fn head_word(v: AbiValue) -> Seq<u8> {
    match v {
        AbiValue::Uint(n) => n.be_bytes@,
        AbiValue::Address(a) => Seq::new(12, |i: int| 0u8) + a@,
    }
}

/// The first four bytes of the Keccak-256 digest of a canonical signature.
pub uninterp spec fn signature_selector(signature: Seq<char>) -> Seq<u8>;

/// The selector of the function `name` with the given parameter type.
pub open spec fn selector_of(name: Seq<char>, param: Option<AbiType>) -> Seq<u8> {
    signature_selector(canonical_signature(name, param))
}

/// The call data of `name` applied to `arg`: selector, then the argument's head word.
pub open spec fn call_data(name: Seq<char>, arg: Option<AbiValue>) -> Seq<u8> {
    match arg {
        None => selector_of(name, None),
        Some(v) => selector_of(name, Some(type_of(v))) + head_word(v),
    }
}

/// Relies on ethabi::short_signature: the first four bytes of the Keccak-256 digest of
/// `name(type)`, where the type is written `uint256` or `address`.
#[verifier::external_body]
fn short_signature(name: &str, param: Option<AbiType>) -> (r: [u8; 4])
    ensures
        r@ == signature_selector(canonical_signature(name@, param)),
{
    let params = match param {
        None => vec![],
        Some(AbiType::Uint256) => vec![ethabi::ParamType::Uint(256)],
        Some(AbiType::Address) => vec![ethabi::ParamType::Address],
    };
    ethabi::short_signature(name, &params)
}

/// Relies on ethabi::encode of a single static token: one 32-byte word, a `uint256` in
/// big-endian order, an address left-padded with zero bytes.
#[verifier::external_body]
fn encode_word(v: &AbiValue) -> (r: Vec<u8>)
    ensures
        r@ == head_word(*v),
{
    let token = match v {
        AbiValue::Uint(n) => ethabi::Token::Uint(ethabi::Uint::from_big_endian(&n.be_bytes)),
        AbiValue::Address(a) => ethabi::Token::Address(ethabi::Address::from(*a)),
    };
    ethabi::encode(&[token])
}

/// Whether `c` is skipped by the hex decoder.
pub open spec fn is_hex_space(c: char) -> bool {
    c == ' ' || c == '\r' || c == '\n' || c == '\t'
}

/// The value of a hexadecimal digit, if `c` is one.
pub open spec fn hex_digit(c: char) -> Option<u8> {
    if '0' <= c && c <= '9' {
        Some((c as u32 - '0' as u32) as u8)
    } else if 'a' <= c && c <= 'f' {
        Some((c as u32 - 'a' as u32 + 10) as u8)
    } else if 'A' <= c && c <= 'F' {
        Some((c as u32 - 'A' as u32 + 10) as u8)
    } else {
        None
    }
}

/// The digits of an address text: an optional `0x` prefix removed, spaces, tabs and
/// line breaks dropped.
pub open spec fn address_digits(s: Seq<char>) -> Seq<char> {
    let body = if s.len() >= 2 && s[0] == '0' && s[1] == 'x' {
        s.skip(2)
    } else {
        s
    };
    body.filter(|c: char| !is_hex_space(c))
}

/// Whether `s` reads as a 20-byte hexadecimal address.
pub open spec fn is_address_text(s: Seq<char>) -> bool {
    let d = address_digits(s);
    d.len() == 40 && forall|i: int| 0 <= i < 40 ==> (#[trigger] hex_digit(d[i])).is_some()
}

/// The 20 bytes that an address text spells, two digits each.
pub open spec fn address_bytes(s: Seq<char>) -> Seq<u8> {
    let d = address_digits(s);
    Seq::new(
        20,
        |i: int| (hex_digit(d[2 * i]).unwrap() * 16 + hex_digit(d[2 * i + 1]).unwrap()) as u8,
    )
}

/// Relies on `ethabi::Address::from_str` (fixed-hash over rustc-hex): it accepts exactly
/// the texts of 40 hexadecimal digits, after an optional `0x` and with whitespace skipped.
#[verifier::external_body]
fn parse_hex_address(s: &str) -> (r: Option<[u8; 20]>)
    ensures
        r.is_some() == is_address_text(s@),
        r matches Some(a) ==> a@ == address_bytes(s@),
{
    ethabi::Address::from_str(s).ok().map(|a| a.0)
}

/// Reads an address argument from its text; `None` where the text is no address.
pub fn address_value(s: &str) -> (r: Option<AbiValue>)
    ensures
        r.is_some() == is_address_text(s@),
        r matches Some(v) ==> v matches AbiValue::Address(a) && a@ == address_bytes(s@),
{
    match parse_hex_address(s) {
        Some(a) => Some(AbiValue::Address(a)),
        None => None,
    }
}

/// The call data of the function `name` applied to `arg`.
pub fn encode_call(name: &str, arg: Option<AbiValue>) -> (r: Vec<u8>)
    ensures
        r@ == call_data(name@, arg),
        r@.len() == match arg {
            None => 4int,
            Some(_) => 36int,
        },
        r@.subrange(0, 4) == selector_of(
            name@,
            match arg {
                None => None,
                Some(v) => Some(type_of(v)),
            },
        ),
        arg matches Some(v) ==> r@.subrange(4, 36) == head_word(v),
{
    let param = match arg {
        None => None,
        Some(AbiValue::Uint(_)) => Some(AbiType::Uint256),
        Some(AbiValue::Address(_)) => Some(AbiType::Address),
    };
    let selector = short_signature(name, param);
    let mut out: Vec<u8> = Vec::new();
    let mut i: usize = 0;
    while i < 4
        invariant
            0 <= i <= 4,
            out@ == selector@.take(i as int),
        decreases 4 - i,
    {
        out.push(selector[i]);
        i = i + 1;
        assert(out@ =~= selector@.take(i as int));
    }
    assert(out@ =~= selector@);
    match arg {
        None => {},
        Some(v) => {
            let mut word = encode_word(&v);
            out.append(&mut word);
            assert(out@.subrange(0, 4) =~= selector@);
            assert(out@.subrange(4, 36) =~= head_word(v));
        },
    }
    assert(out@.subrange(0, 4) =~= selector@);
    out
}

proof fn lemma_be_value_bound(b: Seq<u8>)
    ensures
        be_value(b) < pow256(b.len()),
    decreases b.len(),
{
    if b.len() > 0 {
        let d = b.drop_last();
        lemma_be_value_bound(d);
        let x = be_value(d);
        let p = pow256(d.len());
        let l = b.last() as nat;
        assert(x * 256 + l < p * 256) by (nonlinear_arith)
            requires
                x < p,
                l < 256,
        ;
    }
}

/// Every `U256` holds a number below 2^256.
pub proof fn lemma_u256_in_range(n: U256)
    ensures
        n.value() <= u256_max(),
{
    lemma_be_value_bound(n.be_bytes@);
}

/// Encoding a `uint256` argument and reading the word after the selector as a
/// big-endian number gives back the argument.
pub proof fn lemma_uint_round_trip(name: Seq<char>, n: U256, data: Seq<u8>)
    requires
        data == call_data(name, Some(AbiValue::Uint(n))),
        data.len() == 36,
    ensures
        data.subrange(4, 36) == n.be_bytes@,
        be_value(data.subrange(4, 36)) == n.value(),
        n.value() <= u256_max(),
{
    let sel = selector_of(name, Some(AbiType::Uint256));
    assert(data == sel + n.be_bytes@);
    assert(sel.len() == 4);
    assert(data.subrange(4, 36) =~= n.be_bytes@);
    lemma_u256_in_range(n);
}

} // verus!
