//! Little-endian encoding of fixed-width unsigned integers.

use vstd::prelude::*;

verus! {

/// The number of values that `width` bytes can hold: 256 to the power `width`.
pub open spec fn spec_limit(width: nat) -> nat
    decreases width,
{
    if width == 0 {
        1
    } else {
        256 * spec_limit((width - 1) as nat)
    }
}

/// The `width` base-256 digits of `value`, least significant first.
pub open spec fn spec_encode_le(value: nat, width: nat) -> Seq<u8>
    decreases width,
{
    if width == 0 {
        Seq::empty()
    } else {
        seq![(value % 256) as u8].add(spec_encode_le(value / 256, (width - 1) as nat))
    }
}

/// The number whose base-256 digits, least significant first, are `bytes`.
pub open spec fn spec_decode_le(bytes: Seq<u8>) -> nat
    decreases bytes.len(),
{
    if bytes.len() == 0 {
        0
    } else {
        bytes[0] as nat + 256 * spec_decode_le(bytes.drop_first())
    }
}

/// An unsigned integer of `SIZE` bytes with a little-endian byte encoding.
pub trait LeBytes<const SIZE: usize>: Copy {
    /// The number that `self` stands for.
    spec fn spec_value(self) -> nat;

    /// A value fits in `SIZE` bytes, and its number determines it.
    proof fn lemma_value(a: Self, b: Self)
        ensures
            a.spec_value() < spec_limit(SIZE as nat),
            a.spec_value() == b.spec_value() ==> a == b,
    ;

    fn to_le_bytes(self) -> (bytes: [u8; SIZE])
        ensures
            bytes@ == spec_encode_le(self.spec_value(), SIZE as nat),
    ;

    fn from_le_bytes(input: [u8; SIZE]) -> (value: Self)
        ensures
            value.spec_value() == spec_decode_le(input@),
    ;
}

impl LeBytes<1> for u8 {
    open spec fn spec_value(self) -> nat {
        self as nat
    }

    proof fn lemma_value(a: Self, b: Self) {
        reveal_with_fuel(spec_limit, 2);
    }

    fn to_le_bytes(self) -> (bytes: [u8; 1]) {
        let bytes = [self];
        proof {
            reveal_with_fuel(spec_encode_le, 2);
            assert(bytes@ =~= spec_encode_le(self as nat, 1));
        }
        bytes
    }

    fn from_le_bytes(input: [u8; 1]) -> (value: Self) {
        proof {
            reveal_with_fuel(spec_decode_le, 2);
            assert(input@.drop_first().len() == 0);
        }
        input[0]
    }
}

impl LeBytes<2> for u16 {
    open spec fn spec_value(self) -> nat {
        self as nat
    }

    proof fn lemma_value(a: Self, b: Self) {
        reveal_with_fuel(spec_limit, 3);
    }

    fn to_le_bytes(self) -> (bytes: [u8; 2]) {
        let bytes = [(self % 256) as u8, (self / 256) as u8];
        proof {
            reveal_with_fuel(spec_encode_le, 3);
            assert(bytes@ =~= spec_encode_le(self as nat, 2));
        }
        bytes
    }

    fn from_le_bytes(input: [u8; 2]) -> (value: Self) {
        proof {
            lemma_decode_le_fixed(input@);
        }
        input[0] as u16 + 256 * (input[1] as u16)
    }
}

impl LeBytes<4> for u32 {
    open spec fn spec_value(self) -> nat {
        self as nat
    }

    proof fn lemma_value(a: Self, b: Self) {
        reveal_with_fuel(spec_limit, 5);
    }

    fn to_le_bytes(self) -> (bytes: [u8; 4]) {
        let b0 = (self % 256) as u8;
        let rest = self / 256;
        let b1 = (rest % 256) as u8;
        let rest = rest / 256;
        let b2 = (rest % 256) as u8;
        let rest = rest / 256;
        let bytes = [b0, b1, b2, rest as u8];
        proof {
            reveal_with_fuel(spec_encode_le, 5);
            assert(bytes@ =~= spec_encode_le(self as nat, 4));
        }
        bytes
    }

    fn from_le_bytes(input: [u8; 4]) -> (value: Self) {
        crate::platform::u8s_to_insn(&input)
    }
}

impl LeBytes<8> for u64 {
    open spec fn spec_value(self) -> nat {
        self as nat
    }

    proof fn lemma_value(a: Self, b: Self) {
        reveal_with_fuel(spec_limit, 9);
    }

    fn to_le_bytes(self) -> (bytes: [u8; 8]) {
        let b0 = (self % 256) as u8;
        let rest = self / 256;
        let b1 = (rest % 256) as u8;
        let rest = rest / 256;
        let b2 = (rest % 256) as u8;
        let rest = rest / 256;
        let b3 = (rest % 256) as u8;
        let rest = rest / 256;
        let b4 = (rest % 256) as u8;
        let rest = rest / 256;
        let b5 = (rest % 256) as u8;
        let rest = rest / 256;
        let b6 = (rest % 256) as u8;
        let rest = rest / 256;
        let bytes = [b0, b1, b2, b3, b4, b5, b6, rest as u8];
        proof {
            reveal_with_fuel(spec_encode_le, 9);
            assert(bytes@ =~= spec_encode_le(self as nat, 8));
        }
        bytes
    }

    fn from_le_bytes(input: [u8; 8]) -> (value: Self) {
        proof {
            lemma_decode_le_fixed(input@);
        }
        let high = input[6] as u64 + 256 * (input[7] as u64);
        let high = input[5] as u64 + 256 * high;
        let high = input[4] as u64 + 256 * high;
        let high = input[3] as u64 + 256 * high;
        let high = input[2] as u64 + 256 * high;
        let high = input[1] as u64 + 256 * high;
        input[0] as u64 + 256 * high
    }
}

/// The number that `bytes` from index `from` on stand for.
pub open spec fn spec_decode_le_from(bytes: Seq<u8>, from: int) -> nat
    decreases bytes.len() - from,
{
    if from >= bytes.len() || from < 0 {
        0
    } else {
        bytes[from] as nat + 256 * spec_decode_le_from(bytes, from + 1)
    }
}

/// `spec_decode_le` of a tail of `bytes` is `spec_decode_le_from` at the
/// tail's first index.
pub proof fn lemma_decode_le_from(bytes: Seq<u8>, from: int)
    requires
        0 <= from <= bytes.len(),
    ensures
        spec_decode_le(bytes.subrange(from, bytes.len() as int)) == spec_decode_le_from(
            bytes,
            from,
        ),
    decreases bytes.len() - from,
{
    let tail = bytes.subrange(from, bytes.len() as int);
    if from < bytes.len() {
        assert(tail.drop_first() =~= bytes.subrange(from + 1, bytes.len() as int));
        lemma_decode_le_from(bytes, from + 1);
    }
}

/// `spec_decode_le` written out for the four widths.
pub proof fn lemma_decode_le_fixed(bytes: Seq<u8>)
    ensures
        bytes.len() == 1 ==> spec_decode_le(bytes) == bytes[0] as nat,
        bytes.len() == 2 ==> spec_decode_le(bytes) == bytes[0] as nat + 256 * (bytes[1] as nat),
        bytes.len() == 4 ==> spec_decode_le(bytes) == bytes[0] as nat + 256 * (bytes[1] as nat
            + 256 * (bytes[2] as nat + 256 * (bytes[3] as nat))),
        bytes.len() == 8 ==> spec_decode_le(bytes) == bytes[0] as nat + 256 * (bytes[1] as nat
            + 256 * (bytes[2] as nat + 256 * (bytes[3] as nat + 256 * (bytes[4] as nat + 256 * (
        bytes[5] as nat + 256 * (bytes[6] as nat + 256 * (bytes[7] as nat))))))),
{
    lemma_decode_le_from(bytes, 0);
    assert(bytes.subrange(0, bytes.len() as int) =~= bytes);
    reveal_with_fuel(spec_decode_le_from, 9);
}

/// An encoding has as many bytes as the width asked for.
pub proof fn lemma_encode_le_len(value: nat, width: nat)
    ensures
        spec_encode_le(value, width).len() == width,
    decreases width,
{
    if width > 0 {
        lemma_encode_le_len(value / 256, (width - 1) as nat);
    }
}

/// Decoding the `width` bytes that encode a value gives the value back, if
/// the value fits in `width` bytes.
pub proof fn lemma_decode_encode_le(value: nat, width: nat)
    requires
        value < spec_limit(width),
    ensures
        spec_decode_le(spec_encode_le(value, width)) == value,
    decreases width,
{
    if width > 0 {
        let rest = spec_encode_le(value / 256, (width - 1) as nat);
        let bytes = spec_encode_le(value, width);
        assert(bytes.drop_first() =~= rest);
        lemma_encode_le_len(value, width);
        lemma_decode_encode_le(value / 256, (width - 1) as nat);
    }
}

/// What bytes decode to fits in as many bytes.
pub proof fn lemma_decode_le_bound(bytes: Seq<u8>)
    ensures
        spec_decode_le(bytes) < spec_limit(bytes.len()),
    decreases bytes.len(),
{
    if bytes.len() > 0 {
        lemma_decode_le_bound(bytes.drop_first());
    }
}

/// Encoding what bytes decode to, in as many bytes, gives the bytes back.
pub proof fn lemma_encode_decode_le(bytes: Seq<u8>)
    ensures
        spec_encode_le(spec_decode_le(bytes), bytes.len()) == bytes,
    decreases bytes.len(),
{
    if bytes.len() > 0 {
        let rest = bytes.drop_first();
        lemma_encode_decode_le(rest);
        let value = spec_decode_le(bytes);
        assert(value % 256 == bytes[0] as nat);
        assert(value / 256 == spec_decode_le(rest));
        assert(spec_encode_le(value, bytes.len()) =~= bytes);
    } else {
        assert(spec_encode_le(0, 0) =~= bytes);
    }
}

/// A value that decodes from the encoding of `value` is `value`: encoding
/// and then decoding loses nothing, at every width.
pub proof fn lemma_round_trip<T: LeBytes<SIZE>, const SIZE: usize>(value: T, back: T)
    requires
        back.spec_value() == spec_decode_le(spec_encode_le(value.spec_value(), SIZE as nat)),
    ensures
        back == value,
{
    T::lemma_value(value, back);
    lemma_decode_encode_le(value.spec_value(), SIZE as nat);
}

} // verus!
