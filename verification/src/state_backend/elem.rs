//! Elements that can be stored in byte-addressed regions.
//!
//! An element is a fixed-width integer. In a byte region it occupies `width`
//! consecutive bytes in little-endian order: the byte at the element's address
//! is its least significant one.

use crate::state_backend::Region;
use vstd::arithmetic::div_mod::{lemma_breakdown, lemma_div_denominator, lemma_small_mod};
use vstd::prelude::*;

verus! {

/// `256^n`: the number of bit patterns of `n` bytes.
pub open spec fn pow256(n: nat) -> nat
    decreases n,
{
    if n == 0 {
        1
    } else {
        256 * pow256((n - 1) as nat)
    }
}

/// The number that a sequence of bytes denotes in little-endian order.
pub open spec fn le_value(bytes: Seq<u8>) -> nat
    decreases bytes.len(),
{
    if bytes.len() == 0 {
        0
    } else {
        bytes[0] as nat + 256 * le_value(bytes.drop_first())
    }
}

/// Byte `k` of `bits`, counting from the least significant one.
pub open spec fn byte_at(bits: nat, k: nat) -> u8 {
    ((bits / pow256(k)) % 256) as u8
}

/// The `width` low bytes of `bits`, least significant first.
pub open spec fn le_bytes(bits: nat, width: nat) -> Seq<u8> {
    Seq::new(width, |k: int| byte_at(bits, k as nat))
}

/// The element of type `E` that `space` holds at `addr`.
pub open spec fn load<E: Elem>(space: Seq<u8>, addr: int) -> E {
    E::spec_from_bits(le_value(space.subrange(addr, addr + E::spec_width())) as u64)
}

/// `space` after `value` was stored at `addr`: the bytes of `value` replace
/// those at `addr .. addr + width`, all others stay.
pub open spec fn store<E: Elem>(space: Seq<u8>, addr: int, value: E) -> Seq<u8> {
    Seq::new(
        space.len(),
        |i: int|
            if addr <= i < addr + E::spec_width() {
                byte_at(value.spec_to_bits() as nat, (i - addr) as nat)
            } else {
                space[i]
            },
    )
}

/// Every power of 256 is positive.
pub proof fn lemma_pow256_positive(n: nat)
    ensures
        pow256(n) > 0,
    decreases n,
{
    if n > 0 {
        lemma_pow256_positive((n - 1) as nat);
    }
}

/// A larger exponent gives a power of 256 that is no smaller.
pub proof fn lemma_pow256_increases(a: nat, b: nat)
    requires
        a <= b,
    ensures
        pow256(a) <= pow256(b),
    decreases b,
{
    if a < b {
        lemma_pow256_increases(a, (b - 1) as nat);
        lemma_pow256_positive((b - 1) as nat);
    }
}

/// Eight bytes have `2^64` bit patterns.
pub proof fn lemma_pow256_of_8()
    ensures
        pow256(8) == 0x1_0000_0000_0000_0000,
{
    reveal_with_fuel(pow256, 9);
}

/// A sequence of bytes denotes a number below `256^len`.
pub proof fn lemma_le_value_bound(bytes: Seq<u8>)
    ensures
        le_value(bytes) < pow256(bytes.len()),
    decreases bytes.len(),
{
    if bytes.len() > 0 {
        lemma_le_value_bound(bytes.drop_first());
    }
}

/// The `width` low bytes of `bits` denote `bits` modulo `256^width`.
pub proof fn lemma_le_value_of_le_bytes(bits: nat, width: nat)
    ensures
        le_value(le_bytes(bits, width)) == bits % pow256(width),
    decreases width,
{
    let bytes = le_bytes(bits, width);
    if width > 0 {
        let rest = le_bytes(bits / 256, (width - 1) as nat);
        assert forall|k: int| 0 <= k < width - 1 implies bytes.drop_first()[k] == rest[k] by {
            lemma_pow256_positive(k as nat);
            lemma_div_denominator(bits as int, 256, pow256(k as nat) as int);
            assert(pow256((k + 1) as nat) == 256 * pow256(k as nat));
        }
        assert(bytes.drop_first() =~= rest);
        assert(pow256(0) == 1);
        assert(bytes[0] == (bits % 256) as u8);
        lemma_le_value_of_le_bytes(bits / 256, (width - 1) as nat);
        lemma_pow256_positive((width - 1) as nat);
        lemma_breakdown(bits as int, 256, pow256((width - 1) as nat) as int);
    }
}

/// Storing an element changes no length.
pub proof fn lemma_store_len<E: Elem>(space: Seq<u8>, addr: int, value: E)
    ensures
        store(space, addr, value).len() == space.len(),
{
}

/// Storing an element is little-endian: byte `k` of the element, counting
/// from the least significant one, lands at `addr + k`.
pub proof fn lemma_store_is_little_endian<E: Elem>(space: Seq<u8>, addr: int, value: E, k: nat)
    requires
        0 <= addr,
        addr + E::spec_width() <= space.len(),
        k < E::spec_width(),
    ensures
        store(space, addr, value)[addr + k] == (value.spec_to_bits() as nat / pow256(k)) % 256,
{
}

/// An element that was stored at `addr` is what a load from `addr` gives.
pub proof fn lemma_load_after_store<E: Elem>(space: Seq<u8>, addr: int, value: E)
    requires
        0 <= addr,
        addr + E::spec_width() <= space.len(),
    ensures
        load::<E>(store(space, addr, value), addr) == value,
{
    let width = E::spec_width();
    let bits = value.spec_to_bits() as nat;
    let stored = store(space, addr, value).subrange(addr, addr + width);
    assert(stored =~= le_bytes(bits, width));
    lemma_le_value_of_le_bytes(bits, width);
    value.lemma_bits_fit();
    lemma_small_mod(bits, pow256(width));
    value.lemma_from_to_bits();
}

/// A store leaves every element alone that it does not overlap.
pub proof fn lemma_load_elsewhere<E: Elem, F: Elem>(
    space: Seq<u8>,
    addr: int,
    value: E,
    other: int,
)
    requires
        0 <= addr,
        addr + E::spec_width() <= space.len(),
        0 <= other,
        other + F::spec_width() <= space.len(),
        other + F::spec_width() <= addr || addr + E::spec_width() <= other,
    ensures
        load::<F>(store(space, addr, value), other) == load::<F>(space, other),
{
    assert(store(space, addr, value).subrange(other, other + F::spec_width())
        =~= space.subrange(other, other + F::spec_width()));
}

/// Two element types of the same width read the same bits from the same
/// place: a signed element is the unsigned one of its width, reinterpreted.
pub proof fn lemma_same_width_same_bits<E: Elem, F: Elem>(space: Seq<u8>, addr: int)
    requires
        E::spec_width() == F::spec_width(),
        0 <= addr,
        addr + E::spec_width() <= space.len(),
    ensures
        load::<E>(space, addr).spec_to_bits() == load::<F>(space, addr).spec_to_bits(),
{
    let bytes = space.subrange(addr, addr + E::spec_width());
    lemma_le_value_bound(bytes);
    E::lemma_width();
    lemma_pow256_increases(bytes.len(), 8);
    lemma_pow256_of_8();
    E::lemma_to_from_bits(le_value(bytes) as u64);
    F::lemma_to_from_bits(le_value(bytes) as u64);
}

/// Read the element stored at `addr`, assembling it from its bytes.
pub fn read_elem<E: Elem, const LEN: usize, R: Region<u8, LEN>>(region: &R, addr: usize) -> (value: E)
    requires
        addr + E::spec_width() <= LEN,
    ensures
        value == load::<E>(region@, addr as int),
{
    let width: usize = E::width();
    let mut bits: u64 = 0;
    let mut i: usize = width;
    proof {
        E::lemma_width();
        region.lemma_len();
        assert(region@.subrange(addr + i, addr + width).len() == 0);
    }
    while i > 0
        invariant
            i <= width <= 8,
            width == E::spec_width(),
            addr + width <= LEN,
            region@.len() == LEN,
            bits == le_value(region@.subrange(addr + i, addr + width)),
            bits < pow256((width - i) as nat),
        decreases i,
    {
        i = i - 1;
        let byte: u8 = region.read(addr + i);
        proof {
            let upper = region@.subrange(addr + i + 1, addr + width);
            let all = region@.subrange(addr + i, addr + width);
            assert(all.drop_first() =~= upper);
            assert(all[0] == byte);
            lemma_pow256_increases((width - i) as nat, 8);
            lemma_pow256_of_8();
        }
        bits = bits * 256 + byte as u64;
    }
    E::from_bits(bits)
}

/// Write `value` at `addr`, byte by byte.
pub fn write_elem<E: Elem, const LEN: usize, R: Region<u8, LEN>>(
    region: &mut R,
    addr: usize,
    value: E,
)
    requires
        addr + E::spec_width() <= LEN,
    ensures
        final(region)@ == store(old(region)@, addr as int, value),
{
    let width: usize = E::width();
    let bits: u64 = value.to_bits();
    let ghost before = region@;
    let mut rest: u64 = bits;
    let mut k: usize = 0;
    proof {
        E::lemma_width();
        region.lemma_len();
        assert(pow256(0) == 1);
        assert(region@ =~= Seq::new(before.len(), |i: int| before[i]));
    }
    while k < width
        invariant
            k <= width <= 8,
            width == E::spec_width(),
            addr + width <= LEN,
            before.len() == LEN,
            rest == bits as nat / pow256(k as nat),
            region@ == Seq::new(
                before.len(),
                |i: int|
                    if addr <= i < addr + k {
                        byte_at(bits as nat, (i - addr) as nat)
                    } else {
                        before[i]
                    },
            ),
        decreases width - k,
    {
        region.write(addr + k, (rest % 256) as u8);
        proof {
            lemma_pow256_positive(k as nat);
            lemma_div_denominator(bits as int, pow256(k as nat) as int, 256);
            assert(pow256((k + 1) as nat) == 256 * pow256(k as nat));
            assert(pow256(k as nat) * 256 == 256 * pow256(k as nat));
        }
        rest = rest / 256;
        k = k + 1;
    }
}

/// A value that can be read from and written to a byte-addressed region.
pub trait Elem: Copy + Sized {
    /// Number of bytes that the element occupies: 1, 2, 4 or 8.
    spec fn spec_width() -> nat;

    /// The element's bit pattern as an unsigned number, below
    /// `256^width`. For a signed element this is its two's complement.
    spec fn spec_to_bits(self) -> u64;

    /// The element whose bit pattern is the low `width` bytes of `bits`.
    spec fn spec_from_bits(bits: u64) -> Self;

    /// An element has one, two, four or eight bytes.
    proof fn lemma_width()
        ensures
            Self::spec_width() == 1 || Self::spec_width() == 2 || Self::spec_width() == 4
                || Self::spec_width() == 8,
    ;

    /// The bit pattern of an element fits in its bytes.
    proof fn lemma_bits_fit(self)
        ensures
            self.spec_to_bits() < pow256(Self::spec_width()),
    ;

    /// Converting to bits and back gives the element again.
    proof fn lemma_from_to_bits(self)
        ensures
            Self::spec_from_bits(self.spec_to_bits()) == self,
    ;

    /// An element made from bits has the low `width` bytes of those bits as
    /// its bit pattern, whatever its sign.
    proof fn lemma_to_from_bits(bits: u64)
        ensures
            Self::spec_from_bits(bits).spec_to_bits() == bits as nat % pow256(Self::spec_width()),
    ;

    /// Number of bytes that the element occupies.
    fn width() -> (width: usize)
        ensures
            width == Self::spec_width(),
    ;

    /// The element's bit pattern, zero-extended to 64 bits.
    fn to_bits(self) -> (bits: u64)
        ensures
            bits == self.spec_to_bits(),
    ;

    /// The element made of the low `width` bytes of `bits`.
    fn from_bits(bits: u64) -> (value: Self)
        ensures
            value == Self::spec_from_bits(bits),
    ;
}

impl Elem for u8 {
    open spec fn spec_width() -> nat {
        1
    }

    open spec fn spec_to_bits(self) -> u64 {
        self as u64
    }

    open spec fn spec_from_bits(bits: u64) -> u8 {
        (bits % 0x100) as u8
    }

    proof fn lemma_width() {
    }

    proof fn lemma_bits_fit(self) {
        reveal_with_fuel(pow256, 2);
    }

    proof fn lemma_from_to_bits(self) {
    }

    proof fn lemma_to_from_bits(bits: u64) {
        reveal_with_fuel(pow256, 2);
    }

    fn width() -> (width: usize) {
        1
    }

    fn to_bits(self) -> (bits: u64) {
        self as u64
    }

    fn from_bits(bits: u64) -> (value: u8) {
        assert(bits as u8 == (bits % 0x100) as u8) by (bit_vector);
        #[verifier::truncate]
        (bits as u8)
    }
}

impl Elem for i8 {
    open spec fn spec_width() -> nat {
        1
    }

    open spec fn spec_to_bits(self) -> u64 {
        if self >= 0 {
            self as u64
        } else {
            (self + 0x100) as u64
        }
    }

    open spec fn spec_from_bits(bits: u64) -> i8 {
        if bits % 0x100 < 0x80 {
            (bits % 0x100) as i8
        } else {
            (bits % 0x100 - 0x100) as i8
        }
    }

    proof fn lemma_width() {
    }

    proof fn lemma_bits_fit(self) {
        reveal_with_fuel(pow256, 2);
    }

    proof fn lemma_from_to_bits(self) {
    }

    proof fn lemma_to_from_bits(bits: u64) {
        reveal_with_fuel(pow256, 2);
    }

    fn width() -> (width: usize) {
        1
    }

    fn to_bits(self) -> (bits: u64) {
        assert((self as u8) as u64 == self.spec_to_bits()) by (bit_vector);
        #[verifier::truncate]
        (self as u8) as u64
    }

    fn from_bits(bits: u64) -> (value: i8) {
        assert(bits as i8 == i8::spec_from_bits(bits)) by (bit_vector);
        #[verifier::truncate]
        (bits as i8)
    }
}

impl Elem for u16 {
    open spec fn spec_width() -> nat {
        2
    }

    open spec fn spec_to_bits(self) -> u64 {
        self as u64
    }

    open spec fn spec_from_bits(bits: u64) -> u16 {
        (bits % 0x1_0000) as u16
    }

    proof fn lemma_width() {
    }

    proof fn lemma_bits_fit(self) {
        reveal_with_fuel(pow256, 3);
    }

    proof fn lemma_from_to_bits(self) {
    }

    proof fn lemma_to_from_bits(bits: u64) {
        reveal_with_fuel(pow256, 3);
    }

    fn width() -> (width: usize) {
        2
    }

    fn to_bits(self) -> (bits: u64) {
        self as u64
    }

    fn from_bits(bits: u64) -> (value: u16) {
        assert(bits as u16 == (bits % 0x1_0000) as u16) by (bit_vector);
        #[verifier::truncate]
        (bits as u16)
    }
}

impl Elem for i16 {
    open spec fn spec_width() -> nat {
        2
    }

    open spec fn spec_to_bits(self) -> u64 {
        if self >= 0 {
            self as u64
        } else {
            (self + 0x1_0000) as u64
        }
    }

    open spec fn spec_from_bits(bits: u64) -> i16 {
        if bits % 0x1_0000 < 0x8000 {
            (bits % 0x1_0000) as i16
        } else {
            (bits % 0x1_0000 - 0x1_0000) as i16
        }
    }

    proof fn lemma_width() {
    }

    proof fn lemma_bits_fit(self) {
        reveal_with_fuel(pow256, 3);
    }

    proof fn lemma_from_to_bits(self) {
    }

    proof fn lemma_to_from_bits(bits: u64) {
        reveal_with_fuel(pow256, 3);
    }

    fn width() -> (width: usize) {
        2
    }

    fn to_bits(self) -> (bits: u64) {
        assert((self as u16) as u64 == self.spec_to_bits()) by (bit_vector);
        #[verifier::truncate]
        (self as u16) as u64
    }

    fn from_bits(bits: u64) -> (value: i16) {
        assert(bits as i16 == i16::spec_from_bits(bits)) by (bit_vector);
        #[verifier::truncate]
        (bits as i16)
    }
}

impl Elem for u32 {
    open spec fn spec_width() -> nat {
        4
    }

    open spec fn spec_to_bits(self) -> u64 {
        self as u64
    }

    open spec fn spec_from_bits(bits: u64) -> u32 {
        (bits % 0x1_0000_0000) as u32
    }

    proof fn lemma_width() {
    }

    proof fn lemma_bits_fit(self) {
        reveal_with_fuel(pow256, 5);
    }

    proof fn lemma_from_to_bits(self) {
    }

    proof fn lemma_to_from_bits(bits: u64) {
        reveal_with_fuel(pow256, 5);
    }

    fn width() -> (width: usize) {
        4
    }

    fn to_bits(self) -> (bits: u64) {
        self as u64
    }

    fn from_bits(bits: u64) -> (value: u32) {
        assert(bits as u32 == (bits % 0x1_0000_0000) as u32) by (bit_vector);
        #[verifier::truncate]
        (bits as u32)
    }
}

impl Elem for i32 {
    open spec fn spec_width() -> nat {
        4
    }

    open spec fn spec_to_bits(self) -> u64 {
        if self >= 0 {
            self as u64
        } else {
            (self + 0x1_0000_0000) as u64
        }
    }

    open spec fn spec_from_bits(bits: u64) -> i32 {
        if bits % 0x1_0000_0000 < 0x8000_0000 {
            (bits % 0x1_0000_0000) as i32
        } else {
            (bits % 0x1_0000_0000 - 0x1_0000_0000) as i32
        }
    }

    proof fn lemma_width() {
    }

    proof fn lemma_bits_fit(self) {
        reveal_with_fuel(pow256, 5);
    }

    proof fn lemma_from_to_bits(self) {
    }

    proof fn lemma_to_from_bits(bits: u64) {
        reveal_with_fuel(pow256, 5);
    }

    fn width() -> (width: usize) {
        4
    }

    fn to_bits(self) -> (bits: u64) {
        assert((self as u32) as u64 == self.spec_to_bits()) by (bit_vector);
        #[verifier::truncate]
        (self as u32) as u64
    }

    fn from_bits(bits: u64) -> (value: i32) {
        assert(bits as i32 == i32::spec_from_bits(bits)) by (bit_vector);
        #[verifier::truncate]
        (bits as i32)
    }
}

impl Elem for u64 {
    open spec fn spec_width() -> nat {
        8
    }

    open spec fn spec_to_bits(self) -> u64 {
        self
    }

    open spec fn spec_from_bits(bits: u64) -> u64 {
        bits
    }

    proof fn lemma_width() {
    }

    proof fn lemma_bits_fit(self) {
        reveal_with_fuel(pow256, 9);
    }

    proof fn lemma_from_to_bits(self) {
    }

    proof fn lemma_to_from_bits(bits: u64) {
        lemma_pow256_of_8();
        lemma_small_mod(bits as nat, pow256(8));
    }

    fn width() -> (width: usize) {
        8
    }

    fn to_bits(self) -> (bits: u64) {
        self
    }

    fn from_bits(bits: u64) -> (value: u64) {
        bits
    }
}

impl Elem for i64 {
    open spec fn spec_width() -> nat {
        8
    }

    open spec fn spec_to_bits(self) -> u64 {
        if self >= 0 {
            self as u64
        } else {
            (self + 0x1_0000_0000_0000_0000) as u64
        }
    }

    open spec fn spec_from_bits(bits: u64) -> i64 {
        if bits < 0x8000_0000_0000_0000 {
            bits as i64
        } else {
            (bits - 0x1_0000_0000_0000_0000) as i64
        }
    }

    proof fn lemma_width() {
    }

    proof fn lemma_bits_fit(self) {
        reveal_with_fuel(pow256, 9);
    }

    proof fn lemma_from_to_bits(self) {
    }

    proof fn lemma_to_from_bits(bits: u64) {
        lemma_pow256_of_8();
        lemma_small_mod(bits as nat, pow256(8));
    }

    fn width() -> (width: usize) {
        8
    }

    fn to_bits(self) -> (bits: u64) {
        assert(self as u64 == self.spec_to_bits()) by (bit_vector);
        #[verifier::truncate]
        (self as u64)
    }

    fn from_bits(bits: u64) -> (value: i64) {
        assert(bits as i64 == i64::spec_from_bits(bits)) by (bit_vector);
        #[verifier::truncate]
        (bits as i64)
    }
}

} // verus!
