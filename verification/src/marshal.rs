//! Rebuilding values from bytes read out of a target's memory: fixed-width
//! integers in the target's byte order, addresses, and UTF-16 text.

use crate::layout::{ByteOrder, Layout};
use crate::text::string_of;
use vstd::prelude::*;

verus! {

/// Why bytes read from a target could not be turned into values.
#[derive(Clone, Copy, Debug, PartialEq, Eq, Structural)]
pub enum MarshalError {
    /// The byte order is neither little nor big endian.
    UnsupportedByteOrder,
    /// Addresses are neither four nor eight bytes wide.
    UnsupportedAddressWidth,
    /// The number of bytes is not the number that the values take.
    LengthMismatch,
    /// The code units are not well-formed UTF-16.
    DecodeError,
}

/// A request to read `byte_count` bytes of the target's memory at `address`.
#[derive(Clone, Copy, Debug, PartialEq, Eq, Structural)]
pub struct ReadRequest {
    pub address: u64,
    pub byte_count: u64,
}

/// The byte order is one in which values can be rebuilt.
pub open spec fn supported(order: ByteOrder) -> bool {
    order == ByteOrder::Little || order == ByteOrder::Big
}

/// The bytes of a value stored in `order`, rearranged so that the least
/// significant byte comes first.
pub open spec fn in_order(bytes: Seq<u8>, order: ByteOrder) -> Seq<u8> {
    if order == ByteOrder::Big {
        bytes.reverse()
    } else {
        bytes
    }
}

/// An integer type of fixed width that can be rebuilt from its bytes.
pub trait Scalar: Sized + Copy {
    /// The number of bytes that one value takes.
    spec fn width() -> nat;

    /// The value whose bytes, least significant first, are `bytes`.
    spec fn from_le(bytes: Seq<u8>) -> Self;

    /// The bytes of the value, least significant first.
    spec fn to_le(self) -> Seq<u8>;

    /// A value takes between one and eight bytes.
    proof fn lemma_width()
        ensures
            1 <= Self::width() <= 8,
    ;

    /// The bytes of a value are as many as its width, and give it back.
    proof fn lemma_round_trip(self)
        ensures
            self.to_le().len() == Self::width(),
            Self::from_le(self.to_le()) == self,
    ;

    /// The number of bytes that one value takes.
    fn size() -> (n: usize)
        ensures
            n == Self::width(),
    ;

    /// The value stored in `order` in the bytes from index `at` on.
    fn read(bytes: &[u8], at: usize, order: ByteOrder) -> (value: Self)
        requires
            supported(order),
            at + Self::width() <= bytes@.len(),
        ensures
            value == Self::from_le(
                in_order(bytes@.subrange(at as int, at + Self::width()), order),
            ),
    ;
}

/// The value that `bytes` hold in `order`.
pub open spec fn decode<T: Scalar>(bytes: Seq<u8>, order: ByteOrder) -> T {
    T::from_le(in_order(bytes, order))
}

/// The bytes that hold `value` in `order`.
pub open spec fn encode<T: Scalar>(value: T, order: ByteOrder) -> Seq<u8> {
    in_order(value.to_le(), order)
}

/// The value with index `i` among the values stored one after another in
/// `bytes`.
pub open spec fn element<T: Scalar>(bytes: Seq<u8>, i: int, order: ByteOrder) -> T {
    decode::<T>(bytes.subrange(i * T::width(), i * T::width() + T::width()), order)
}

/// The `length` values stored one after another in `bytes`.
pub open spec fn scalars<T: Scalar>(bytes: Seq<u8>, length: nat, order: ByteOrder) -> Seq<T> {
    Seq::new(length, |i: int| element::<T>(bytes, i, order))
}

/// The bytes that hold `values` one after another in `order`.
pub open spec fn encoded<T: Scalar>(values: Seq<T>, order: ByteOrder) -> Seq<u8>
    decreases values.len(),
{
    if values.len() == 0 {
        Seq::empty()
    } else {
        encoded(values.drop_last(), order) + encode(values.last(), order)
    }
}

/// What reading `length` values out of `bytes` gives.
pub open spec fn array_outcome<T: Scalar>(bytes: Seq<u8>, length: nat, order: ByteOrder) -> Result<
    Seq<T>,
    MarshalError,
> {
    if !supported(order) {
        Err(MarshalError::UnsupportedByteOrder)
    } else if bytes.len() != length * T::width() {
        Err(MarshalError::LengthMismatch)
    } else {
        Ok(scalars::<T>(bytes, length, order))
    }
}

/// The byte with significance `k` of the value that is stored in `order`
/// in the `width` bytes from index `at` on.
fn byte_of(bytes: &[u8], at: usize, width: usize, k: usize, order: ByteOrder) -> (byte: u8)
    requires
        supported(order),
        k < width,
        at + width <= bytes@.len(),
    ensures
        byte == in_order(bytes@.subrange(at as int, at + width), order)[k as int],
{
    let len: usize = bytes.len();
    assert(at + width <= len);
    if order == ByteOrder::Big {
        bytes[at + (width - 1 - k)]
    } else {
        bytes[at + k]
    }
}

impl Scalar for u8 {
    open spec fn width() -> nat {
        1
    }

    open spec fn from_le(bytes: Seq<u8>) -> u8 {
        bytes[0]
    }

    open spec fn to_le(self) -> Seq<u8> {
        seq![self]
    }

    proof fn lemma_width() {
    }

    proof fn lemma_round_trip(self) {
    }

    fn size() -> (n: usize) {
        1
    }

    fn read(bytes: &[u8], at: usize, order: ByteOrder) -> (value: u8) {
        byte_of(bytes, at, 1, 0, order)
    }
}

impl Scalar for u16 {
    open spec fn width() -> nat {
        2
    }

    open spec fn from_le(bytes: Seq<u8>) -> u16 {
        (bytes[0] + bytes[1] * 0x100) as u16
    }

    open spec fn to_le(self) -> Seq<u8> {
        seq![(self % 0x100) as u8, (self / 0x100) as u8]
    }

    proof fn lemma_width() {
    }

    proof fn lemma_round_trip(self) {
    }

    fn size() -> (n: usize) {
        2
    }

    fn read(bytes: &[u8], at: usize, order: ByteOrder) -> (value: u16) {
        let b0: u16 = byte_of(bytes, at, 2, 0, order) as u16;
        let b1: u16 = byte_of(bytes, at, 2, 1, order) as u16;
        b0 + b1 * 0x100
    }
}

impl Scalar for u32 {
    open spec fn width() -> nat {
        4
    }

    open spec fn from_le(bytes: Seq<u8>) -> u32 {
        (bytes[0] + bytes[1] * 0x100 + bytes[2] * 0x1_0000 + bytes[3] * 0x100_0000) as u32
    }

    open spec fn to_le(self) -> Seq<u8> {
        seq![
            (self % 0x100) as u8,
            (self / 0x100 % 0x100) as u8,
            (self / 0x1_0000 % 0x100) as u8,
            (self / 0x100_0000) as u8,
        ]
    }

    proof fn lemma_width() {
    }

    proof fn lemma_round_trip(self) {
    }

    fn size() -> (n: usize) {
        4
    }

    fn read(bytes: &[u8], at: usize, order: ByteOrder) -> (value: u32) {
        let b0: u32 = byte_of(bytes, at, 4, 0, order) as u32;
        let b1: u32 = byte_of(bytes, at, 4, 1, order) as u32;
        let b2: u32 = byte_of(bytes, at, 4, 2, order) as u32;
        let b3: u32 = byte_of(bytes, at, 4, 3, order) as u32;
        b0 + b1 * 0x100 + b2 * 0x1_0000 + b3 * 0x100_0000
    }
}

impl Scalar for u64 {
    open spec fn width() -> nat {
        8
    }

    open spec fn from_le(bytes: Seq<u8>) -> u64 {
        (bytes[0] + bytes[1] * 0x100 + bytes[2] * 0x1_0000 + bytes[3] * 0x100_0000 + bytes[4]
            * 0x1_0000_0000 + bytes[5] * 0x100_0000_0000 + bytes[6] * 0x1_0000_0000_0000
            + bytes[7] * 0x100_0000_0000_0000) as u64
    }

    open spec fn to_le(self) -> Seq<u8> {
        seq![
            (self % 0x100) as u8,
            (self / 0x100 % 0x100) as u8,
            (self / 0x1_0000 % 0x100) as u8,
            (self / 0x100_0000 % 0x100) as u8,
            (self / 0x1_0000_0000 % 0x100) as u8,
            (self / 0x100_0000_0000 % 0x100) as u8,
            (self / 0x1_0000_0000_0000 % 0x100) as u8,
            (self / 0x100_0000_0000_0000) as u8,
        ]
    }

    proof fn lemma_width() {
    }

    proof fn lemma_round_trip(self) {
        let v: u64 = self;
        assert(v % 0x100 + (v / 0x100 % 0x100) * 0x100 + (v / 0x1_0000 % 0x100) * 0x1_0000 + (v
            / 0x100_0000 % 0x100) * 0x100_0000 + (v / 0x1_0000_0000 % 0x100) * 0x1_0000_0000 + (v
            / 0x100_0000_0000 % 0x100) * 0x100_0000_0000 + (v / 0x1_0000_0000_0000 % 0x100)
            * 0x1_0000_0000_0000 + (v / 0x100_0000_0000_0000) * 0x100_0000_0000_0000 == v)
            by (bit_vector);
    }

    fn size() -> (n: usize) {
        8
    }

    fn read(bytes: &[u8], at: usize, order: ByteOrder) -> (value: u64) {
        let b0: u64 = byte_of(bytes, at, 8, 0, order) as u64;
        let b1: u64 = byte_of(bytes, at, 8, 1, order) as u64;
        let b2: u64 = byte_of(bytes, at, 8, 2, order) as u64;
        let b3: u64 = byte_of(bytes, at, 8, 3, order) as u64;
        let b4: u64 = byte_of(bytes, at, 8, 4, order) as u64;
        let b5: u64 = byte_of(bytes, at, 8, 5, order) as u64;
        let b6: u64 = byte_of(bytes, at, 8, 6, order) as u64;
        let b7: u64 = byte_of(bytes, at, 8, 7, order) as u64;
        b0 + b1 * 0x100 + b2 * 0x1_0000 + b3 * 0x100_0000 + b4 * 0x1_0000_0000 + b5
            * 0x100_0000_0000 + b6 * 0x1_0000_0000_0000 + b7 * 0x100_0000_0000_0000
    }
}

/// Rebuilds the `length` values that `bytes` hold one after another in
/// `order`. The bytes must be exactly as many as the values take.
pub fn read_scalar_array<T: Scalar>(bytes: &[u8], length: usize, order: ByteOrder) -> (outcome:
    Result<Vec<T>, MarshalError>)
    ensures
        match outcome {
            Ok(values) => array_outcome::<T>(bytes@, length as nat, order) == Ok::<
                Seq<T>,
                MarshalError,
            >(values@),
            Err(error) => array_outcome::<T>(bytes@, length as nat, order) == Err::<
                Seq<T>,
                MarshalError,
            >(error),
        },
{
    if order != ByteOrder::Little && order != ByteOrder::Big {
        return Err(MarshalError::UnsupportedByteOrder);
    }
    let width: usize = T::size();
    proof {
        T::lemma_width();
    }
    let len: usize = bytes.len();
    assert((length as nat) * T::width() == length * width) by (nonlinear_arith)
        requires
            width == T::width(),
    ;
    match length.checked_mul(width) {
        Some(total) => {
            if total != len {
                return Err(MarshalError::LengthMismatch);
            }
        },
        None => {
            return Err(MarshalError::LengthMismatch);
        },
    }
    let mut values: Vec<T> = Vec::new();
    let mut i: usize = 0;
    let mut at: usize = 0;
    while i < length
        invariant
            supported(order),
            width == T::width(),
            1 <= width <= 8,
            bytes@.len() == length * width,
            length * width <= usize::MAX,
            i <= length,
            at == i * width,
            values@ == scalars::<T>(bytes@, i as nat, order),
        decreases length - i,
    {
        assert((i + 1) * width <= length * width) by (nonlinear_arith)
            requires
                i + 1 <= length,
                width >= 1,
        ;
        assert((i + 1) * width == i * width + width) by (nonlinear_arith);
        let value: T = T::read(bytes, at, order);
        values.push(value);
        assert(values@ =~= scalars::<T>(bytes@, (i + 1) as nat, order));
        i += 1;
        at += width;
    }
    Ok(values)
}

/// The request that fetches `length` values of `width` bytes each from
/// `address`; `None` where their size is beyond what a request can hold.
pub fn array_read_request(address: u64, length: u64, width: u64) -> (request: Option<ReadRequest>)
    ensures
        request == if length * width <= u64::MAX {
            Some(ReadRequest { address, byte_count: (length * width) as u64 })
        } else {
            None
        },
{
    match length.checked_mul(width) {
        Some(byte_count) => Some(ReadRequest { address, byte_count }),
        None => None,
    }
}

/// The bytes that hold `values` are as many as the values take.
pub proof fn lemma_encoded_len<T: Scalar>(values: Seq<T>, order: ByteOrder)
    ensures
        encoded(values, order).len() == values.len() * T::width(),
    decreases values.len(),
{
    if values.len() > 0 {
        lemma_encoded_len(values.drop_last(), order);
        values.last().lemma_round_trip();
        assert((values.len() - 1) * T::width() + T::width() == values.len() * T::width())
            by (nonlinear_arith);
    }
}

/// Every value is read back from the bytes that hold the values.
pub proof fn lemma_element_of_encoded<T: Scalar>(values: Seq<T>, order: ByteOrder, i: int)
    requires
        0 <= i < values.len(),
    ensures
        element::<T>(encoded(values, order), i, order) == values[i],
    decreases values.len(),
{
    let w = T::width() as int;
    let front = values.drop_last();
    let all = encoded(values, order);
    lemma_encoded_len(front, order);
    lemma_encoded_len(values, order);
    values.last().lemma_round_trip();
    assert(i * w + w <= values.len() * w) by (nonlinear_arith)
        requires
            i + 1 <= values.len(),
            w >= 0,
    ;
    assert(0 <= i * w) by (nonlinear_arith)
        requires
            0 <= i,
            0 <= w,
    ;
    if i < values.len() - 1 {
        lemma_element_of_encoded(front, order, i);
        assert(i * w + w <= (values.len() - 1) * w) by (nonlinear_arith)
            requires
                i + 1 <= values.len() - 1,
                w >= 0,
        ;
        assert(all.subrange(i * w, i * w + w) =~= encoded(front, order).subrange(
            i * w,
            i * w + w,
        ));
    } else {
        let bytes = values.last().to_le();
        assert(i * w == front.len() * w);
        assert(all.subrange(i * w, i * w + w) =~= encode(values.last(), order));
        assert(in_order(in_order(bytes, order), order) =~= bytes);
    }
}

/// Values written one after another in a supported byte order are read
/// back unchanged from the bytes that hold them.
pub proof fn law_round_trip<T: Scalar>(values: Seq<T>, order: ByteOrder)
    requires
        supported(order),
    ensures
        array_outcome::<T>(encoded(values, order), values.len(), order) == Ok::<
            Seq<T>,
            MarshalError,
        >(values),
{
    lemma_encoded_len(values, order);
    assert forall|i: int| 0 <= i < values.len() implies element::<T>(
        encoded(values, order),
        i,
        order,
    ) == values[i] by {
        lemma_element_of_encoded(values, order, i);
    }
    assert(scalars::<T>(encoded(values, order), values.len(), order) =~= values);
}

/// What reading `length` addresses out of `bytes` gives, for a target with
/// the given layout.
pub open spec fn address_array_outcome(bytes: Seq<u8>, length: nat, layout: Layout) -> Result<
    Seq<u64>,
    MarshalError,
> {
    if layout.address_width == 4 {
        match array_outcome::<u32>(bytes, length, layout.byte_order) {
            Ok(values) => Ok(Seq::new(values.len(), |i: int| values[i] as u64)),
            Err(error) => Err(error),
        }
    } else if layout.address_width == 8 {
        array_outcome::<u64>(bytes, length, layout.byte_order)
    } else {
        Err(MarshalError::UnsupportedAddressWidth)
    }
}

/// Rebuilds the `length` addresses that `bytes` hold one after another, in
/// the byte order and address width of `layout`.
pub fn read_address_array(bytes: &[u8], length: usize, layout: Layout) -> (outcome: Result<
    Vec<u64>,
    MarshalError,
>)
    ensures
        match outcome {
            Ok(values) => address_array_outcome(bytes@, length as nat, layout) == Ok::<
                Seq<u64>,
                MarshalError,
            >(values@),
            Err(error) => address_array_outcome(bytes@, length as nat, layout) == Err::<
                Seq<u64>,
                MarshalError,
            >(error),
        },
{
    if layout.address_width == 4 {
        match read_scalar_array::<u32>(bytes, length, layout.byte_order) {
            Ok(narrow) => {
                let mut wide: Vec<u64> = Vec::new();
                let mut i: usize = 0;
                while i < narrow.len()
                    invariant
                        i <= narrow.len(),
                        wide@ == Seq::new(i as nat, |k: int| narrow@[k] as u64),
                    decreases narrow.len() - i,
                {
                    wide.push(narrow[i] as u64);
                    i += 1;
                    assert(wide@ =~= Seq::new(i as nat, |k: int| narrow@[k] as u64));
                }
                Ok(wide)
            },
            Err(error) => Err(error),
        }
    } else if layout.address_width == 8 {
        read_scalar_array::<u64>(bytes, length, layout.byte_order)
    } else {
        Err(MarshalError::UnsupportedAddressWidth)
    }
}

/// A code unit that opens a surrogate pair.
pub open spec fn is_high_surrogate(unit: u16) -> bool {
    0xD800 <= unit <= 0xDBFF
}

/// A code unit that closes a surrogate pair.
pub open spec fn is_low_surrogate(unit: u16) -> bool {
    0xDC00 <= unit <= 0xDFFF
}

/// The code point that a surrogate pair stands for.
pub open spec fn pair_scalar(high: u16, low: u16) -> u32 {
    (0x1_0000 + (high - 0xD800) * 0x400 + (low - 0xDC00)) as u32
}

/// A number that is the code of a character: a code point that is no
/// surrogate.
pub open spec fn is_scalar_value(value: u32) -> bool {
    value <= 0xD7FF || 0xE000 <= value <= 0x10_FFFF
}

/// `text` after `first`, where there is a `text`.
pub open spec fn after(first: Seq<char>, text: Option<Seq<char>>) -> Option<Seq<char>> {
    match text {
        Some(rest) => Some(first + rest),
        None => None,
    }
}

/// The text that UTF-16 code units stand for, or `None` where they are not
/// well formed: a unit that is no surrogate is one character, a high
/// surrogate followed by a low one is one character, and any other
/// surrogate is an error.
pub open spec fn utf16_text(units: Seq<u16>) -> Option<Seq<char>>
    decreases units.len(),
{
    if units.len() == 0 {
        Some(Seq::empty())
    } else if !is_high_surrogate(units[0]) && !is_low_surrogate(units[0]) {
        after(seq![units[0] as char], utf16_text(units.skip(1)))
    } else if is_high_surrogate(units[0]) && units.len() >= 2 && is_low_surrogate(units[1]) {
        after(seq![pair_scalar(units[0], units[1]) as char], utf16_text(units.skip(2)))
    } else {
        None
    }
}

/// Calls `char::from_u32`. Trusted: the result is the character with the
/// given code where the number is the code of a character, and `None`
/// where it is not.
#[verifier::external_body]
fn char_of_scalar(value: u32) -> (c: Option<char>)
    ensures
        c == if is_scalar_value(value) {
            Some(value as char)
        } else {
            None
        },
{
    char::from_u32(value)
}

/// Decodes UTF-16 code units into text.
pub fn decode_utf16(units: &[u16]) -> (outcome: Result<String, MarshalError>)
    ensures
        match outcome {
            Ok(text) => utf16_text(units@) == Some(text@),
            Err(error) => error == MarshalError::DecodeError && utf16_text(units@) is None,
        },
{
    let mut chars: Vec<char> = Vec::new();
    let mut i: usize = 0;
    proof {
        assert(units@.skip(0) =~= units@);
        assert(forall|t: Seq<char>| chars@ + t =~= t);
    }
    while i < units.len()
        invariant
            i <= units.len(),
            utf16_text(units@) == after(chars@, utf16_text(units@.skip(i as int))),
        decreases units.len() - i,
    {
        let unit: u16 = units[i];
        let ghost rest = units@.skip(i as int);
        let ghost before = chars@;
        assert(rest[0] == unit);
        if unit < 0xD800 || unit > 0xDFFF {
            let c: char = char_of_scalar(unit as u32).unwrap();
            chars.push(c);
            assert(rest.skip(1) =~= units@.skip(i + 1));
            assert(forall|t: Seq<char>| before + (seq![c] + t) =~= before.push(c) + t);
            i += 1;
        } else if unit <= 0xDBFF && i + 1 < units.len() && 0xDC00 <= units[i + 1] && units[i + 1]
            <= 0xDFFF {
            let low: u16 = units[i + 1];
            assert(rest[1] == low);
            let scalar: u32 = 0x1_0000u32 + (unit - 0xD800) as u32 * 0x400u32 + (low - 0xDC00) as u32;
            assert(scalar == pair_scalar(unit, low));
            let c: char = char_of_scalar(scalar).unwrap();
            chars.push(c);
            assert(rest.skip(2) =~= units@.skip(i + 2));
            assert(forall|t: Seq<char>| before + (seq![c] + t) =~= before.push(c) + t);
            i += 2;
        } else {
            assert(utf16_text(rest) is None);
            return Err(MarshalError::DecodeError);
        }
    }
    assert(units@.skip(i as int) =~= Seq::<u16>::empty());
    assert(chars@ + Seq::<char>::empty() =~= chars@);
    Ok(string_of(chars.as_slice()))
}

/// What reading a text of `length` UTF-16 code units out of `bytes` gives.
pub open spec fn wide_string_outcome(bytes: Seq<u8>, length: nat, order: ByteOrder) -> Result<
    Seq<char>,
    MarshalError,
> {
    match array_outcome::<u16>(bytes, length, order) {
        Err(error) => Err(error),
        Ok(units) => match utf16_text(units) {
            Some(text) => Ok(text),
            None => Err(MarshalError::DecodeError),
        },
    }
}

/// Rebuilds the text that `bytes` hold as `length_in_units` UTF-16 code
/// units of two bytes each, stored in `order`.
pub fn read_wide_string(bytes: &[u8], length_in_units: usize, order: ByteOrder) -> (outcome: Result<
    String,
    MarshalError,
>)
    ensures
        match outcome {
            Ok(text) => wide_string_outcome(bytes@, length_in_units as nat, order) == Ok::<
                Seq<char>,
                MarshalError,
            >(text@),
            Err(error) => wide_string_outcome(bytes@, length_in_units as nat, order) == Err::<
                Seq<char>,
                MarshalError,
            >(error),
        },
{
    match read_scalar_array::<u16>(bytes, length_in_units, order) {
        Ok(units) => decode_utf16(units.as_slice()),
        Err(error) => Err(error),
    }
}

/// The requests that fetch one text each: text `i` has `lengths[i]` UTF-16
/// code units and starts at `pointers[i]`. The two arrays must be of one
/// length.
pub fn string_read_requests(lengths: &[u32], pointers: &[u64]) -> (outcome: Result<
    Vec<ReadRequest>,
    MarshalError,
>)
    ensures
        lengths@.len() != pointers@.len() ==> outcome == Err::<Vec<ReadRequest>, MarshalError>(
            MarshalError::LengthMismatch,
        ),
        lengths@.len() == pointers@.len() ==> (outcome matches Ok(requests) && requests@
            == Seq::new(
            lengths@.len(),
            |i: int| ReadRequest { address: pointers@[i], byte_count: (lengths@[i] * 2) as u64 },
        )),
{
    if lengths.len() != pointers.len() {
        return Err(MarshalError::LengthMismatch);
    }
    let mut requests: Vec<ReadRequest> = Vec::new();
    let mut i: usize = 0;
    while i < lengths.len()
        invariant
            lengths@.len() == pointers@.len(),
            i <= lengths.len(),
            requests@ == Seq::new(
                i as nat,
                |k: int| ReadRequest { address: pointers@[k], byte_count: (lengths@[k] * 2) as u64 },
            ),
        decreases lengths.len() - i,
    {
        requests.push(ReadRequest { address: pointers[i], byte_count: lengths[i] as u64 * 2 });
        i += 1;
        assert(requests@ =~= Seq::new(
            i as nat,
            |k: int| ReadRequest { address: pointers@[k], byte_count: (lengths@[k] * 2) as u64 },
        ));
    }
    Ok(requests)
}

} // verus!
