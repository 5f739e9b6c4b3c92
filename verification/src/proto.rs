//! The wire format of the relay's messages: tagged fields, each a base-128
//! number, a fixed run of bytes or a run of bytes with its length in front.

use vstd::prelude::*;
use vstd::string::*;

verus! {

/// Why bytes could not be read as a message.
#[derive(Debug, Clone, Copy, PartialEq, Eq, Structural)]
pub enum DecodeError {
    /// The input ends inside a number.
    TruncatedVarint,
    /// A number runs to more than ten bytes or does not fit in 64 bits.
    VarintOverflow,
    /// A field's key does not fit in 32 bits.
    InvalidKey,
    /// A field has the number zero.
    InvalidTag,
    /// A field's wire type is unknown, or not the one its number calls for.
    InvalidWireType,
    /// A field's bytes run past the end of the input.
    BufferUnderflow,
}

impl DecodeError {
    /// The text that describes this failure.
    pub open spec fn message(self) -> Seq<char> {
        match self {
            DecodeError::TruncatedVarint => "truncated varint"@,
            DecodeError::VarintOverflow => "invalid varint"@,
            DecodeError::InvalidKey => "invalid key value"@,
            DecodeError::InvalidTag => "invalid tag value: 0"@,
            DecodeError::InvalidWireType => "invalid wire type"@,
            DecodeError::BufferUnderflow => "buffer underflow"@,
        }
    }

    /// Renders the failure as text.
    pub fn to_string(&self) -> (text: String)
        ensures
            text@ == self.message(),
    {
        match self {
            DecodeError::TruncatedVarint => String::from_str("truncated varint"),
            DecodeError::VarintOverflow => String::from_str("invalid varint"),
            DecodeError::InvalidKey => String::from_str("invalid key value"),
            DecodeError::InvalidTag => String::from_str("invalid tag value: 0"),
            DecodeError::InvalidWireType => String::from_str("invalid wire type"),
            DecodeError::BufferUnderflow => String::from_str("buffer underflow"),
        }
    }
}

/// 128 to the power of `n`: the weight of the base-128 digit at place `n`.
pub open spec fn pow128(n: nat) -> nat
    decreases n,
{
    if n == 0 {
        1
    } else {
        128 * pow128((n - 1) as nat)
    }
}

/// The reading of a number whose first `count` digits, which end before
/// `pos`, come to `acc`: its value and the position behind its last byte.
///
/// Each byte holds seven bits of the number, the low ones first, and says in
/// its top bit whether another byte follows.
pub open spec fn varint_from(bytes: Seq<u8>, pos: int, count: nat, acc: nat) -> Result<
    (u64, int),
    DecodeError,
>
    decreases 10 - count,
{
    if count >= 10 {
        Err(DecodeError::VarintOverflow)
    } else if pos < 0 || pos >= bytes.len() {
        Err(DecodeError::TruncatedVarint)
    } else {
        let byte = bytes[pos];
        let value = acc + (byte % 128) as nat * pow128(count);
        if byte >= 128 {
            varint_from(bytes, pos + 1, count + 1, value)
        } else if value > u64::MAX {
            Err(DecodeError::VarintOverflow)
        } else {
            Ok((value as u64, pos + 1))
        }
    }
}

/// The reading of the number that starts at `pos`.
pub open spec fn varint_at(bytes: Seq<u8>, pos: int) -> Result<(u64, int), DecodeError> {
    varint_from(bytes, pos, 0, 0)
}

/// The weights of the ten digits that a number can have.
pub proof fn lemma_pow128_values()
    ensures
        pow128(0) == 1,
        pow128(1) == 0x80,
        pow128(2) == 0x4000,
        pow128(3) == 0x20_0000,
        pow128(4) == 0x1000_0000,
        pow128(5) == 0x8_0000_0000,
        pow128(6) == 0x400_0000_0000,
        pow128(7) == 0x2_0000_0000_0000,
        pow128(8) == 0x100_0000_0000_0000,
        pow128(9) == 0x8000_0000_0000_0000,
        pow128(10) == 0x40_0000_0000_0000_0000,
{
    reveal_with_fuel(pow128, 12);
}

/// A number that can be read ends behind where it starts, and within the
/// input.
pub proof fn lemma_varint_advances(bytes: Seq<u8>, pos: int, count: nat, acc: nat)
    ensures
        varint_from(bytes, pos, count, acc) matches Ok((_, end)) ==> pos < end <= bytes.len(),
    decreases 10 - count,
{
    if count < 10 && 0 <= pos < bytes.len() && bytes[pos] >= 128 {
        lemma_varint_advances(
            bytes,
            pos + 1,
            count + 1,
            acc + (bytes[pos] % 128) as nat * pow128(count),
        );
    }
}

/// Reads the number that starts at `pos`: its value and the position behind
/// its last byte.
pub fn read_varint(bytes: &[u8], pos: usize) -> (r: Result<(u64, usize), DecodeError>)
    ensures
        match varint_at(bytes@, pos as int) {
            Ok((value, end)) => r == Ok::<(u64, usize), DecodeError>((value, end as usize))
                && pos < end <= bytes.len(),
            Err(err) => r == Err::<(u64, usize), DecodeError>(err),
        },
{
    let mut acc: u64 = 0;
    let mut weight: u64 = 1;
    let mut count: usize = 0;
    let mut at: usize = pos;
    proof {
        lemma_pow128_values();
        lemma_varint_advances(bytes@, pos as int, 0, 0);
    }
    while count < 10
        invariant
            count <= 10,
            at == pos + count,
            count < 10 ==> weight == pow128(count as nat),
            count < 10 ==> acc < weight,
            varint_at(bytes@, pos as int) == varint_from(
                bytes@,
                at as int,
                count as nat,
                acc as nat,
            ),
        decreases 10 - count,
    {
        if at >= bytes.len() {
            return Err(DecodeError::TruncatedVarint);
        }
        let byte: u8 = bytes[at];
        let digit: u64 = (byte % 128) as u64;
        proof {
            lemma_pow128_values();
            assert(count == 0 || count == 1 || count == 2 || count == 3 || count == 4 || count
                == 5 || count == 6 || count == 7 || count == 8 || count == 9);
        }
        if count == 9 && digit > 1 {
            proof {
                let value = acc as nat + digit as nat * pow128(9);
                assert(value > u64::MAX) by (nonlinear_arith)
                    requires
                        value == acc as nat + digit as nat * pow128(9),
                        pow128(9) == 0x8000_0000_0000_0000,
                        digit > 1,
                ;
                if byte >= 128 {
                    assert(varint_from(bytes@, at + 1, 10, value) == Err::<
                        (u64, int),
                        DecodeError,
                    >(DecodeError::VarintOverflow));
                }
            }
            return Err(DecodeError::VarintOverflow);
        }
        assert(digit * weight <= 127 * weight && (count == 9 ==> digit * weight <= weight))
            by (nonlinear_arith)
            requires
                digit <= 127,
                count == 9 ==> digit <= 1,
        ;
        let value: u64 = acc + digit * weight;
        if byte < 128 {
            return Ok((value, at + 1));
        }
        acc = value;
        if count < 9 {
            weight = weight * 128;
        }
        count = count + 1;
        at = at + 1;
    }
    Err(DecodeError::VarintOverflow)
}

/// How the bytes of a field are laid out.
#[derive(Debug, Clone, Copy, PartialEq, Eq, Structural)]
pub enum WireType {
    /// A number in base 128.
    Varint,
    /// Eight bytes.
    Fixed64,
    /// A length in base 128, then as many bytes.
    LengthDelimited,
    /// Four bytes.
    Fixed32,
}

/// One field of a message: its number, its layout, and where its bytes lie
/// in the input.
#[derive(Debug, Clone, Copy, PartialEq, Eq, Structural)]
pub struct Field {
    /// The number that says which field of the message this is.
    pub number: u32,
    /// How the field's bytes are laid out.
    pub wire_type: WireType,
    /// The number itself for `Varint`, the length for `LengthDelimited`, and
    /// zero for the fixed layouts.
    pub value: u64,
    /// Where the field's own bytes start: behind the key, and behind the
    /// length where there is one.
    pub start: usize,
    /// Where the field ends and the next one starts.
    pub end: usize,
}

/// The reading of the field that starts at `pos`.
///
/// A field starts with its key, a number that holds the wire type in its low
/// three bits and the field's number above them.
pub open spec fn field_at(bytes: Seq<u8>, pos: int) -> Result<Field, DecodeError> {
    match varint_at(bytes, pos) {
        Err(err) => Err(err),
        Ok((key, start)) => {
            if key > u32::MAX {
                Err(DecodeError::InvalidKey)
            } else if key / 8 == 0 {
                Err(DecodeError::InvalidTag)
            } else if key % 8 == 0 {
                match varint_at(bytes, start) {
                    Err(err) => Err(err),
                    Ok((value, end)) => Ok(
                        Field {
                            number: (key / 8) as u32,
                            wire_type: WireType::Varint,
                            value,
                            start: start as usize,
                            end: end as usize,
                        },
                    ),
                }
            } else if key % 8 == 1 {
                if start + 8 > bytes.len() {
                    Err(DecodeError::BufferUnderflow)
                } else {
                    Ok(
                        Field {
                            number: (key / 8) as u32,
                            wire_type: WireType::Fixed64,
                            value: 0,
                            start: start as usize,
                            end: (start + 8) as usize,
                        },
                    )
                }
            } else if key % 8 == 2 {
                match varint_at(bytes, start) {
                    Err(err) => Err(err),
                    Ok((length, body)) => {
                        if body + length > bytes.len() {
                            Err(DecodeError::BufferUnderflow)
                        } else {
                            Ok(
                                Field {
                                    number: (key / 8) as u32,
                                    wire_type: WireType::LengthDelimited,
                                    value: length,
                                    start: body as usize,
                                    end: (body + length) as usize,
                                },
                            )
                        }
                    },
                }
            } else if key % 8 == 5 {
                if start + 4 > bytes.len() {
                    Err(DecodeError::BufferUnderflow)
                } else {
                    Ok(
                        Field {
                            number: (key / 8) as u32,
                            wire_type: WireType::Fixed32,
                            value: 0,
                            start: start as usize,
                            end: (start + 4) as usize,
                        },
                    )
                }
            } else {
                Err(DecodeError::InvalidWireType)
            }
        },
    }
}

/// Whether `field` lies in an input of `len` bytes behind `pos`.
pub open spec fn field_within(field: Field, pos: int, len: int) -> bool {
    &&& pos < field.start <= field.end <= len
    &&& field.number >= 1
    &&& field.wire_type == WireType::LengthDelimited ==> field.end - field.start == field.value
}

/// A field that can be read lies behind where it starts, and within the
/// input.
pub proof fn lemma_field_within(bytes: Seq<u8>, pos: int)
    requires
        bytes.len() <= usize::MAX,
    ensures
        field_at(bytes, pos) matches Ok(field) ==> field_within(field, pos, bytes.len() as int),
{
    lemma_varint_advances(bytes, pos, 0, 0);
    if let Ok((key, start)) = varint_at(bytes, pos) {
        lemma_varint_advances(bytes, start, 0, 0);
    }
}

/// Reads the field that starts at `pos`.
pub fn read_field(bytes: &[u8], pos: usize) -> (r: Result<Field, DecodeError>)
    ensures
        r == field_at(bytes@, pos as int),
        r matches Ok(field) ==> field_within(field, pos as int, bytes.len() as int),
{
    proof {
        lemma_field_within(bytes@, pos as int);
    }
    let (key, start) = read_varint(bytes, pos)?;
    if key > u32::MAX as u64 {
        return Err(DecodeError::InvalidKey);
    }
    let number: u32 = (key / 8) as u32;
    let layout: u64 = key % 8;
    if number == 0 {
        return Err(DecodeError::InvalidTag);
    }
    if layout == 0 {
        let (value, end) = read_varint(bytes, start)?;
        Ok(Field { number, wire_type: WireType::Varint, value, start, end })
    } else if layout == 1 {
        if bytes.len() - start < 8 {
            return Err(DecodeError::BufferUnderflow);
        }
        Ok(Field { number, wire_type: WireType::Fixed64, value: 0, start, end: start + 8 })
    } else if layout == 2 {
        let (length, body) = read_varint(bytes, start)?;
        if length > (bytes.len() - body) as u64 {
            return Err(DecodeError::BufferUnderflow);
        }
        Ok(
            Field {
                number,
                wire_type: WireType::LengthDelimited,
                value: length,
                start: body,
                end: body + length as usize,
            },
        )
    } else if layout == 5 {
        if bytes.len() - start < 4 {
            return Err(DecodeError::BufferUnderflow);
        }
        Ok(Field { number, wire_type: WireType::Fixed32, value: 0, start, end: start + 4 })
    } else {
        Err(DecodeError::InvalidWireType)
    }
}

/// The fields of the message that `bytes` holds from `pos` on, in their
/// order.
pub open spec fn fields_from(bytes: Seq<u8>, pos: int) -> Result<Seq<Field>, DecodeError>
    decreases bytes.len() - pos,
{
    if pos >= bytes.len() {
        Ok(Seq::empty())
    } else {
        match field_at(bytes, pos) {
            Err(err) => Err(err),
            Ok(field) => {
                if field.end <= pos || field.end > bytes.len() {
                    Err(DecodeError::BufferUnderflow)
                } else {
                    match fields_from(bytes, field.end as int) {
                        Err(err) => Err(err),
                        Ok(rest) => Ok(seq![field] + rest),
                    }
                }
            },
        }
    }
}

/// The fields of the message that `bytes` holds.
pub open spec fn fields_of(bytes: Seq<u8>) -> Result<Seq<Field>, DecodeError> {
    fields_from(bytes, 0)
}

/// Whether each of `fields` lies in an input of `len` bytes.
pub open spec fn fields_within(fields: Seq<Field>, len: int) -> bool {
    forall|i: int| 0 <= i < fields.len() ==> field_within(#[trigger] fields[i], -1, len)
}

/// The fields of a message lie within it.
pub proof fn lemma_fields_within(bytes: Seq<u8>, pos: int)
    requires
        bytes.len() <= usize::MAX,
        0 <= pos,
    ensures
        fields_from(bytes, pos) matches Ok(fields) ==> fields_within(fields, bytes.len() as int),
    decreases bytes.len() - pos,
{
    if pos < bytes.len() {
        lemma_field_within(bytes, pos);
        if let Ok(field) = field_at(bytes, pos) {
            lemma_fields_within(bytes, field.end as int);
        }
    }
}

/// Splits a message into its fields.
pub fn read_fields(bytes: &[u8]) -> (r: Result<Vec<Field>, DecodeError>)
    ensures
        match fields_of(bytes@) {
            Ok(fields) => r is Ok && r->Ok_0@ == fields && fields_within(
                fields,
                bytes.len() as int,
            ),
            Err(err) => r == Err::<Vec<Field>, DecodeError>(err),
        },
{
    let mut fields: Vec<Field> = Vec::new();
    let mut pos: usize = 0;
    let len: usize = bytes.len();
    proof {
        lemma_fields_within(bytes@, 0);
    }
    while pos < len
        invariant
            len == bytes.len(),
            pos <= len,
            match fields_from(bytes@, pos as int) {
                Ok(rest) => fields_of(bytes@) == Ok::<Seq<Field>, DecodeError>(fields@ + rest),
                Err(err) => fields_of(bytes@) == Err::<Seq<Field>, DecodeError>(err),
            },
        decreases len - pos,
    {
        let field = read_field(bytes, pos)?;
        proof {
            if let Ok(rest) = fields_from(bytes@, field.end as int) {
                assert(fields@.push(field) + rest =~= fields@ + (seq![field] + rest));
            }
        }
        fields.push(field);
        pos = field.end;
    }
    proof {
        assert(fields@ + Seq::<Field>::empty() =~= fields@);
    }
    Ok(fields)
}

/// The bytes of the number `value` in base 128, low digit first, each but
/// the last with its top bit set.
pub open spec fn varint_bytes(value: nat) -> Seq<u8>
    decreases value,
{
    if value < 128 {
        seq![value as u8]
    } else {
        seq![(value % 128 + 128) as u8] + varint_bytes(value / 128)
    }
}

/// The key of the field `number` with a layout's number in its low bits.
pub open spec fn key_of(number: u32, layout: nat) -> nat {
    number as nat * 8 + layout
}

/// The bytes of the field `number` that holds the number `value`.
pub open spec fn varint_field(number: u32, value: u64) -> Seq<u8> {
    varint_bytes(key_of(number, 0)) + varint_bytes(value as nat)
}

/// The bytes of the field `number` that holds the bytes `body`.
pub open spec fn bytes_field(number: u32, body: Seq<u8>) -> Seq<u8> {
    varint_bytes(key_of(number, 2)) + varint_bytes(body.len()) + body
}

/// Appends the number `value` in base 128.
pub fn write_varint(out: &mut Vec<u8>, value: u64)
    ensures
        final(out)@ == old(out)@ + varint_bytes(value as nat),
{
    let mut rest: u64 = value;
    let ghost before = out@;
    assert(out@ =~= before + Seq::<u8>::empty());
    while rest >= 128
        invariant
            before + varint_bytes(value as nat) == out@ + varint_bytes(rest as nat),
        decreases rest,
    {
        proof {
            assert(out@.push((rest % 128 + 128) as u8) + varint_bytes((rest / 128) as nat)
                =~= out@ + (seq![(rest % 128 + 128) as u8] + varint_bytes((rest / 128) as nat)));
        }
        out.push((rest % 128 + 128) as u8);
        rest = rest / 128;
    }
    proof {
        assert(out@.push(rest as u8) =~= out@ + varint_bytes(rest as nat));
    }
    out.push(rest as u8);
}

/// Appends the field `number` that holds the number `value`.
pub fn write_varint_field(out: &mut Vec<u8>, number: u32, value: u64)
    ensures
        final(out)@ == old(out)@ + varint_field(number, value),
{
    let ghost before = out@;
    write_varint(out, number as u64 * 8);
    write_varint(out, value);
    assert(out@ =~= before + varint_field(number, value));
}

/// Appends the field `number` that holds the bytes `body`.
pub fn write_bytes_field(out: &mut Vec<u8>, number: u32, body: &[u8])
    ensures
        final(out)@ == old(out)@ + bytes_field(number, body@),
{
    let ghost before = out@;
    write_varint(out, number as u64 * 8 + 2);
    write_varint(out, body.len() as u64);
    out.extend_from_slice(body);
    assert(out@ =~= before + bytes_field(number, body@));
}

/// A number that was written is read back: where the bytes of `value` stand
/// in `bytes` at `pos`, and `count` digits before them came to `acc`, the
/// reading is the sum and ends behind them.
pub proof fn lemma_varint_round_trip_from(
    bytes: Seq<u8>,
    pos: int,
    count: nat,
    acc: nat,
    value: nat,
)
    requires
        0 <= pos,
        pos + varint_bytes(value).len() <= bytes.len(),
        bytes.subrange(pos, pos + varint_bytes(value).len()) == varint_bytes(value),
        count <= 9,
        acc + value * pow128(count) <= u64::MAX,
    ensures
        varint_from(bytes, pos, count, acc) == Ok::<(u64, int), DecodeError>(
            ((acc + value * pow128(count)) as u64, pos + varint_bytes(value).len()),
        ),
    decreases value,
{
    let written = varint_bytes(value);
    let weight = pow128(count);
    assert(bytes.subrange(pos, pos + written.len())[0] == bytes[pos]);
    if value < 128 {
        assert(written[0] == value as u8);
        assert((value as u8 % 128) as nat == value);
    } else {
        let rest = value / 128;
        let digit = value % 128;
        let tail = varint_bytes(rest);
        assert(written =~= seq![(digit + 128) as u8] + tail);
        assert(written[0] == (digit + 128) as u8);
        assert(((digit + 128) as u8 % 128) as nat == digit);
        assert(bytes.subrange(pos + 1, pos + 1 + tail.len()) =~= tail) by {
            assert forall|i: int| 0 <= i < tail.len() implies bytes[pos + 1 + i] == tail[i] by {
                assert(bytes.subrange(pos, pos + written.len())[i + 1] == bytes[pos + 1 + i]);
                assert(written[i + 1] == tail[i]);
            }
        }
        lemma_pow128_values();
        assert(pow128(count + 1) == 128 * weight);
        assert(digit * weight + rest * (128 * weight) == value * weight) by (nonlinear_arith)
            requires
                value == 128 * rest + digit,
        ;
        assert(128 * weight <= rest * (128 * weight)) by (nonlinear_arith)
            requires
                rest >= 1,
                weight >= 0,
        ;
        assert(0 <= digit * weight) by (nonlinear_arith)
            requires
                digit >= 0,
                weight >= 0,
        ;
        assert(count <= 8);
        lemma_varint_round_trip_from(bytes, pos + 1, count + 1, acc + digit * weight, rest);
    }
}

/// A number that was written is read back.
pub proof fn lemma_varint_round_trip(bytes: Seq<u8>, pos: int, value: u64)
    requires
        0 <= pos,
        pos + varint_bytes(value as nat).len() <= bytes.len(),
        bytes.subrange(pos, pos + varint_bytes(value as nat).len()) == varint_bytes(value as nat),
    ensures
        varint_at(bytes, pos) == Ok::<(u64, int), DecodeError>(
            (value, pos + varint_bytes(value as nat).len()),
        ),
{
    lemma_pow128_values();
    assert(value as nat * pow128(0) == value);
    lemma_varint_round_trip_from(bytes, pos, 0, 0, value as nat);
}

/// A field of bytes that was written is read back: where the bytes of the
/// field stand in `bytes` at `pos`, the field read there has its number and
/// its body, and ends behind them.
pub proof fn lemma_bytes_field_round_trip(bytes: Seq<u8>, pos: int, number: u32, body: Seq<u8>)
    requires
        0 <= pos,
        1 <= number <= 0x1fff_ffff,
        bytes.len() <= usize::MAX,
        pos + bytes_field(number, body).len() <= bytes.len(),
        bytes.subrange(pos, pos + bytes_field(number, body).len()) == bytes_field(number, body),
    ensures
        field_at(bytes, pos) is Ok,
        field_at(bytes, pos)->Ok_0.number == number,
        field_at(bytes, pos)->Ok_0.wire_type == WireType::LengthDelimited,
        field_at(bytes, pos)->Ok_0.end == pos + bytes_field(number, body).len(),
        bytes.subrange(
            field_at(bytes, pos)->Ok_0.start as int,
            field_at(bytes, pos)->Ok_0.end as int,
        ) == body,
{
    let key = key_of(number, 2);
    let head = varint_bytes(key);
    let length = varint_bytes(body.len());
    let written = bytes_field(number, body);
    assert(written.len() == head.len() + length.len() + body.len());
    assert(bytes.subrange(pos, pos + head.len()) =~= head) by {
        assert forall|i: int| 0 <= i < head.len() implies bytes[pos + i] == head[i] by {
            assert(bytes.subrange(pos, pos + written.len())[i] == bytes[pos + i]);
        }
    }
    lemma_varint_round_trip(bytes, pos, key as u64);
    let start = pos + head.len();
    assert(bytes.subrange(start, start + length.len()) =~= length) by {
        assert forall|i: int| 0 <= i < length.len() implies bytes[start + i] == length[i] by {
            assert(bytes.subrange(pos, pos + written.len())[head.len() + i] == bytes[start + i]);
        }
    }
    lemma_varint_round_trip(bytes, start, body.len() as u64);
    let at = start + length.len();
    assert(bytes.subrange(at, at + body.len()) =~= body) by {
        assert forall|i: int| 0 <= i < body.len() implies bytes[at + i] == body[i] by {
            assert(bytes.subrange(pos, pos + written.len())[head.len() + length.len() + i]
                == bytes[at + i]);
        }
    }
}

/// A field that holds a number and was written is read back.
pub proof fn lemma_varint_field_round_trip(bytes: Seq<u8>, pos: int, number: u32, value: u64)
    requires
        0 <= pos,
        1 <= number <= 0x1fff_ffff,
        bytes.len() <= usize::MAX,
        pos + varint_field(number, value).len() <= bytes.len(),
        bytes.subrange(pos, pos + varint_field(number, value).len()) == varint_field(
            number,
            value,
        ),
    ensures
        field_at(bytes, pos) is Ok,
        field_at(bytes, pos)->Ok_0.number == number,
        field_at(bytes, pos)->Ok_0.wire_type == WireType::Varint,
        field_at(bytes, pos)->Ok_0.value == value,
        field_at(bytes, pos)->Ok_0.end == pos + varint_field(number, value).len(),
{
    let key = key_of(number, 0);
    let head = varint_bytes(key);
    let tail = varint_bytes(value as nat);
    let written = varint_field(number, value);
    assert(written.len() == head.len() + tail.len());
    assert(bytes.subrange(pos, pos + head.len()) =~= head) by {
        assert forall|i: int| 0 <= i < head.len() implies bytes[pos + i] == head[i] by {
            assert(bytes.subrange(pos, pos + written.len())[i] == bytes[pos + i]);
        }
    }
    lemma_varint_round_trip(bytes, pos, key as u64);
    let start = pos + head.len();
    assert(bytes.subrange(start, start + tail.len()) =~= tail) by {
        assert forall|i: int| 0 <= i < tail.len() implies bytes[start + i] == tail[i] by {
            assert(bytes.subrange(pos, pos + written.len())[head.len() + i] == bytes[start + i]);
        }
    }
    lemma_varint_round_trip(bytes, start, value);
}

/// The written form of a number has at least one byte.
pub proof fn lemma_varint_bytes_nonempty(value: nat)
    ensures
        varint_bytes(value).len() >= 1,
{
}

} // verus!
