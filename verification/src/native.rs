//! The native-type traits behind the fixed-width layouts. A type tag struct
//! (one per supported tag) ties together the element's Rust type, its logical
//! tag, its byte width and alignment, and its little-endian encoding, which is
//! what the value accessors read from the raw buffers.

use vstd::bytes::{
    lemma_auto_spec_u16_to_from_le_bytes, lemma_auto_spec_u32_to_from_le_bytes,
    lemma_auto_spec_u64_to_from_le_bytes, spec_u16_from_le_bytes, spec_u16_to_le_bytes,
    spec_u32_from_le_bytes, spec_u32_to_le_bytes, spec_u64_from_le_bytes, spec_u64_to_le_bytes,
    u16_from_le_bytes, u16_to_le_bytes, u32_from_le_bytes, u32_to_le_bytes, u64_from_le_bytes,
    u64_to_le_bytes,
};
use vstd::prelude::*;

use crate::buffer::Buffer;
use crate::datatypes::{DataType, DateUnit, TimeUnit};

verus! {

/// A fixed-width element type: its logical tag and the alignment its values
/// buffer must satisfy. Booleans are bit-packed, so their alignment is one
/// byte; every numeric type aligns to its own width.
pub trait ArrowPrimitiveType {
    type Native: Copy;

    /// The logical type tag this native type stands for.
    spec fn data_type_spec() -> DataType;

    /// The buffer alignment, in bytes, this element type needs.
    spec fn align_spec() -> nat;

    fn get_data_type() -> (t: DataType)
        ensures
            t == Self::data_type_spec(),
    ;

    fn alignment() -> (a: usize)
        ensures
            a == Self::align_spec(),
            0 < a,
    ;
}

/// A fixed-width numeric element type: one value per `width_spec()` bytes,
/// encoded little-endian. Booleans are excluded; they pack eight to a byte.
pub trait ArrowNumericType: ArrowPrimitiveType {
    /// The element width in bytes. Equals the alignment.
    spec fn width_spec() -> nat;

    /// The value that `width_spec()` little-endian bytes encode.
    spec fn decode_spec(bytes: Seq<u8>) -> Self::Native;

    /// The little-endian encoding of a value.
    spec fn encode_spec(v: Self::Native) -> Seq<u8>;

    /// The value as a mathematical integer.
    spec fn as_int(v: Self::Native) -> int;

    fn width() -> (w: usize)
        ensures
            w == Self::width_spec(),
            0 < w,
            Self::width_spec() == Self::align_spec(),
    ;

    fn read_at(buf: &Buffer, pos: usize) -> (v: Self::Native)
        requires
            pos + Self::width_spec() <= buf@.len(),
        ensures
            v == Self::decode_spec(buf@.subrange(pos as int, pos + Self::width_spec())),
    ;

    fn write_le(v: Self::Native, out: &mut Vec<u8>)
        ensures
            final(out)@ == old(out)@ + Self::encode_spec(v),
            Self::encode_spec(v).len() == Self::width_spec(),
            Self::decode_spec(Self::encode_spec(v)) == v,
    ;

    /// The encoding of a value is one element wide and decodes back to it.
    proof fn encode_properties(v: Self::Native)
        ensures
            Self::encode_spec(v).len() == Self::width_spec(),
            Self::decode_spec(Self::encode_spec(v)) == v,
    ;
}

/// A numeric type whose values carry an instant or a time of day: timestamps,
/// dates, and times, decoded by the calendar accessors.
pub trait ArrowTemporalType: ArrowNumericType {
    fn to_i64(v: Self::Native) -> (r: i64)
        ensures
            r as int == Self::as_int(v),
    ;
}

pub(crate) fn read_bytes(buf: &Buffer, pos: usize, n: usize) -> (v: Vec<u8>)
    requires
        pos + n <= buf@.len(),
    ensures
        v@ == buf@.subrange(pos as int, pos as int + n),
{
    let buf_len = buf.len();
    proof {
        assert(pos + n <= buf_len);
    }
    let mut v: Vec<u8> = Vec::new();
    let mut i: usize = 0;
    while i < n
        invariant
            i <= n,
            v@.len() == i as int,
            forall|j: int| 0 <= j < i ==> v@[j] == buf@[pos + j],
        decreases n - i,
    {
        v.push(buf.byte(pos + i));
        i = i + 1;
    }
    proof {
        assert(v@ =~= buf@.subrange(pos as int, pos as int + n));
    }
    v
}

fn read_u16_at(buf: &Buffer, pos: usize) -> (v: u16)
    requires
        pos + 2 <= buf@.len(),
    ensures
        v == spec_u16_from_le_bytes(buf@.subrange(pos as int, pos as int + 2)),
{
    let bytes = read_bytes(buf, pos, 2);
    u16_from_le_bytes(bytes.as_slice())
}

pub(crate) fn read_u32_at(buf: &Buffer, pos: usize) -> (v: u32)
    requires
        pos + 4 <= buf@.len(),
    ensures
        v == spec_u32_from_le_bytes(buf@.subrange(pos as int, pos as int + 4)),
{
    let bytes = read_bytes(buf, pos, 4);
    u32_from_le_bytes(bytes.as_slice())
}

fn read_u64_at(buf: &Buffer, pos: usize) -> (v: u64)
    requires
        pos + 8 <= buf@.len(),
    ensures
        v == spec_u64_from_le_bytes(buf@.subrange(pos as int, pos as int + 8)),
{
    let bytes = read_bytes(buf, pos, 8);
    u64_from_le_bytes(bytes.as_slice())
}

fn write_u16_le(v: u16, out: &mut Vec<u8>)
    ensures
        final(out)@ == old(out)@ + spec_u16_to_le_bytes(v),
{
    let mut bytes = u16_to_le_bytes(v);
    out.append(&mut bytes);
}

pub(crate) fn write_u32_le(v: u32, out: &mut Vec<u8>)
    ensures
        final(out)@ == old(out)@ + spec_u32_to_le_bytes(v),
{
    let mut bytes = u32_to_le_bytes(v);
    out.append(&mut bytes);
}

fn write_u64_le(v: u64, out: &mut Vec<u8>)
    ensures
        final(out)@ == old(out)@ + spec_u64_to_le_bytes(v),
{
    let mut bytes = u64_to_le_bytes(v);
    out.append(&mut bytes);
}

#[derive(Debug)]
pub struct BooleanType;

#[derive(Debug)]
pub struct Int8Type;

#[derive(Debug)]
pub struct Int16Type;

#[derive(Debug)]
pub struct Int32Type;

#[derive(Debug)]
pub struct Int64Type;

#[derive(Debug)]
pub struct UInt8Type;

#[derive(Debug)]
pub struct UInt16Type;

#[derive(Debug)]
pub struct UInt32Type;

#[derive(Debug)]
pub struct UInt64Type;

/// 32-bit floating-point elements, handled as their raw bit patterns: this
/// layer reads and writes layout, never floating-point arithmetic.
#[derive(Debug)]
pub struct Float32Type;

/// 64-bit floating-point elements, handled as their raw bit patterns.
#[derive(Debug)]
pub struct Float64Type;

#[derive(Debug)]
pub struct TimestampSecondType;

#[derive(Debug)]
pub struct TimestampMillisecondType;

#[derive(Debug)]
pub struct TimestampMicrosecondType;

#[derive(Debug)]
pub struct TimestampNanosecondType;

#[derive(Debug)]
pub struct Date32Type;

#[derive(Debug)]
pub struct Date64Type;

#[derive(Debug)]
pub struct Time32SecondType;

#[derive(Debug)]
pub struct Time32MillisecondType;

#[derive(Debug)]
pub struct Time64MicrosecondType;

#[derive(Debug)]
pub struct Time64NanosecondType;

impl ArrowPrimitiveType for BooleanType {
    type Native = bool;

    open spec fn data_type_spec() -> DataType {
        DataType::Boolean
    }

    open spec fn align_spec() -> nat {
        1
    }

    fn get_data_type() -> DataType {
        DataType::Boolean
    }

    fn alignment() -> usize {
        1
    }
}

impl ArrowPrimitiveType for UInt8Type {
    type Native = u8;

    open spec fn data_type_spec() -> DataType {
        DataType::UInt8
    }

    open spec fn align_spec() -> nat {
        1
    }

    fn get_data_type() -> DataType {
        DataType::UInt8
    }

    fn alignment() -> usize {
        1
    }
}

impl ArrowNumericType for UInt8Type {
    open spec fn width_spec() -> nat {
        1
    }

    open spec fn decode_spec(bytes: Seq<u8>) -> u8 {
        bytes[0]
    }

    open spec fn encode_spec(v: u8) -> Seq<u8> {
        seq![v]
    }

    open spec fn as_int(v: u8) -> int {
        v as int
    }

    fn width() -> usize {
        1
    }

    fn read_at(buf: &Buffer, pos: usize) -> (v: u8) {
        buf.byte(pos)
    }

    fn write_le(v: u8, out: &mut Vec<u8>) {
        out.push(v);
        proof {
            assert(final(out)@ =~= old(out)@ + seq![v]);
        }
    }

    proof fn encode_properties(v: u8) {
        assert(Self::encode_spec(v)[0] == v);
    }
}

impl ArrowPrimitiveType for Int8Type {
    type Native = i8;

    open spec fn data_type_spec() -> DataType {
        DataType::Int8
    }

    open spec fn align_spec() -> nat {
        1
    }

    fn get_data_type() -> DataType {
        DataType::Int8
    }

    fn alignment() -> usize {
        1
    }
}

impl ArrowNumericType for Int8Type {
    open spec fn width_spec() -> nat {
        1
    }

    open spec fn decode_spec(bytes: Seq<u8>) -> i8 {
        bytes[0] as i8
    }

    open spec fn encode_spec(v: i8) -> Seq<u8> {
        seq![v as u8]
    }

    open spec fn as_int(v: i8) -> int {
        v as int
    }

    fn width() -> usize {
        1
    }

    fn read_at(buf: &Buffer, pos: usize) -> (v: i8) {
        buf.byte(pos) as i8
    }

    fn write_le(v: i8, out: &mut Vec<u8>) {
        out.push(v as u8);
        proof {
            assert(final(out)@ =~= old(out)@ + seq![v as u8]);
            assert((v as u8) as i8 == v) by (bit_vector);
        }
    }

    proof fn encode_properties(v: i8) {
        assert((v as u8) as i8 == v) by (bit_vector);
    }
}

impl ArrowPrimitiveType for UInt16Type {
    type Native = u16;

    open spec fn data_type_spec() -> DataType {
        DataType::UInt16
    }

    open spec fn align_spec() -> nat {
        2
    }

    fn get_data_type() -> DataType {
        DataType::UInt16
    }

    fn alignment() -> usize {
        2
    }
}

impl ArrowNumericType for UInt16Type {
    open spec fn width_spec() -> nat {
        2
    }

    open spec fn decode_spec(bytes: Seq<u8>) -> u16 {
        spec_u16_from_le_bytes(bytes)
    }

    open spec fn encode_spec(v: u16) -> Seq<u8> {
        spec_u16_to_le_bytes(v)
    }

    open spec fn as_int(v: u16) -> int {
        v as int
    }

    fn width() -> usize {
        2
    }

    fn read_at(buf: &Buffer, pos: usize) -> (v: u16) {
        read_u16_at(buf, pos)
    }

    fn write_le(v: u16, out: &mut Vec<u8>) {
        write_u16_le(v, out);
        proof {
            lemma_auto_spec_u16_to_from_le_bytes();
        }
    }

    proof fn encode_properties(v: u16) {
        lemma_auto_spec_u16_to_from_le_bytes();
        assert(spec_u16_to_le_bytes(v).len() == 2);
        assert(spec_u16_from_le_bytes(spec_u16_to_le_bytes(v)) == v);
    }
}

impl ArrowPrimitiveType for Int16Type {
    type Native = i16;

    open spec fn data_type_spec() -> DataType {
        DataType::Int16
    }

    open spec fn align_spec() -> nat {
        2
    }

    fn get_data_type() -> DataType {
        DataType::Int16
    }

    fn alignment() -> usize {
        2
    }
}

impl ArrowNumericType for Int16Type {
    open spec fn width_spec() -> nat {
        2
    }

    open spec fn decode_spec(bytes: Seq<u8>) -> i16 {
        spec_u16_from_le_bytes(bytes) as i16
    }

    open spec fn encode_spec(v: i16) -> Seq<u8> {
        spec_u16_to_le_bytes(v as u16)
    }

    open spec fn as_int(v: i16) -> int {
        v as int
    }

    fn width() -> usize {
        2
    }

    fn read_at(buf: &Buffer, pos: usize) -> (v: i16) {
        read_u16_at(buf, pos) as i16
    }

    fn write_le(v: i16, out: &mut Vec<u8>) {
        write_u16_le(v as u16, out);
        proof {
            lemma_auto_spec_u16_to_from_le_bytes();
            assert((v as u16) as i16 == v) by (bit_vector);
        }
    }

    proof fn encode_properties(v: i16) {
        lemma_auto_spec_u16_to_from_le_bytes();
        assert(spec_u16_to_le_bytes(v as u16).len() == 2);
        assert(spec_u16_from_le_bytes(spec_u16_to_le_bytes(v as u16)) == v as u16);
        assert((v as u16) as i16 == v) by (bit_vector);
    }
}

impl ArrowPrimitiveType for UInt32Type {
    type Native = u32;

    open spec fn data_type_spec() -> DataType {
        DataType::UInt32
    }

    open spec fn align_spec() -> nat {
        4
    }

    fn get_data_type() -> DataType {
        DataType::UInt32
    }

    fn alignment() -> usize {
        4
    }
}

impl ArrowNumericType for UInt32Type {
    open spec fn width_spec() -> nat {
        4
    }

    open spec fn decode_spec(bytes: Seq<u8>) -> u32 {
        spec_u32_from_le_bytes(bytes)
    }

    open spec fn encode_spec(v: u32) -> Seq<u8> {
        spec_u32_to_le_bytes(v)
    }

    open spec fn as_int(v: u32) -> int {
        v as int
    }

    fn width() -> usize {
        4
    }

    fn read_at(buf: &Buffer, pos: usize) -> (v: u32) {
        read_u32_at(buf, pos)
    }

    fn write_le(v: u32, out: &mut Vec<u8>) {
        write_u32_le(v, out);
        proof {
            lemma_auto_spec_u32_to_from_le_bytes();
        }
    }

    proof fn encode_properties(v: u32) {
        lemma_auto_spec_u32_to_from_le_bytes();
        assert(spec_u32_to_le_bytes(v).len() == 4);
        assert(spec_u32_from_le_bytes(spec_u32_to_le_bytes(v)) == v);
    }
}

impl ArrowPrimitiveType for Int32Type {
    type Native = i32;

    open spec fn data_type_spec() -> DataType {
        DataType::Int32
    }

    open spec fn align_spec() -> nat {
        4
    }

    fn get_data_type() -> DataType {
        DataType::Int32
    }

    fn alignment() -> usize {
        4
    }
}

impl ArrowNumericType for Int32Type {
    open spec fn width_spec() -> nat {
        4
    }

    open spec fn decode_spec(bytes: Seq<u8>) -> i32 {
        spec_u32_from_le_bytes(bytes) as i32
    }

    open spec fn encode_spec(v: i32) -> Seq<u8> {
        spec_u32_to_le_bytes(v as u32)
    }

    open spec fn as_int(v: i32) -> int {
        v as int
    }

    fn width() -> usize {
        4
    }

    fn read_at(buf: &Buffer, pos: usize) -> (v: i32) {
        read_u32_at(buf, pos) as i32
    }

    fn write_le(v: i32, out: &mut Vec<u8>) {
        write_u32_le(v as u32, out);
        proof {
            lemma_auto_spec_u32_to_from_le_bytes();
            assert((v as u32) as i32 == v) by (bit_vector);
        }
    }

    proof fn encode_properties(v: i32) {
        lemma_auto_spec_u32_to_from_le_bytes();
        assert(spec_u32_to_le_bytes(v as u32).len() == 4);
        assert(spec_u32_from_le_bytes(spec_u32_to_le_bytes(v as u32)) == v as u32);
        assert((v as u32) as i32 == v) by (bit_vector);
    }
}

impl ArrowPrimitiveType for UInt64Type {
    type Native = u64;

    open spec fn data_type_spec() -> DataType {
        DataType::UInt64
    }

    open spec fn align_spec() -> nat {
        8
    }

    fn get_data_type() -> DataType {
        DataType::UInt64
    }

    fn alignment() -> usize {
        8
    }
}

impl ArrowNumericType for UInt64Type {
    open spec fn width_spec() -> nat {
        8
    }

    open spec fn decode_spec(bytes: Seq<u8>) -> u64 {
        spec_u64_from_le_bytes(bytes)
    }

    open spec fn encode_spec(v: u64) -> Seq<u8> {
        spec_u64_to_le_bytes(v)
    }

    open spec fn as_int(v: u64) -> int {
        v as int
    }

    fn width() -> usize {
        8
    }

    fn read_at(buf: &Buffer, pos: usize) -> (v: u64) {
        read_u64_at(buf, pos)
    }

    fn write_le(v: u64, out: &mut Vec<u8>) {
        write_u64_le(v, out);
        proof {
            lemma_auto_spec_u64_to_from_le_bytes();
        }
    }

    proof fn encode_properties(v: u64) {
        lemma_auto_spec_u64_to_from_le_bytes();
        assert(spec_u64_from_le_bytes(spec_u64_to_le_bytes(v)) == v);
    }
}

impl ArrowPrimitiveType for Int64Type {
    type Native = i64;

    open spec fn data_type_spec() -> DataType {
        DataType::Int64
    }

    open spec fn align_spec() -> nat {
        8
    }

    fn get_data_type() -> DataType {
        DataType::Int64
    }

    fn alignment() -> usize {
        8
    }
}

impl ArrowNumericType for Int64Type {
    open spec fn width_spec() -> nat {
        8
    }

    open spec fn decode_spec(bytes: Seq<u8>) -> i64 {
        spec_u64_from_le_bytes(bytes) as i64
    }

    open spec fn encode_spec(v: i64) -> Seq<u8> {
        spec_u64_to_le_bytes(v as u64)
    }

    open spec fn as_int(v: i64) -> int {
        v as int
    }

    fn width() -> usize {
        8
    }

    fn read_at(buf: &Buffer, pos: usize) -> (v: i64) {
        read_u64_at(buf, pos) as i64
    }

    fn write_le(v: i64, out: &mut Vec<u8>) {
        write_u64_le(v as u64, out);
        proof {
            lemma_auto_spec_u64_to_from_le_bytes();
            assert((v as u64) as i64 == v) by (bit_vector);
        }
    }

    proof fn encode_properties(v: i64) {
        lemma_auto_spec_u64_to_from_le_bytes();
        assert(spec_u64_from_le_bytes(spec_u64_to_le_bytes(v as u64)) == v as u64);
        assert((v as u64) as i64 == v) by (bit_vector);
    }
}

impl ArrowPrimitiveType for Float32Type {
    type Native = u32;

    open spec fn data_type_spec() -> DataType {
        DataType::Float32
    }

    open spec fn align_spec() -> nat {
        4
    }

    fn get_data_type() -> DataType {
        DataType::Float32
    }

    fn alignment() -> usize {
        4
    }
}

impl ArrowNumericType for Float32Type {
    open spec fn width_spec() -> nat {
        4
    }

    open spec fn decode_spec(bytes: Seq<u8>) -> u32 {
        spec_u32_from_le_bytes(bytes)
    }

    open spec fn encode_spec(v: u32) -> Seq<u8> {
        spec_u32_to_le_bytes(v)
    }

    open spec fn as_int(v: u32) -> int {
        v as int
    }

    fn width() -> usize {
        4
    }

    fn read_at(buf: &Buffer, pos: usize) -> (v: u32) {
        read_u32_at(buf, pos)
    }

    fn write_le(v: u32, out: &mut Vec<u8>) {
        write_u32_le(v, out);
        proof {
            lemma_auto_spec_u32_to_from_le_bytes();
        }
    }

    proof fn encode_properties(v: u32) {
        lemma_auto_spec_u32_to_from_le_bytes();
        assert(spec_u32_to_le_bytes(v).len() == 4);
        assert(spec_u32_from_le_bytes(spec_u32_to_le_bytes(v)) == v);
    }
}

impl ArrowPrimitiveType for Float64Type {
    type Native = u64;

    open spec fn data_type_spec() -> DataType {
        DataType::Float64
    }

    open spec fn align_spec() -> nat {
        8
    }

    fn get_data_type() -> DataType {
        DataType::Float64
    }

    fn alignment() -> usize {
        8
    }
}

impl ArrowNumericType for Float64Type {
    open spec fn width_spec() -> nat {
        8
    }

    open spec fn decode_spec(bytes: Seq<u8>) -> u64 {
        spec_u64_from_le_bytes(bytes)
    }

    open spec fn encode_spec(v: u64) -> Seq<u8> {
        spec_u64_to_le_bytes(v)
    }

    open spec fn as_int(v: u64) -> int {
        v as int
    }

    fn width() -> usize {
        8
    }

    fn read_at(buf: &Buffer, pos: usize) -> (v: u64) {
        read_u64_at(buf, pos)
    }

    fn write_le(v: u64, out: &mut Vec<u8>) {
        write_u64_le(v, out);
        proof {
            lemma_auto_spec_u64_to_from_le_bytes();
        }
    }

    proof fn encode_properties(v: u64) {
        lemma_auto_spec_u64_to_from_le_bytes();
        assert(spec_u64_from_le_bytes(spec_u64_to_le_bytes(v)) == v);
    }
}

impl ArrowPrimitiveType for TimestampSecondType {
    type Native = i64;

    open spec fn data_type_spec() -> DataType {
        DataType::Timestamp(TimeUnit::Second)
    }

    open spec fn align_spec() -> nat {
        8
    }

    fn get_data_type() -> DataType {
        DataType::Timestamp(TimeUnit::Second)
    }

    fn alignment() -> usize {
        8
    }
}

impl ArrowNumericType for TimestampSecondType {
    open spec fn width_spec() -> nat {
        8
    }

    open spec fn decode_spec(bytes: Seq<u8>) -> i64 {
        spec_u64_from_le_bytes(bytes) as i64
    }

    open spec fn encode_spec(v: i64) -> Seq<u8> {
        spec_u64_to_le_bytes(v as u64)
    }

    open spec fn as_int(v: i64) -> int {
        v as int
    }

    fn width() -> usize {
        8
    }

    fn read_at(buf: &Buffer, pos: usize) -> (v: i64) {
        read_u64_at(buf, pos) as i64
    }

    fn write_le(v: i64, out: &mut Vec<u8>) {
        write_u64_le(v as u64, out);
        proof {
            lemma_auto_spec_u64_to_from_le_bytes();
            assert((v as u64) as i64 == v) by (bit_vector);
        }
    }

    proof fn encode_properties(v: i64) {
        lemma_auto_spec_u64_to_from_le_bytes();
        assert(spec_u64_from_le_bytes(spec_u64_to_le_bytes(v as u64)) == v as u64);
        assert((v as u64) as i64 == v) by (bit_vector);
    }
}

impl ArrowTemporalType for TimestampSecondType {
    fn to_i64(v: i64) -> i64 {
        v
    }
}

impl ArrowPrimitiveType for TimestampMillisecondType {
    type Native = i64;

    open spec fn data_type_spec() -> DataType {
        DataType::Timestamp(TimeUnit::Millisecond)
    }

    open spec fn align_spec() -> nat {
        8
    }

    fn get_data_type() -> DataType {
        DataType::Timestamp(TimeUnit::Millisecond)
    }

    fn alignment() -> usize {
        8
    }
}

impl ArrowNumericType for TimestampMillisecondType {
    open spec fn width_spec() -> nat {
        8
    }

    open spec fn decode_spec(bytes: Seq<u8>) -> i64 {
        spec_u64_from_le_bytes(bytes) as i64
    }

    open spec fn encode_spec(v: i64) -> Seq<u8> {
        spec_u64_to_le_bytes(v as u64)
    }

    open spec fn as_int(v: i64) -> int {
        v as int
    }

    fn width() -> usize {
        8
    }

    fn read_at(buf: &Buffer, pos: usize) -> (v: i64) {
        read_u64_at(buf, pos) as i64
    }

    fn write_le(v: i64, out: &mut Vec<u8>) {
        write_u64_le(v as u64, out);
        proof {
            lemma_auto_spec_u64_to_from_le_bytes();
            assert((v as u64) as i64 == v) by (bit_vector);
        }
    }

    proof fn encode_properties(v: i64) {
        lemma_auto_spec_u64_to_from_le_bytes();
        assert(spec_u64_from_le_bytes(spec_u64_to_le_bytes(v as u64)) == v as u64);
        assert((v as u64) as i64 == v) by (bit_vector);
    }
}

impl ArrowTemporalType for TimestampMillisecondType {
    fn to_i64(v: i64) -> i64 {
        v
    }
}

impl ArrowPrimitiveType for TimestampMicrosecondType {
    type Native = i64;

    open spec fn data_type_spec() -> DataType {
        DataType::Timestamp(TimeUnit::Microsecond)
    }

    open spec fn align_spec() -> nat {
        8
    }

    fn get_data_type() -> DataType {
        DataType::Timestamp(TimeUnit::Microsecond)
    }

    fn alignment() -> usize {
        8
    }
}

impl ArrowNumericType for TimestampMicrosecondType {
    open spec fn width_spec() -> nat {
        8
    }

    open spec fn decode_spec(bytes: Seq<u8>) -> i64 {
        spec_u64_from_le_bytes(bytes) as i64
    }

    open spec fn encode_spec(v: i64) -> Seq<u8> {
        spec_u64_to_le_bytes(v as u64)
    }

    open spec fn as_int(v: i64) -> int {
        v as int
    }

    fn width() -> usize {
        8
    }

    fn read_at(buf: &Buffer, pos: usize) -> (v: i64) {
        read_u64_at(buf, pos) as i64
    }

    fn write_le(v: i64, out: &mut Vec<u8>) {
        write_u64_le(v as u64, out);
        proof {
            lemma_auto_spec_u64_to_from_le_bytes();
            assert((v as u64) as i64 == v) by (bit_vector);
        }
    }

    proof fn encode_properties(v: i64) {
        lemma_auto_spec_u64_to_from_le_bytes();
        assert(spec_u64_from_le_bytes(spec_u64_to_le_bytes(v as u64)) == v as u64);
        assert((v as u64) as i64 == v) by (bit_vector);
    }
}

impl ArrowTemporalType for TimestampMicrosecondType {
    fn to_i64(v: i64) -> i64 {
        v
    }
}

impl ArrowPrimitiveType for TimestampNanosecondType {
    type Native = i64;

    open spec fn data_type_spec() -> DataType {
        DataType::Timestamp(TimeUnit::Nanosecond)
    }

    open spec fn align_spec() -> nat {
        8
    }

    fn get_data_type() -> DataType {
        DataType::Timestamp(TimeUnit::Nanosecond)
    }

    fn alignment() -> usize {
        8
    }
}

impl ArrowNumericType for TimestampNanosecondType {
    open spec fn width_spec() -> nat {
        8
    }

    open spec fn decode_spec(bytes: Seq<u8>) -> i64 {
        spec_u64_from_le_bytes(bytes) as i64
    }

    open spec fn encode_spec(v: i64) -> Seq<u8> {
        spec_u64_to_le_bytes(v as u64)
    }

    open spec fn as_int(v: i64) -> int {
        v as int
    }

    fn width() -> usize {
        8
    }

    fn read_at(buf: &Buffer, pos: usize) -> (v: i64) {
        read_u64_at(buf, pos) as i64
    }

    fn write_le(v: i64, out: &mut Vec<u8>) {
        write_u64_le(v as u64, out);
        proof {
            lemma_auto_spec_u64_to_from_le_bytes();
            assert((v as u64) as i64 == v) by (bit_vector);
        }
    }

    proof fn encode_properties(v: i64) {
        lemma_auto_spec_u64_to_from_le_bytes();
        assert(spec_u64_from_le_bytes(spec_u64_to_le_bytes(v as u64)) == v as u64);
        assert((v as u64) as i64 == v) by (bit_vector);
    }
}

impl ArrowTemporalType for TimestampNanosecondType {
    fn to_i64(v: i64) -> i64 {
        v
    }
}

impl ArrowPrimitiveType for Date64Type {
    type Native = i64;

    open spec fn data_type_spec() -> DataType {
        DataType::Date64(DateUnit::Millisecond)
    }

    open spec fn align_spec() -> nat {
        8
    }

    fn get_data_type() -> DataType {
        DataType::Date64(DateUnit::Millisecond)
    }

    fn alignment() -> usize {
        8
    }
}

impl ArrowNumericType for Date64Type {
    open spec fn width_spec() -> nat {
        8
    }

    open spec fn decode_spec(bytes: Seq<u8>) -> i64 {
        spec_u64_from_le_bytes(bytes) as i64
    }

    open spec fn encode_spec(v: i64) -> Seq<u8> {
        spec_u64_to_le_bytes(v as u64)
    }

    open spec fn as_int(v: i64) -> int {
        v as int
    }

    fn width() -> usize {
        8
    }

    fn read_at(buf: &Buffer, pos: usize) -> (v: i64) {
        read_u64_at(buf, pos) as i64
    }

    fn write_le(v: i64, out: &mut Vec<u8>) {
        write_u64_le(v as u64, out);
        proof {
            lemma_auto_spec_u64_to_from_le_bytes();
            assert((v as u64) as i64 == v) by (bit_vector);
        }
    }

    proof fn encode_properties(v: i64) {
        lemma_auto_spec_u64_to_from_le_bytes();
        assert(spec_u64_from_le_bytes(spec_u64_to_le_bytes(v as u64)) == v as u64);
        assert((v as u64) as i64 == v) by (bit_vector);
    }
}

impl ArrowTemporalType for Date64Type {
    fn to_i64(v: i64) -> i64 {
        v
    }
}

impl ArrowPrimitiveType for Time64MicrosecondType {
    type Native = i64;

    open spec fn data_type_spec() -> DataType {
        DataType::Time64(TimeUnit::Microsecond)
    }

    open spec fn align_spec() -> nat {
        8
    }

    fn get_data_type() -> DataType {
        DataType::Time64(TimeUnit::Microsecond)
    }

    fn alignment() -> usize {
        8
    }
}

impl ArrowNumericType for Time64MicrosecondType {
    open spec fn width_spec() -> nat {
        8
    }

    open spec fn decode_spec(bytes: Seq<u8>) -> i64 {
        spec_u64_from_le_bytes(bytes) as i64
    }

    open spec fn encode_spec(v: i64) -> Seq<u8> {
        spec_u64_to_le_bytes(v as u64)
    }

    open spec fn as_int(v: i64) -> int {
        v as int
    }

    fn width() -> usize {
        8
    }

    fn read_at(buf: &Buffer, pos: usize) -> (v: i64) {
        read_u64_at(buf, pos) as i64
    }

    fn write_le(v: i64, out: &mut Vec<u8>) {
        write_u64_le(v as u64, out);
        proof {
            lemma_auto_spec_u64_to_from_le_bytes();
            assert((v as u64) as i64 == v) by (bit_vector);
        }
    }

    proof fn encode_properties(v: i64) {
        lemma_auto_spec_u64_to_from_le_bytes();
        assert(spec_u64_from_le_bytes(spec_u64_to_le_bytes(v as u64)) == v as u64);
        assert((v as u64) as i64 == v) by (bit_vector);
    }
}

impl ArrowTemporalType for Time64MicrosecondType {
    fn to_i64(v: i64) -> i64 {
        v
    }
}

impl ArrowPrimitiveType for Time64NanosecondType {
    type Native = i64;

    open spec fn data_type_spec() -> DataType {
        DataType::Time64(TimeUnit::Nanosecond)
    }

    open spec fn align_spec() -> nat {
        8
    }

    fn get_data_type() -> DataType {
        DataType::Time64(TimeUnit::Nanosecond)
    }

    fn alignment() -> usize {
        8
    }
}

impl ArrowNumericType for Time64NanosecondType {
    open spec fn width_spec() -> nat {
        8
    }

    open spec fn decode_spec(bytes: Seq<u8>) -> i64 {
        spec_u64_from_le_bytes(bytes) as i64
    }

    open spec fn encode_spec(v: i64) -> Seq<u8> {
        spec_u64_to_le_bytes(v as u64)
    }

    open spec fn as_int(v: i64) -> int {
        v as int
    }

    fn width() -> usize {
        8
    }

    fn read_at(buf: &Buffer, pos: usize) -> (v: i64) {
        read_u64_at(buf, pos) as i64
    }

    fn write_le(v: i64, out: &mut Vec<u8>) {
        write_u64_le(v as u64, out);
        proof {
            lemma_auto_spec_u64_to_from_le_bytes();
            assert((v as u64) as i64 == v) by (bit_vector);
        }
    }

    proof fn encode_properties(v: i64) {
        lemma_auto_spec_u64_to_from_le_bytes();
        assert(spec_u64_from_le_bytes(spec_u64_to_le_bytes(v as u64)) == v as u64);
        assert((v as u64) as i64 == v) by (bit_vector);
    }
}

impl ArrowTemporalType for Time64NanosecondType {
    fn to_i64(v: i64) -> i64 {
        v
    }
}

impl ArrowPrimitiveType for Date32Type {
    type Native = i32;

    open spec fn data_type_spec() -> DataType {
        DataType::Date32(DateUnit::Day)
    }

    open spec fn align_spec() -> nat {
        4
    }

    fn get_data_type() -> DataType {
        DataType::Date32(DateUnit::Day)
    }

    fn alignment() -> usize {
        4
    }
}

impl ArrowNumericType for Date32Type {
    open spec fn width_spec() -> nat {
        4
    }

    open spec fn decode_spec(bytes: Seq<u8>) -> i32 {
        spec_u32_from_le_bytes(bytes) as i32
    }

    open spec fn encode_spec(v: i32) -> Seq<u8> {
        spec_u32_to_le_bytes(v as u32)
    }

    open spec fn as_int(v: i32) -> int {
        v as int
    }

    fn width() -> usize {
        4
    }

    fn read_at(buf: &Buffer, pos: usize) -> (v: i32) {
        read_u32_at(buf, pos) as i32
    }

    fn write_le(v: i32, out: &mut Vec<u8>) {
        write_u32_le(v as u32, out);
        proof {
            lemma_auto_spec_u32_to_from_le_bytes();
            assert((v as u32) as i32 == v) by (bit_vector);
        }
    }

    proof fn encode_properties(v: i32) {
        lemma_auto_spec_u32_to_from_le_bytes();
        assert(spec_u32_to_le_bytes(v as u32).len() == 4);
        assert(spec_u32_from_le_bytes(spec_u32_to_le_bytes(v as u32)) == v as u32);
        assert((v as u32) as i32 == v) by (bit_vector);
    }
}

impl ArrowTemporalType for Date32Type {
    fn to_i64(v: i32) -> i64 {
        v as i64
    }
}

impl ArrowPrimitiveType for Time32SecondType {
    type Native = i32;

    open spec fn data_type_spec() -> DataType {
        DataType::Time32(TimeUnit::Second)
    }

    open spec fn align_spec() -> nat {
        4
    }

    fn get_data_type() -> DataType {
        DataType::Time32(TimeUnit::Second)
    }

    fn alignment() -> usize {
        4
    }
}

impl ArrowNumericType for Time32SecondType {
    open spec fn width_spec() -> nat {
        4
    }

    open spec fn decode_spec(bytes: Seq<u8>) -> i32 {
        spec_u32_from_le_bytes(bytes) as i32
    }

    open spec fn encode_spec(v: i32) -> Seq<u8> {
        spec_u32_to_le_bytes(v as u32)
    }

    open spec fn as_int(v: i32) -> int {
        v as int
    }

    fn width() -> usize {
        4
    }

    fn read_at(buf: &Buffer, pos: usize) -> (v: i32) {
        read_u32_at(buf, pos) as i32
    }

    fn write_le(v: i32, out: &mut Vec<u8>) {
        write_u32_le(v as u32, out);
        proof {
            lemma_auto_spec_u32_to_from_le_bytes();
            assert((v as u32) as i32 == v) by (bit_vector);
        }
    }

    proof fn encode_properties(v: i32) {
        lemma_auto_spec_u32_to_from_le_bytes();
        assert(spec_u32_to_le_bytes(v as u32).len() == 4);
        assert(spec_u32_from_le_bytes(spec_u32_to_le_bytes(v as u32)) == v as u32);
        assert((v as u32) as i32 == v) by (bit_vector);
    }
}

impl ArrowTemporalType for Time32SecondType {
    fn to_i64(v: i32) -> i64 {
        v as i64
    }
}

impl ArrowPrimitiveType for Time32MillisecondType {
    type Native = i32;

    open spec fn data_type_spec() -> DataType {
        DataType::Time32(TimeUnit::Millisecond)
    }

    open spec fn align_spec() -> nat {
        4
    }

    fn get_data_type() -> DataType {
        DataType::Time32(TimeUnit::Millisecond)
    }

    fn alignment() -> usize {
        4
    }
}

impl ArrowNumericType for Time32MillisecondType {
    open spec fn width_spec() -> nat {
        4
    }

    open spec fn decode_spec(bytes: Seq<u8>) -> i32 {
        spec_u32_from_le_bytes(bytes) as i32
    }

    open spec fn encode_spec(v: i32) -> Seq<u8> {
        spec_u32_to_le_bytes(v as u32)
    }

    open spec fn as_int(v: i32) -> int {
        v as int
    }

    fn width() -> usize {
        4
    }

    fn read_at(buf: &Buffer, pos: usize) -> (v: i32) {
        read_u32_at(buf, pos) as i32
    }

    fn write_le(v: i32, out: &mut Vec<u8>) {
        write_u32_le(v as u32, out);
        proof {
            lemma_auto_spec_u32_to_from_le_bytes();
            assert((v as u32) as i32 == v) by (bit_vector);
        }
    }

    proof fn encode_properties(v: i32) {
        lemma_auto_spec_u32_to_from_le_bytes();
        assert(spec_u32_to_le_bytes(v as u32).len() == 4);
        assert(spec_u32_from_le_bytes(spec_u32_to_le_bytes(v as u32)) == v as u32);
        assert((v as u32) as i32 == v) by (bit_vector);
    }
}

impl ArrowTemporalType for Time32MillisecondType {
    fn to_i64(v: i32) -> i64 {
        v as i64
    }
}

} // verus!
