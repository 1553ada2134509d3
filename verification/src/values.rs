//! Plain values that describe what flows through a media pipeline: times,
//! rates, segments, seeks, streams and samples.
//!
//! Times are nanoseconds; `None` stands for an unset time. Objects whose
//! content does not matter to any decision (buffers, caps, samples) are held
//! by a handle.
use vstd::prelude::*;

verus! {

/// One second in nanoseconds.
pub const SECOND: u64 = 1_000_000_000;

/// The format number of values measured in time.
pub const FORMAT_TIME: u32 = 3;

/// The seek flag that asks for a flush of the pipeline.
pub const SEEK_FLAG_FLUSH: u32 = 1;

/// The seek flag that asks for an exact position.
pub const SEEK_FLAG_ACCURATE: u32 = 2;

/// Bits of a stream type.
pub const STREAM_TYPE_UNKNOWN: u32 = 1;

pub const STREAM_TYPE_AUDIO: u32 = 2;

pub const STREAM_TYPE_VIDEO: u32 = 4;

pub const STREAM_TYPE_TEXT: u32 = 16;

/// The bits of `0.0`, of `1.0` and of infinity in double precision, and the
/// sign bit.
pub const RATE_ZERO: u64 = 0;

pub const RATE_ONE: u64 = 0x3ff0_0000_0000_0000;

pub const RATE_INFINITY: u64 = 0x7ff0_0000_0000_0000;

pub const RATE_SIGN: u64 = 0x8000_0000_0000_0000;

/// `-1.0`: `RATE_ONE` with the sign bit set.
pub const RATE_MINUS_ONE: u64 = 0xbff0_0000_0000_0000;

/// A playback rate, held as the bits of an IEEE 754 double.
#[derive(Clone, Copy, Debug, PartialEq, Eq, Structural)]
pub struct Rate {
    pub bits: u64,
}

impl Rate {
    /// The rate is a number above zero.
    pub open spec fn positive(self) -> bool {
        RATE_ZERO < self.bits <= RATE_INFINITY
    }

    /// The rate is a number below zero.
    pub open spec fn negative(self) -> bool {
        RATE_SIGN < self.bits <= RATE_SIGN + RATE_INFINITY
    }

    /// The rate is `0.0` or `-0.0`.
    pub open spec fn zero(self) -> bool {
        self.bits == RATE_ZERO || self.bits == RATE_SIGN
    }

    /// The rate is `1.0` or `-1.0`.
    pub open spec fn unit(self) -> bool {
        self.bits == RATE_ONE || self.bits == RATE_MINUS_ONE
    }

    /// Floating-point equality: not-a-number differs from everything, and the
    /// two zeroes are the same.
    pub open spec fn same(self, other: Rate) -> bool {
        ||| self.zero() && other.zero()
        ||| self.bits == other.bits && (self.positive() || self.negative())
    }

    pub fn is_positive(&self) -> (r: bool)
        ensures
            r == self.positive(),
    {
        self.bits > RATE_ZERO && self.bits <= RATE_INFINITY
    }

    pub fn is_negative(&self) -> (r: bool)
        ensures
            r == self.negative(),
    {
        self.bits > RATE_SIGN && self.bits - RATE_SIGN <= RATE_INFINITY
    }

    /// Whether the absolute value of the rate is one.
    pub fn is_unit(&self) -> (r: bool)
        ensures
            r == self.unit(),
    {
        self.bits == RATE_ONE || self.bits == RATE_MINUS_ONE
    }

    pub fn equals(&self, other: &Rate) -> (r: bool)
        ensures
            r == self.same(*other),
    {
        let both_zero = (self.bits == RATE_ZERO || self.bits == RATE_SIGN) && (other.bits
            == RATE_ZERO || other.bits == RATE_SIGN);
        both_zero || (self.bits == other.bits && (self.is_positive() || self.is_negative()))
    }
}

/// A span of a stream together with how it maps to running time.
#[derive(Clone, Copy, Debug, PartialEq, Eq, Structural)]
pub struct Segment {
    pub flags: u32,
    pub rate: Rate,
    pub applied_rate: Rate,
    pub format: u32,
    pub base: Option<u64>,
    pub offset: Option<u64>,
    pub start: Option<u64>,
    pub stop: Option<u64>,
    pub time: Option<u64>,
    pub position: Option<u64>,
    pub duration: Option<u64>,
}

impl Segment {
    /// The segment is measured in time.
    pub open spec fn timed(self) -> bool {
        self.format == FORMAT_TIME
    }

    /// Field by field equality, with rates compared as numbers.
    pub open spec fn same(self, other: Segment) -> bool {
        &&& self.flags == other.flags
        &&& self.rate.same(other.rate)
        &&& self.applied_rate.same(other.applied_rate)
        &&& self.format == other.format
        &&& self.base == other.base
        &&& self.offset == other.offset
        &&& self.start == other.start
        &&& self.stop == other.stop
        &&& self.time == other.time
        &&& self.position == other.position
        &&& self.duration == other.duration
    }

    pub fn is_time(&self) -> (r: bool)
        ensures
            r == self.timed(),
    {
        self.format == FORMAT_TIME
    }

    pub fn equals(&self, other: &Segment) -> (r: bool)
        ensures
            r == self.same(*other),
    {
        self.flags == other.flags && self.rate.equals(&other.rate) && self.applied_rate.equals(
            &other.applied_rate,
        ) && self.format == other.format && same_time(self.base, other.base) && same_time(
            self.offset,
            other.offset,
        ) && same_time(self.start, other.start) && same_time(self.stop, other.stop) && same_time(
            self.time,
            other.time,
        ) && same_time(self.position, other.position) && same_time(self.duration, other.duration)
    }
}

/// Equality of two optional times.
pub fn same_time(a: Option<u64>, b: Option<u64>) -> (r: bool)
    ensures
        r == (a == b),
{
    match (a, b) {
        (None, None) => true,
        (Some(x), Some(y)) => x == y,
        _ => false,
    }
}

/// Equality of two optional strings, by their characters.
pub open spec fn same_text(a: Option<String>, b: Option<String>) -> bool {
    match (a, b) {
        (None, None) => true,
        (Some(x), Some(y)) => x@ == y@,
        _ => false,
    }
}

pub fn same_string(a: &Option<String>, b: &Option<String>) -> (r: bool)
    ensures
        r == same_text(*a, *b),
{
    match (a, b) {
        (None, None) => true,
        (Some(x), Some(y)) => *x == *y,
        _ => false,
    }
}

/// How a bound of a seek is to be read.
#[derive(Clone, Copy, Debug, PartialEq, Eq, Structural)]
pub enum SeekType {
    /// The bound stays as it is.
    Unchanged,
    /// The bound becomes the given position.
    Absolute,
    /// The position counts back from the end.
    FromEnd,
}

/// A position in some format.
#[derive(Clone, Copy, Debug, PartialEq, Eq, Structural)]
pub struct Position {
    pub format: u32,
    pub value: Option<u64>,
}

/// What a seek asks for.
#[derive(Clone, Copy, Debug, PartialEq, Eq, Structural)]
pub struct Seek {
    pub rate: Rate,
    pub flags: u32,
    pub start_type: SeekType,
    pub start: Position,
    pub stop_type: SeekType,
    pub stop: Position,
}

impl Seek {
    /// The seek asks the pipeline to flush.
    pub open spec fn flushing(self) -> bool {
        self.flags & SEEK_FLAG_FLUSH == SEEK_FLAG_FLUSH
    }

    /// Field by field equality, with the rate compared as a number.
    pub open spec fn same(self, other: Seek) -> bool {
        &&& self.rate.same(other.rate)
        &&& self.flags == other.flags
        &&& self.start_type == other.start_type
        &&& self.start == other.start
        &&& self.stop_type == other.stop_type
        &&& self.stop == other.stop
    }

    pub fn equals(&self, other: &Seek) -> (r: bool)
        ensures
            r == self.same(*other),
    {
        self.rate.equals(&other.rate) && self.flags == other.flags && self.start_type
            == other.start_type && self.start == other.start && self.stop_type == other.stop_type
            && self.stop == other.stop
    }

    pub fn is_flushing(&self) -> (r: bool)
        ensures
            r == self.flushing(),
    {
        self.flags & SEEK_FLAG_FLUSH == SEEK_FLAG_FLUSH
    }
}

/// A seek together with the sequence number that ties its answers to it.
#[derive(Clone, Copy, Debug, PartialEq, Eq, Structural)]
pub struct SeekEvent {
    pub seqnum: u32,
    pub seek: Seek,
}

/// Why data flow stopped.
#[derive(Clone, Copy, Debug, PartialEq, Eq, Structural)]
pub enum FlowError {
    Flushing,
    Eos,
    NotNegotiated,
    Error,
}

/// A frame rate. The denominator is above zero.
#[derive(Clone, Copy, Debug, PartialEq, Eq, Structural)]
pub struct Fraction {
    pub numer: i32,
    pub denom: i32,
}

/// A buffer: its handle and its timing.
#[derive(Clone, Copy, Debug, PartialEq, Eq, Structural)]
pub struct Buffer {
    pub handle: u64,
    pub pts: Option<u64>,
    pub duration: Option<u64>,
}

/// A sample pulled out of a pipeline.
#[derive(Clone, Copy, Debug, PartialEq, Eq, Structural)]
pub struct Sample {
    pub handle: u64,
    pub buffer: Option<Buffer>,
    pub buffer_list: Option<u64>,
    pub caps: Option<u64>,
    pub framerate: Option<Fraction>,
    pub segment: Option<Segment>,
}

/// A stream that a pipeline offers.
#[derive(Debug)]
pub struct Stream {
    pub id: Option<String>,
    pub stream_type: u32,
}

impl Clone for Stream {
    fn clone(&self) -> (r: Self)
        ensures
            r == *self,
    {
        let id = match &self.id {
            Some(id) => Some(id.clone()),
            None => None,
        };
        Stream { id, stream_type: self.stream_type }
    }
}

/// A copy of an optional string.
pub fn copy_string(s: &Option<String>) -> (r: Option<String>)
    ensures
        r == *s,
{
    match s {
        Some(s) => Some(s.clone()),
        None => None,
    }
}

/// A seek flushes exactly where the lowest bit of its flags is set.
pub proof fn law_flush_is_the_lowest_flag(seek: Seek, r: bool)
    requires
        call_ensures(Seek::is_flushing, (&seek,), r),
    ensures
        r <==> seek.flags % 2 == 1,
        seek.flushing() <==> seek.flags % 2 == 1,
{
    let flags = seek.flags;
    assert(flags & 1 == 1u32 <==> flags % 2 == 1u32) by (bit_vector);
}

/// Changing the sign of a rate turns its direction round: of the numbers above
/// and below zero, one is what the other is with the sign bit set.
pub proof fn law_sign_turns_the_direction_round(
    rate: Rate,
    turned: Rate,
    positive: bool,
    negative: bool,
    turned_positive: bool,
    turned_negative: bool,
)
    requires
        rate.bits < 0x8000_0000_0000_0000,
        turned.bits == rate.bits + 0x8000_0000_0000_0000,
        call_ensures(Rate::is_positive, (&rate,), positive),
        call_ensures(Rate::is_negative, (&rate,), negative),
        call_ensures(Rate::is_positive, (&turned,), turned_positive),
        call_ensures(Rate::is_negative, (&turned,), turned_negative),
    ensures
        positive == turned_negative,
        !negative && !turned_positive,
        positive <==> 0 < rate.bits <= 0x7ff0_0000_0000_0000,
{
}

/// Rates compare like numbers: either way round alike; a number equals itself, and
/// what is no number nothing; only the two zeroes differ in their bits.
pub proof fn law_rates_compare_like_numbers(a: Rate, b: Rate, r: bool, back: bool, own: bool,
    unit: bool)
    requires
        call_ensures(Rate::equals, (&a, &b), r),
        call_ensures(Rate::equals, (&b, &a), back),
        call_ensures(Rate::equals, (&a, &a), own),
        call_ensures(Rate::is_unit, (&a,), unit),
    ensures
        r == back,
        r && a.bits != b.bits ==> a.bits % 0x8000_0000_0000_0000 == 0
            && b.bits % 0x8000_0000_0000_0000 == 0,
        a.bits % 0x8000_0000_0000_0000 == 0 && b.bits % 0x8000_0000_0000_0000 == 0 ==> r,
        own <==> a.bits % 0x8000_0000_0000_0000 <= 0x7ff0_0000_0000_0000,
        a.bits == b.bits && own ==> r,
        unit <==> a.bits % 0x8000_0000_0000_0000 == 0x3ff0_0000_0000_0000,
{
}

/// Two segments are equal exactly where every field is.
pub proof fn law_segments_compare_by_fields(a: Segment, b: Segment, r: bool, timed: bool)
    requires
        call_ensures(Segment::equals, (&a, &b), r),
        call_ensures(Segment::is_time, (&a,), timed),
    ensures
        timed <==> a.format == FORMAT_TIME,
        r <==> {
            &&& a.rate.same(b.rate) && a.applied_rate.same(b.applied_rate)
            &&& a == (Segment { rate: a.rate, applied_rate: a.applied_rate, ..b })
        },
{
}

/// So are two seeks.
pub proof fn law_seeks_compare_by_fields(a: Seek, b: Seek, r: bool)
    requires
        call_ensures(Seek::equals, (&a, &b), r),
    ensures
        r <==> a.rate.same(b.rate) && a == (Seek { rate: a.rate, ..b }),
{
}

/// Optional times and texts are equal where both are there and equal, or neither
/// is; copies are equal to what was copied.
pub proof fn law_optional_values_compare(
    a: Option<u64>,
    b: Option<u64>,
    x: Option<String>,
    y: Option<String>,
    stream: Stream,
    times: bool,
    texts: bool,
    copied: Option<String>,
    cloned: Stream,
)
    requires
        call_ensures(same_time, (a, b), times),
        call_ensures(same_string, (&x, &y), texts),
        call_ensures(copy_string, (&x,), copied),
        call_ensures(Stream::clone, (&stream,), cloned),
    ensures
        times <==> a == b,
        x is Some != y is Some ==> !texts,
        x is None && y is None ==> texts,
        x is Some && y is Some ==> (texts <==> x->0@ == y->0@),
        copied == x,
        cloned == stream,
{
}

/// The numbers that stand for formats, flags, types of streams and rates differ, and are
/// those that elements agree upon.
pub proof fn law_numbers_are_agreed_upon()
    ensures
        SECOND == 1_000 * 1_000 * 1_000,
        FORMAT_TIME == 3,
        SEEK_FLAG_FLUSH == 1 && SEEK_FLAG_ACCURATE == 2,
        STREAM_TYPE_UNKNOWN == 1 && STREAM_TYPE_AUDIO == 2 && STREAM_TYPE_VIDEO == 4
            && STREAM_TYPE_TEXT == 16,
        RATE_ZERO == 0 && RATE_ONE == 1023 * 0x10_0000_0000_0000,
        RATE_INFINITY == 2047 * 0x10_0000_0000_0000,
        RATE_MINUS_ONE == RATE_ONE + 2048 * 0x10_0000_0000_0000,
        RATE_SIGN == 2048 * 0x10_0000_0000_0000,
{
}

} // verus!
