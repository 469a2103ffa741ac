//! Date shifting, numeric operations and string appends on tags.

use vstd::prelude::*;
use crate::text::{concat2, concat3, i64_dec, nat_dec, pad2, push_char, push_dec, push_pad2};
use crate::types::TagId;

verus! {

/// The direction of a date shift.
#[derive(Debug, Clone, Copy, PartialEq, Eq, Structural)]
pub enum DateShiftDirection {
    Add,
    Subtract,
}

/// A unit of time.
#[derive(Debug, Clone, Copy, PartialEq, Eq, Structural)]
pub enum TimeUnit {
    Years,
    Months,
    Days,
    Hours,
    Minutes,
    Seconds,
}

/// The one-letter abbreviation of a unit.
pub open spec fn unit_abbreviation(u: TimeUnit) -> Seq<char> {
    match u {
        TimeUnit::Years => "y"@,
        TimeUnit::Months => "m"@,
        TimeUnit::Days => "d"@,
        TimeUnit::Hours => "H"@,
        TimeUnit::Minutes => "M"@,
        TimeUnit::Seconds => "S"@,
    }
}

impl TimeUnit {
    /// The unit's one-letter abbreviation.
    pub fn abbreviation(&self) -> (s: &'static str)
        ensures
            s@ == unit_abbreviation(*self),
    {
        match self {
            TimeUnit::Years => "y",
            TimeUnit::Months => "m",
            TimeUnit::Days => "d",
            TimeUnit::Hours => "H",
            TimeUnit::Minutes => "M",
            TimeUnit::Seconds => "S",
        }
    }
}

/// An offset of a date and time: years, months, days, hours, minutes and
/// seconds, each of which may be negative.
#[derive(Debug, Clone)]
pub struct DateTimeOffset {
    years: i32,
    months: i32,
    days: i32,
    hours: i32,
    minutes: i32,
    seconds: i32,
}

/// The six parts of an offset, in the order years, months, days, hours,
/// minutes, seconds.
pub type OffsetParts = (i32, i32, i32, i32, i32, i32);

impl View for DateTimeOffset {
    type V = OffsetParts;

    closed spec fn view(&self) -> OffsetParts {
        (self.years, self.months, self.days, self.hours, self.minutes, self.seconds)
    }
}

/// Part `k` of an offset, counting years as 0 and seconds as 5.
pub open spec fn part(o: OffsetParts, k: int) -> i32 {
    if k == 0 {
        o.0
    } else if k == 1 {
        o.1
    } else if k == 2 {
        o.2
    } else if k == 3 {
        o.3
    } else if k == 4 {
        o.4
    } else {
        o.5
    }
}

/// The offset with part `k` set to `v`.
pub open spec fn set_part(o: OffsetParts, k: int, v: i32) -> OffsetParts {
    (
        if k == 0 { v } else { o.0 },
        if k == 1 { v } else { o.1 },
        if k == 2 { v } else { o.2 },
        if k == 3 { v } else { o.3 },
        if k == 4 { v } else { o.4 },
        if k == 5 { v } else { o.5 },
    )
}

/// Whether some part of an offset is negative.
pub open spec fn offset_negative(o: OffsetParts) -> bool {
    o.0 < 0 || o.1 < 0 || o.2 < 0 || o.3 < 0 || o.4 < 0 || o.5 < 0
}

/// Whether every part of an offset has an absolute value that `i32` holds.
pub open spec fn offset_in_range(o: OffsetParts) -> bool {
    o.0 != i32::MIN && o.1 != i32::MIN && o.2 != i32::MIN && o.3 != i32::MIN && o.4 != i32::MIN
        && o.5 != i32::MIN
}

/// The absolute value of a part.
pub open spec fn magnitude(v: i32) -> nat {
    if v < 0 {
        (-v) as nat
    } else {
        v as nat
    }
}

/// ExifTool's notation of an offset: `+y:mm:dd HH:MM:SS`, or with `-` in
/// front when some part is negative; every part is written by its
/// absolute value.
pub open spec fn offset_text(o: OffsetParts) -> Seq<char> {
    (if offset_negative(o) { seq!['-'] } else { seq!['+'] }) + nat_dec(magnitude(o.0)) + seq![':']
        + pad2(magnitude(o.1)) + seq![':'] + pad2(magnitude(o.2)) + seq![' '] + pad2(
        magnitude(o.3),
    ) + seq![':'] + pad2(magnitude(o.4)) + seq![':'] + pad2(magnitude(o.5))
}

fn magnitude_of(v: i32) -> (m: u64)
    ensures
        m == magnitude(v),
{
    if v < 0 {
        (-(v as i64)) as u64
    } else {
        v as u64
    }
}

impl DateTimeOffset {
    /// The zero offset.
    pub fn new() -> (o: Self)
        ensures
            o@ == (0i32, 0i32, 0i32, 0i32, 0i32, 0i32),
    {
        DateTimeOffset { years: 0, months: 0, days: 0, hours: 0, minutes: 0, seconds: 0 }
    }

    /// Sets the years.
    pub fn years(self, value: i32) -> (o: Self)
        ensures
            o@ == set_part(self@, 0, value),
    {
        DateTimeOffset { years: value, ..self }
    }

    /// Sets the months.
    pub fn months(self, value: i32) -> (o: Self)
        ensures
            o@ == set_part(self@, 1, value),
    {
        DateTimeOffset { months: value, ..self }
    }

    /// Sets the days.
    pub fn days(self, value: i32) -> (o: Self)
        ensures
            o@ == set_part(self@, 2, value),
    {
        DateTimeOffset { days: value, ..self }
    }

    /// Sets the hours.
    pub fn hours(self, value: i32) -> (o: Self)
        ensures
            o@ == set_part(self@, 3, value),
    {
        DateTimeOffset { hours: value, ..self }
    }

    /// Sets the minutes.
    pub fn minutes(self, value: i32) -> (o: Self)
        ensures
            o@ == set_part(self@, 4, value),
    {
        DateTimeOffset { minutes: value, ..self }
    }

    /// Sets the seconds.
    pub fn seconds(self, value: i32) -> (o: Self)
        ensures
            o@ == set_part(self@, 5, value),
    {
        DateTimeOffset { seconds: value, ..self }
    }

    /// Whether some part is negative.
    pub fn is_negative(&self) -> (b: bool)
        ensures
            b == offset_negative(self@),
    {
        self.years < 0 || self.months < 0 || self.days < 0 || self.hours < 0 || self.minutes < 0
            || self.seconds < 0
    }

    /// Whether every part has an absolute value that `i32` holds, which
    /// writing the offset needs.
    pub fn in_range(&self) -> (b: bool)
        ensures
            b == offset_in_range(self@),
    {
        self.years != i32::MIN && self.months != i32::MIN && self.days != i32::MIN && self.hours
            != i32::MIN && self.minutes != i32::MIN && self.seconds != i32::MIN
    }

    /// The offset in ExifTool's notation, such as `+0:00:01 02:30:00`.
    pub fn format(&self) -> (s: String)
        requires
            offset_in_range(self@),
        ensures
            s@ == offset_text(self@),
    {
        let mut s = String::new();
        if self.is_negative() {
            push_char(&mut s, '-');
        } else {
            push_char(&mut s, '+');
        }
        push_dec(&mut s, magnitude_of(self.years));
        push_char(&mut s, ':');
        push_pad2(&mut s, magnitude_of(self.months));
        push_char(&mut s, ':');
        push_pad2(&mut s, magnitude_of(self.days));
        push_char(&mut s, ' ');
        push_pad2(&mut s, magnitude_of(self.hours));
        push_char(&mut s, ':');
        push_pad2(&mut s, magnitude_of(self.minutes));
        push_char(&mut s, ':');
        push_pad2(&mut s, magnitude_of(self.seconds));
        s
    }
}

impl Default for DateTimeOffset {
    fn default() -> (o: Self)
        ensures
            o@ == (0i32, 0i32, 0i32, 0i32, 0i32, 0i32),
    {
        DateTimeOffset::new()
    }
}

/// The sign of an offset's notation is `-` exactly when some part of the
/// offset is negative, and `+` otherwise.
pub proof fn law_offset_sign(o: OffsetParts)
    ensures
        offset_text(o).len() > 0,
        offset_text(o)[0] == '-' <==> offset_negative(o),
        offset_text(o)[0] == '+' <==> !offset_negative(o),
{
}

/// The last value set for a part wins: setting a part twice is setting it
/// once to the second value, and the other parts are kept.
pub proof fn law_last_setting_wins(o: OffsetParts, k: int, a: i32, b: i32)
    requires
        0 <= k < 6,
    ensures
        set_part(set_part(o, k, a), k, b) == set_part(o, k, b),
        offset_text(set_part(set_part(o, k, a), k, b)) == offset_text(set_part(o, k, b)),
        forall|j: int| 0 <= j < 6 && j != k ==> part(set_part(o, k, b), j) == part(o, j),
        part(set_part(o, k, b), k) == b,
{
}

/// An arithmetic operation on a numeric tag, with its operand.
#[derive(Debug, Clone, Copy, PartialEq, Eq, Structural)]
pub enum NumericOperation {
    Add(i64),
    Subtract(i64),
    Multiply(i64),
    Divide(i64),
}

/// ExifTool's assignment operator for an operation.
pub open spec fn operator_text(op: NumericOperation) -> Seq<char> {
    match op {
        NumericOperation::Add(_) => "+="@,
        NumericOperation::Subtract(_) => "-="@,
        NumericOperation::Multiply(_) => "*="@,
        NumericOperation::Divide(_) => "/="@,
    }
}

/// The operand of an operation.
pub open spec fn operand(op: NumericOperation) -> i64 {
    match op {
        NumericOperation::Add(v) => v,
        NumericOperation::Subtract(v) => v,
        NumericOperation::Multiply(v) => v,
        NumericOperation::Divide(v) => v,
    }
}

impl NumericOperation {
    /// The assignment operator: `+=`, `-=`, `*=` or `/=`.
    pub fn operator(&self) -> (s: &'static str)
        ensures
            s@ == operator_text(*self),
    {
        match self {
            NumericOperation::Add(_) => "+=",
            NumericOperation::Subtract(_) => "-=",
            NumericOperation::Multiply(_) => "*=",
            NumericOperation::Divide(_) => "/=",
        }
    }

    /// The operand.
    pub fn value(&self) -> (v: i64)
        ensures
            v == operand(*self),
    {
        match self {
            NumericOperation::Add(v) => *v,
            NumericOperation::Subtract(v) => *v,
            NumericOperation::Multiply(v) => *v,
            NumericOperation::Divide(v) => *v,
        }
    }
}

/// The argument that shifts every date tag: `-AllDates` and the offset.
pub fn shift_datetime_arg(offset: &DateTimeOffset) -> (a: String)
    requires
        offset_in_range(offset@),
    ensures
        a@ == "-AllDates"@ + offset_text(offset@),
{
    let o = offset.format();
    concat2("-AllDates", o.as_str())
}

/// The argument that shifts one tag: `-`, the tag and the offset.
pub fn shift_tag_arg(tag: TagId, offset: &DateTimeOffset) -> (a: String)
    requires
        offset_in_range(offset@),
    ensures
        a@ == "-"@ + tag.0@ + offset_text(offset@),
{
    let o = offset.format();
    concat3("-", tag.name(), o.as_str())
}

/// The argument of a numeric operation: `-`, the tag, the operator and
/// the operand.
pub fn numeric_operation_arg(tag: TagId, op: NumericOperation) -> (a: String)
    ensures
        a@ == "-"@ + tag.0@ + operator_text(op) + int_dec_of(operand(op)),
{
    let mut a = concat3("-", tag.name(), op.operator());
    let v = i64_dec(op.value());
    a.append(v.as_str());
    a
}

/// The decimal notation of an operand.
pub open spec fn int_dec_of(v: i64) -> Seq<char> {
    crate::text::int_dec(v as int)
}

/// The argument that appends to a string tag: `-`, the tag, `+=` and the
/// suffix.
pub fn append_string_arg(tag: TagId, suffix: &str) -> (a: String)
    ensures
        a@ == "-"@ + tag.0@ + "+="@ + suffix@,
{
    let mut a = concat3("-", tag.name(), "+=");
    a.append(suffix);
    a
}

} // verus!
