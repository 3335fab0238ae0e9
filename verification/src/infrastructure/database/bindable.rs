//! Values that can be bound to a statement: a closed set of scalar kinds, and
//! the rule by which each is stored.

use vstd::prelude::*;
use super::calendar::CalendarDate;
use super::statement::{Param, ParamView, Statement};

verus! {

/// The largest value a signed 64-bit column holds.
pub open spec fn signed_max() -> int {
    0x7fff_ffff_ffff_ffff
}

/// `value` clamped to the signed 64-bit range. Unsigned values beyond the
/// range are stored as the largest signed value rather than rejected.
pub open spec fn saturated(value: u64) -> i64 {
    if value > signed_max() {
        signed_max() as i64
    } else {
        value as i64
    }
}

/// Clamps an unsigned 64-bit value into the signed 64-bit range.
pub fn saturate(value: u64) -> (stored: i64)
    ensures
        stored == saturated(value),
{
    if value > 0x7fff_ffff_ffff_ffff {
        0x7fff_ffff_ffff_ffff
    } else {
        value as i64
    }
}

/// A scalar of one of the supported kinds.
#[derive(Clone, Debug, PartialEq, Eq)]
pub enum Value {
    Text(String),
    I8(i8),
    I16(i16),
    I32(i32),
    I64(i64),
    U8(u8),
    U16(u16),
    U32(u32),
    U64(u64),
    Bool(bool),
    /// A floating-point number, as the IEEE 754 bit pattern of its
    /// double-precision form.
    Real(u64),
    Date(CalendarDate),
}

/// The mathematical model of a [`Value`].
pub enum ValueView {
    Text(Seq<char>),
    I8(i8),
    I16(i16),
    I32(i32),
    I64(i64),
    U8(u8),
    U16(u16),
    U32(u32),
    U64(u64),
    Bool(bool),
    Real(u64),
    Date(CalendarDate),
}

impl ValueView {
    /// The parameter a value is stored as: text stays text, integers widen to
    /// the 32-bit or 64-bit class that holds them, unsigned 64-bit integers
    /// saturate, booleans become 0 or 1, and dates become `YYYY-MM-DD` text.
    pub open spec fn param(self) -> ParamView {
        match self {
            ValueView::Text(text) => ParamView::Text(text),
            ValueView::I8(value) => ParamView::Int(value as i32),
            ValueView::I16(value) => ParamView::Int(value as i32),
            ValueView::I32(value) => ParamView::Int(value),
            ValueView::I64(value) => ParamView::Int64(value),
            ValueView::U8(value) => ParamView::Int(value as i32),
            ValueView::U16(value) => ParamView::Int(value as i32),
            ValueView::U32(value) => ParamView::Int64(value as i64),
            ValueView::U64(value) => ParamView::Int64(saturated(value)),
            ValueView::Bool(value) => ParamView::Int(
                if value {
                    1i32
                } else {
                    0i32
                },
            ),
            ValueView::Real(bits) => ParamView::Double(bits),
            ValueView::Date(date) => ParamView::Text(date.text()),
        }
    }
}

impl DeepView for Value {
    type V = ValueView;

    open spec fn deep_view(&self) -> ValueView {
        match self {
            Value::Text(text) => ValueView::Text(text@),
            Value::I8(value) => ValueView::I8(*value),
            Value::I16(value) => ValueView::I16(*value),
            Value::I32(value) => ValueView::I32(*value),
            Value::I64(value) => ValueView::I64(*value),
            Value::U8(value) => ValueView::U8(*value),
            Value::U16(value) => ValueView::U16(*value),
            Value::U32(value) => ValueView::U32(*value),
            Value::U64(value) => ValueView::U64(*value),
            Value::Bool(value) => ValueView::Bool(*value),
            Value::Real(bits) => ValueView::Real(*bits),
            Value::Date(date) => ValueView::Date(*date),
        }
    }
}

impl View for Value {
    type V = ValueView;

    open spec fn view(&self) -> ValueView {
        self.deep_view()
    }
}

impl Value {
    /// The parameter this value is stored as.
    pub fn to_param(&self) -> (param: Param)
        ensures
            param@ == self@.param(),
    {
        match self {
            Value::Text(text) => Param::Text(text.clone()),
            Value::I8(value) => Param::Int(*value as i32),
            Value::I16(value) => Param::Int(*value as i32),
            Value::I32(value) => Param::Int(*value),
            Value::I64(value) => Param::Int64(*value),
            Value::U8(value) => Param::Int(*value as i32),
            Value::U16(value) => Param::Int(*value as i32),
            Value::U32(value) => Param::Int64(*value as i64),
            Value::U64(value) => Param::Int64(saturate(*value)),
            Value::Bool(value) => Param::Int(
                if *value {
                    1
                } else {
                    0
                },
            ),
            Value::Real(bits) => Param::Double(*bits),
            Value::Date(date) => Param::Text(date.to_text()),
        }
    }
}

/// A value that can bind itself to the next placeholder of a statement.
pub trait Bindable {
    /// The parameter this value is stored as.
    spec fn param(&self) -> ParamView;

    /// Binds this value to the next positional placeholder of `query`.
    fn bind_value(&self, query: Statement) -> (bound: Statement)
        ensures
            bound@ == query@.bind(self.param()),
    ;
}

/// A bindable value that can be copied into the closed union of supported
/// kinds, so that containers of mixed kinds can be duplicated.
pub trait CloneableBindable: Bindable {
    /// An independent copy of this value, which binds as this value does.
    fn clone_box(&self) -> (copy: Value)
        ensures
            copy@.param() == self.param(),
    ;
}

impl Bindable for Value {
    open spec fn param(&self) -> ParamView {
        self@.param()
    }

    fn bind_value(&self, query: Statement) -> (bound: Statement) {
        query.bind(self.to_param())
    }
}

impl CloneableBindable for Value {
    fn clone_box(&self) -> (copy: Value)
        ensures
            copy@ == self@,
    {
        match self {
            Value::Text(text) => Value::Text(text.clone()),
            Value::I8(value) => Value::I8(*value),
            Value::I16(value) => Value::I16(*value),
            Value::I32(value) => Value::I32(*value),
            Value::I64(value) => Value::I64(*value),
            Value::U8(value) => Value::U8(*value),
            Value::U16(value) => Value::U16(*value),
            Value::U32(value) => Value::U32(*value),
            Value::U64(value) => Value::U64(*value),
            Value::Bool(value) => Value::Bool(*value),
            Value::Real(bits) => Value::Real(*bits),
            Value::Date(date) => Value::Date(*date),
        }
    }
}

impl Bindable for String {
    open spec fn param(&self) -> ParamView {
        ParamView::Text(self@)
    }

    fn bind_value(&self, query: Statement) -> (bound: Statement) {
        query.bind(Param::Text(self.clone()))
    }
}

impl CloneableBindable for String {
    fn clone_box(&self) -> (copy: Value)
        ensures
            copy@ == ValueView::Text(self@),
    {
        Value::Text(self.clone())
    }
}

impl Bindable for u64 {
    open spec fn param(&self) -> ParamView {
        ParamView::Int64(saturated(*self))
    }

    fn bind_value(&self, query: Statement) -> (bound: Statement) {
        query.bind(Param::Int64(saturate(*self)))
    }
}

impl CloneableBindable for u64 {
    fn clone_box(&self) -> (copy: Value)
        ensures
            copy@ == ValueView::U64(*self),
    {
        Value::U64(*self)
    }
}

impl Bindable for CalendarDate {
    open spec fn param(&self) -> ParamView {
        ParamView::Text(self.text())
    }

    fn bind_value(&self, query: Statement) -> (bound: Statement) {
        query.bind(Param::Text(self.to_text()))
    }
}

impl CloneableBindable for CalendarDate {
    fn clone_box(&self) -> (copy: Value)
        ensures
            copy@ == ValueView::Date(*self),
    {
        Value::Date(*self)
    }
}

impl Bindable for i32 {
    open spec fn param(&self) -> ParamView {
        ParamView::Int(*self)
    }

    fn bind_value(&self, query: Statement) -> (bound: Statement) {
        query.bind(Param::Int(*self))
    }
}

impl CloneableBindable for i32 {
    fn clone_box(&self) -> (copy: Value)
        ensures
            copy@ == ValueView::I32(*self),
    {
        Value::I32(*self)
    }
}

impl Bindable for i64 {
    open spec fn param(&self) -> ParamView {
        ParamView::Int64(*self)
    }

    fn bind_value(&self, query: Statement) -> (bound: Statement) {
        query.bind(Param::Int64(*self))
    }
}

impl CloneableBindable for i64 {
    fn clone_box(&self) -> (copy: Value)
        ensures
            copy@ == ValueView::I64(*self),
    {
        Value::I64(*self)
    }
}

impl Bindable for bool {
    open spec fn param(&self) -> ParamView {
        ParamView::Int(
            if *self {
                1i32
            } else {
                0i32
            },
        )
    }

    fn bind_value(&self, query: Statement) -> (bound: Statement) {
        query.bind(Param::Int(
            if *self {
                1
            } else {
                0
            },
        ))
    }
}

impl CloneableBindable for bool {
    fn clone_box(&self) -> (copy: Value)
        ensures
            copy@ == ValueView::Bool(*self),
    {
        Value::Bool(*self)
    }
}

impl Bindable for u8 {
    open spec fn param(&self) -> ParamView {
        ParamView::Int(*self as i32)
    }

    fn bind_value(&self, query: Statement) -> (bound: Statement) {
        query.bind(Param::Int(*self as i32))
    }
}

impl CloneableBindable for u8 {
    fn clone_box(&self) -> (copy: Value)
        ensures
            copy@ == ValueView::U8(*self),
    {
        Value::U8(*self)
    }
}

impl Bindable for u16 {
    open spec fn param(&self) -> ParamView {
        ParamView::Int(*self as i32)
    }

    fn bind_value(&self, query: Statement) -> (bound: Statement) {
        query.bind(Param::Int(*self as i32))
    }
}

impl CloneableBindable for u16 {
    fn clone_box(&self) -> (copy: Value)
        ensures
            copy@ == ValueView::U16(*self),
    {
        Value::U16(*self)
    }
}

impl Bindable for u32 {
    open spec fn param(&self) -> ParamView {
        ParamView::Int64(*self as i64)
    }

    fn bind_value(&self, query: Statement) -> (bound: Statement) {
        query.bind(Param::Int64(*self as i64))
    }
}

impl CloneableBindable for u32 {
    fn clone_box(&self) -> (copy: Value)
        ensures
            copy@ == ValueView::U32(*self),
    {
        Value::U32(*self)
    }
}

impl Bindable for i8 {
    open spec fn param(&self) -> ParamView {
        ParamView::Int(*self as i32)
    }

    fn bind_value(&self, query: Statement) -> (bound: Statement) {
        query.bind(Param::Int(*self as i32))
    }
}

impl CloneableBindable for i8 {
    fn clone_box(&self) -> (copy: Value)
        ensures
            copy@ == ValueView::I8(*self),
    {
        Value::I8(*self)
    }
}

impl Bindable for i16 {
    open spec fn param(&self) -> ParamView {
        ParamView::Int(*self as i32)
    }

    fn bind_value(&self, query: Statement) -> (bound: Statement) {
        query.bind(Param::Int(*self as i32))
    }
}

impl CloneableBindable for i16 {
    fn clone_box(&self) -> (copy: Value)
        ensures
            copy@ == ValueView::I16(*self),
    {
        Value::I16(*self)
    }
}

} // verus!
