//! The requests that a handler is sent, and the month that each asks for.
//!
//! A request comes in one of two shapes: a chat command, whose body is a
//! form, or a plain event that names the month in a field. The shape also
//! decides how the answer is wrapped.
use vstd::prelude::*;
use crate::input::diagnose_form;
use crate::input::diagnose_month;
use crate::input::diagnosis_view;
use crate::input::form_month_or_fault;
use crate::input::month_or_fault;
use crate::input::InputFault;

verus! {

/// What the month field of a plain event holds.
#[derive(Clone, Debug)]
pub enum MonthValue {
    /// A text, to be read as a month.
    Text(String),
    /// A whole number.
    Number(i64),
    /// Nothing: the field is missing or null.
    Absent,
    /// Anything else.
    Other,
}

/// A request as the handler receives it.
#[derive(Clone, Debug)]
pub enum Event {
    /// A chat command with its form body.
    Command { body: String },
    /// A plain event with its month field.
    Plain { month: MonthValue },
    /// A payload of neither shape.
    Unreadable,
}

/// How the answer to a request is wrapped.
#[derive(Clone, Copy, Debug, PartialEq, Eq, Structural)]
pub enum ReplyShape {
    /// The chat answer inside an HTTP-style envelope.
    Command,
    /// A message.
    Message,
}

/// The month that a month field names, or what is wrong with it: a text is
/// read as a month text is, a number must be one of 1 to 12, a missing field
/// is `EmptyMonth`, and anything else is `NotANumber`.
pub open spec fn value_month(value: MonthValue) -> Result<int, InputFault> {
    match value {
        MonthValue::Text(text) => month_or_fault(text@),
        MonthValue::Number(n) => if 1 <= n <= 12 {
            Ok(n as int)
        } else {
            Err(InputFault::OutOfRange)
        },
        MonthValue::Absent => Err(InputFault::EmptyMonth),
        MonthValue::Other => Err(InputFault::NotANumber),
    }
}

/// The month that a request asks for and the shape of its answer, or what
/// is wrong with the request. A payload of neither shape is `EmptyBody`.
pub open spec fn event_month(event: Event) -> Result<(int, ReplyShape), InputFault> {
    match event {
        Event::Command { body } => match form_month_or_fault(body@) {
            Ok(m) => Ok((m, ReplyShape::Command)),
            Err(fault) => Err(fault),
        },
        Event::Plain { month } => match value_month(month) {
            Ok(m) => Ok((m, ReplyShape::Message)),
            Err(fault) => Err(fault),
        },
        Event::Unreadable => Err(InputFault::EmptyBody),
    }
}

/// A result with its month taken as a mathematical integer.
pub open spec fn asked_view(r: Result<(i32, ReplyShape), InputFault>) -> Result<
    (int, ReplyShape),
    InputFault,
> {
    match r {
        Ok((m, shape)) => Ok((m as int, shape)),
        Err(fault) => Err(fault),
    }
}

/// Reads the month that a month field names.
pub fn diagnose_value(value: &MonthValue) -> (r: Result<i32, InputFault>)
    ensures
        diagnosis_view(r) == value_month(*value),
{
    match value {
        MonthValue::Text(text) => diagnose_month(text.as_str()),
        MonthValue::Number(n) => {
            if 1 <= *n && *n <= 12 {
                Ok(*n as i32)
            } else {
                Err(InputFault::OutOfRange)
            }
        },
        MonthValue::Absent => Err(InputFault::EmptyMonth),
        MonthValue::Other => Err(InputFault::NotANumber),
    }
}

/// Reads the month that a request asks for, and the shape of its answer.
pub fn diagnose_event(event: &Event) -> (r: Result<(i32, ReplyShape), InputFault>)
    ensures
        asked_view(r) == event_month(*event),
{
    match event {
        Event::Command { body } => match diagnose_form(body.as_str()) {
            Ok(m) => Ok((m, ReplyShape::Command)),
            Err(fault) => Err(fault),
        },
        Event::Plain { month } => match diagnose_value(month) {
            Ok(m) => Ok((m, ReplyShape::Message)),
            Err(fault) => Err(fault),
        },
        Event::Unreadable => Err(InputFault::EmptyBody),
    }
}

} // verus!
