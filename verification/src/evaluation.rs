//! What the debugger reports after an operation, and how the result of
//! evaluating an expression in the target is judged.

use crate::text::{chars_of, decimal_digits, push_decimal, string_of};
use vstd::prelude::*;

verus! {

/// The status code with which the debugger reports that an expression ran
/// and left no value. It marks a failure in the report, and is none.
pub const NO_RESULT_CODE: u32 = 0x1001;

/// The debugger's report on one operation.
#[derive(Clone, Debug, PartialEq, Eq)]
pub struct Status {
    /// The debugger counts the operation as failed.
    pub failure: bool,
    /// The debugger's code for what happened.
    pub code: u32,
    /// The debugger's diagnostic text.
    pub message: String,
}

impl Status {
    /// The report of an operation that went well.
    pub fn success() -> (status: Status)
        ensures
            !status.failure,
            status.code == 0,
            status.message@ == Seq::<char>::empty(),
    {
        Status { failure: false, code: 0, message: String::new() }
    }

    /// Whether the operation went well.
    pub fn is_success(&self) -> (ok: bool)
        ensures
            ok == !self.failure,
    {
        !self.failure
    }

    /// Whether the operation failed.
    pub fn is_failure(&self) -> (failed: bool)
        ensures
            failed == self.failure,
    {
        self.failure
    }

    /// The report stands for a failure that ends the work: any failure but
    /// the one that only says that there is no value.
    pub open spec fn is_fatal(&self) -> bool {
        self.failure && self.code != NO_RESULT_CODE
    }

    /// `value` if the operation went well, the report itself if it failed.
    pub fn into_result<T>(self, value: T) -> (outcome: Result<T, Status>)
        ensures
            outcome == if self.failure {
                Err::<T, Status>(self)
            } else {
                Ok::<T, Status>(value)
            },
    {
        if self.failure {
            Err(self)
        } else {
            Ok(value)
        }
    }
}

/// What came back from evaluating an expression in the target: the value
/// read as a signed integer, where it can be read so, and the debugger's
/// report, where it made one.
#[derive(Clone, Debug, PartialEq, Eq)]
pub struct RawEvaluation {
    pub signed: Option<i64>,
    pub status: Option<Status>,
}

/// The result of an evaluation that did not fail.
#[derive(Clone, Copy, Debug, PartialEq, Eq, Structural)]
pub enum RemoteValue {
    /// The expression ran and has no value.
    NoResult,
    /// The value, read as a signed integer.
    Signed(i64),
}

/// An evaluation that failed, with the debugger's code and diagnostic.
#[derive(Clone, Debug, PartialEq, Eq)]
pub struct EvaluationError {
    pub code: u32,
    pub message: String,
}

/// The address that a signed value stands for: the same 64 bits, unsigned.
pub open spec fn address_of(value: i64) -> u64 {
    if value >= 0 {
        value as u64
    } else {
        (value + 0x1_0000_0000_0000_0000) as u64
    }
}

impl RemoteValue {
    /// The value as a signed integer, where there is one.
    pub fn as_signed(&self) -> (value: Option<i64>)
        ensures
            value == match *self {
                RemoteValue::Signed(v) => Some(v),
                RemoteValue::NoResult => None,
            },
    {
        match self {
            RemoteValue::Signed(v) => Some(*v),
            RemoteValue::NoResult => None,
        }
    }

    /// The value as an address in the target, where there is one.
    pub fn as_address(&self) -> (address: Option<u64>)
        ensures
            address == match *self {
                RemoteValue::Signed(v) => Some(address_of(v)),
                RemoteValue::NoResult => None,
            },
    {
        match self {
            RemoteValue::Signed(v) => {
                let v: i64 = *v;
                if v >= 0 {
                    Some(v as u64)
                } else {
                    Some((v - i64::MIN) as u64 + 0x8000_0000_0000_0000u64)
                }
            },
            RemoteValue::NoResult => None,
        }
    }

    /// The value as a number of elements, where it is one: not negative and
    /// within what this machine can index.
    pub fn as_count(&self) -> (count: Option<usize>)
        ensures
            count == match *self {
                RemoteValue::Signed(v) if 0 <= v <= usize::MAX => Some(v as usize),
                _ => None,
            },
    {
        match self {
            RemoteValue::Signed(v) => {
                let v: i64 = *v;
                if v >= 0 && v as u64 <= usize::MAX as u64 {
                    Some(v as usize)
                } else {
                    None
                }
            },
            RemoteValue::NoResult => None,
        }
    }
}

/// How an evaluation is judged. A report of failure ends the work with the
/// debugger's code and diagnostic, unless its code is [`NO_RESULT_CODE`]:
/// that one means success without a value. Otherwise the value is the
/// result, or there is none.
pub open spec fn evaluation_outcome(raw: RawEvaluation) -> Result<RemoteValue, EvaluationError> {
    match raw.status {
        Some(status) if status.is_fatal() => Err(
            EvaluationError { code: status.code, message: status.message },
        ),
        Some(status) if status.failure => Ok(RemoteValue::NoResult),
        _ => match raw.signed {
            Some(value) => Ok(RemoteValue::Signed(value)),
            None => Ok(RemoteValue::NoResult),
        },
    }
}

/// Judges what came back from evaluating an expression.
pub fn judge_evaluation(raw: RawEvaluation) -> (outcome: Result<RemoteValue, EvaluationError>)
    ensures
        outcome == evaluation_outcome(raw),
{
    let RawEvaluation { signed, status } = raw;
    match status {
        Some(status) => {
            if status.failure && status.code != NO_RESULT_CODE {
                return Err(EvaluationError { code: status.code, message: status.message });
            }
            if status.failure {
                return Ok(RemoteValue::NoResult);
            }
        },
        None => {},
    }
    match signed {
        Some(value) => Ok(RemoteValue::Signed(value)),
        None => Ok(RemoteValue::NoResult),
    }
}

/// An evaluation fails exactly when the debugger reports a failure whose
/// code is not [`NO_RESULT_CODE`], and the error then carries the
/// debugger's code and diagnostic unchanged. In particular a report with
/// [`NO_RESULT_CODE`] is a success, and so is an evaluation without a
/// report.
pub proof fn law_no_result_is_success(raw: RawEvaluation)
    ensures
        evaluation_outcome(raw) is Err <==> (raw.status matches Some(status)
            && status.failure && status.code != NO_RESULT_CODE),
        evaluation_outcome(raw) matches Err(error) ==> (raw.status matches Some(status)
            && error.code == status.code && error.message == status.message),
        (raw.status matches Some(status) && status.failure && status.code == NO_RESULT_CODE)
            ==> evaluation_outcome(raw) == Ok::<RemoteValue, EvaluationError>(
            RemoteValue::NoResult,
        ),
        raw.status is None ==> evaluation_outcome(raw) is Ok,
{
}

/// The text of the expression that calls the function at `address` with no
/// arguments and no result.
pub open spec fn call_text(address: u64) -> Seq<char> {
    "((void (*)())("@ + decimal_digits(address as nat) + "))()"@
}

/// The expression that calls the function at `address` in the target, with
/// no arguments and no result.
pub fn call_expression(address: u64) -> (expression: String)
    ensures
        expression@ == call_text(address),
{
    let mut chars: Vec<char> = chars_of("((void (*)())(");
    push_decimal(&mut chars, address);
    let mut tail: Vec<char> = chars_of("))()");
    chars.append(&mut tail);
    string_of(chars.as_slice())
}

} // verus!
