//! The view of a parked target through which symbols are resolved,
//! evaluations judged and memory rebuilt.

use crate::evaluation::{
    call_expression,
    call_text,
    evaluation_outcome,
    judge_evaluation,
    EvaluationError,
    RawEvaluation,
    RemoteValue,
};
use crate::layout::Layout;
use crate::marshal::{array_outcome, read_scalar_array, MarshalError, Scalar};
use crate::symbols::{exact_query, resolution, resolve_exact, ResolveError, SymbolKind, TargetImage};
use vstd::prelude::*;

verus! {

/// The attached process: its identifier and the layout that it reports.
#[derive(Clone, Copy, Debug, PartialEq, Eq, Structural)]
pub struct ProcessInfo {
    pub pid: u64,
    pub layout: Layout,
}

/// The stack frame in which expressions are evaluated: a frame of the
/// thread that hit the breakpoint, counted from the innermost.
#[derive(Clone, Copy, Debug, PartialEq, Eq, Structural)]
pub struct FrameInfo {
    pub thread_id: u64,
    pub index: u32,
}

/// A parked target: its loaded images, its process and the frame at the
/// synchronisation point.
pub struct LLDBContext<'a> {
    pub target: &'a TargetImage,
    pub process: &'a ProcessInfo,
    pub frame: &'a FrameInfo,
}

/// What resolving an export and writing the call of it gives.
pub open spec fn export_call_outcome(address: Result<u64, ResolveError>) -> Result<
    Seq<char>,
    ResolveError,
> {
    match address {
        Ok(address) => Ok(call_text(address)),
        Err(error) => Err(error),
    }
}

impl<'a> LLDBContext<'a> {
    /// The context of the given target, process and frame.
    pub fn new(target: &'a TargetImage, process: &'a ProcessInfo, frame: &'a FrameInfo) -> (context:
        LLDBContext<'a>)
        ensures
            context.target == target,
            context.process == process,
            context.frame == frame,
    {
        LLDBContext { target, process, frame }
    }

    /// Judges what came back from evaluating an expression in the frame: a
    /// report of failure ends the work, unless it only says that there is
    /// no value.
    pub fn eval(&self, raw: RawEvaluation) -> (outcome: Result<RemoteValue, EvaluationError>)
        ensures
            outcome == evaluation_outcome(raw),
    {
        judge_evaluation(raw)
    }

    /// The address of the first function called exactly `name`.
    pub fn get_function_addr(&self, name: &str) -> (outcome: Result<u64, ResolveError>)
        ensures
            outcome == resolution(self.target@, exact_query(name@, SymbolKind::Code)),
    {
        resolve_exact(self.target, name, SymbolKind::Code)
    }

    /// The address of the first data symbol called exactly `name`.
    pub fn get_addr(&self, name: &str) -> (outcome: Result<u64, ResolveError>)
        ensures
            outcome == resolution(self.target@, exact_query(name@, SymbolKind::Data)),
    {
        resolve_exact(self.target, name, SymbolKind::Data)
    }

    /// The expression that calls the function called exactly `name`.
    pub fn call_of(&self, name: &str) -> (outcome: Result<String, ResolveError>)
        ensures
            match outcome {
                Ok(expression) => export_call_outcome(
                    resolution(self.target@, exact_query(name@, SymbolKind::Code)),
                ) == Ok::<Seq<char>, ResolveError>(expression@),
                Err(error) => export_call_outcome(
                    resolution(self.target@, exact_query(name@, SymbolKind::Code)),
                ) == Err::<Seq<char>, ResolveError>(error),
            },
    {
        match self.get_function_addr(name) {
            Ok(address) => Ok(call_expression(address)),
            Err(error) => Err(error),
        }
    }

    /// Rebuilds the `length` values that `bytes`, read from the target's
    /// memory, hold one after another in the target's byte order.
    pub fn read_array<T: Scalar>(&self, length: usize, bytes: &[u8]) -> (outcome: Result<
        Vec<T>,
        MarshalError,
    >)
        ensures
            match outcome {
                Ok(values) => array_outcome::<T>(
                    bytes@,
                    length as nat,
                    self.process.layout.byte_order,
                ) == Ok::<Seq<T>, MarshalError>(values@),
                Err(error) => array_outcome::<T>(
                    bytes@,
                    length as nat,
                    self.process.layout.byte_order,
                ) == Err::<Seq<T>, MarshalError>(error),
            },
    {
        read_scalar_array::<T>(bytes, length, self.process.layout.byte_order)
    }
}

} // verus!
