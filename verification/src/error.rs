//! The failures that decoding and typed argument reads report.

use vstd::prelude::*;

verus! {

/// The kind of argument that a typed read asks for.
#[derive(Clone, Copy, Debug, PartialEq, Eq)]
pub enum ArgKind {
    String,
    Float,
    Int,
}

/// The kind of packet that a typed read of a bundle's contents asks for.
#[derive(Clone, Copy, Debug, PartialEq, Eq)]
pub enum PacketKind {
    Message,
    Bundle,
}

/// What is wrong with an element of a key/value argument tail.
#[derive(Clone, Copy, Debug, PartialEq, Eq)]
pub enum ShapeProblem {
    /// A float stands where a string key is expected.
    FloatWhereString,
    /// A string stands where a float value is expected.
    StringWhereFloat,
    /// The element is neither a string nor a float.
    OtherType,
}

/// What is wrong with the leading info message of a bundle.
#[derive(Debug, PartialEq)]
pub enum TagProblem {
    /// The first element of the bundle is itself a bundle.
    NotAMessage,
    /// The first message has another address than `/bundle_info`.
    WrongAddress { actual: String },
    /// The info message has no argument.
    NoArgument,
    /// The first argument of the info message is not a string.
    NotAString,
}

/// A failed read or decode. Every operation of this crate that can fail
/// returns one of these instead of panicking.
#[derive(Debug, PartialEq)]
pub enum OscError {
    /// The message's address is not the expected one.
    AddressMismatch { expected: String, actual: String },
    /// The message has fewer arguments than required.
    ArgumentCountError { required: usize, found: usize },
    /// There is no argument at `index`, or it is not of the kind asked for.
    TypeMismatchOrMissing { index: usize, name: String, kind: ArgKind },
    /// The integer at `index` is negative and has no unsigned value.
    RangeError { index: usize, name: String, value: i32 },
    /// The string at `index`, which is `text`, is not a decimal number.
    ParseError { index: usize, name: String, text: String },
    /// A key/value argument tail does not alternate string and float;
    /// `index` is the first offending position within that tail.
    ShapeViolation { index: usize, problem: ShapeProblem },
    /// The bundle has no content at all.
    EmptyBundle,
    /// The bundle does not start with a well-formed info message.
    MalformedTag { reason: TagProblem },
    /// A tagged bundle has no content at `index`.
    IndexError { index: usize },
    /// The content at `index` is not of the kind asked for.
    TypeMismatch { index: usize, wanted: PacketKind },
    /// The tagged bundle carries another tag than the one required.
    WrongBundleKind { actual: String },
    /// A timed bundle lacks the content at `index`.
    MissingContent { index: usize },
}

/// The mathematical value of a [`TagProblem`].
pub enum TagProblemView {
    NotAMessage,
    WrongAddress { actual: Seq<char> },
    NoArgument,
    NotAString,
}

/// The mathematical value of an [`OscError`].
pub enum OscErrorView {
    AddressMismatch { expected: Seq<char>, actual: Seq<char> },
    ArgumentCountError { required: usize, found: usize },
    TypeMismatchOrMissing { index: usize, name: Seq<char>, kind: ArgKind },
    RangeError { index: usize, name: Seq<char>, value: i32 },
    ParseError { index: usize, name: Seq<char>, text: Seq<char> },
    ShapeViolation { index: usize, problem: ShapeProblem },
    EmptyBundle,
    MalformedTag { reason: TagProblemView },
    IndexError { index: usize },
    TypeMismatch { index: usize, wanted: PacketKind },
    WrongBundleKind { actual: Seq<char> },
    MissingContent { index: usize },
}

impl View for TagProblem {
    type V = TagProblemView;

    open spec fn view(&self) -> TagProblemView {
        match *self {
            TagProblem::NotAMessage => TagProblemView::NotAMessage,
            TagProblem::WrongAddress { actual } => TagProblemView::WrongAddress { actual: actual@ },
            TagProblem::NoArgument => TagProblemView::NoArgument,
            TagProblem::NotAString => TagProblemView::NotAString,
        }
    }
}

impl View for OscError {
    type V = OscErrorView;

    open spec fn view(&self) -> OscErrorView {
        match *self {
            OscError::AddressMismatch { expected, actual } => OscErrorView::AddressMismatch {
                expected: expected@,
                actual: actual@,
            },
            OscError::ArgumentCountError { required, found } => OscErrorView::ArgumentCountError {
                required,
                found,
            },
            OscError::TypeMismatchOrMissing {
                index,
                name,
                kind,
            } => OscErrorView::TypeMismatchOrMissing { index, name: name@, kind },
            OscError::RangeError { index, name, value } => OscErrorView::RangeError {
                index,
                name: name@,
                value,
            },
            OscError::ParseError { index, name, text } => OscErrorView::ParseError {
                index,
                name: name@,
                text: text@,
            },
            OscError::ShapeViolation { index, problem } => OscErrorView::ShapeViolation {
                index,
                problem,
            },
            OscError::EmptyBundle => OscErrorView::EmptyBundle,
            OscError::MalformedTag { reason } => OscErrorView::MalformedTag { reason: reason@ },
            OscError::IndexError { index } => OscErrorView::IndexError { index },
            OscError::TypeMismatch { index, wanted } => OscErrorView::TypeMismatch {
                index,
                wanted,
            },
            OscError::WrongBundleKind { actual } => OscErrorView::WrongBundleKind {
                actual: actual@,
            },
            OscError::MissingContent { index } => OscErrorView::MissingContent { index },
        }
    }
}

/// The mathematical value of an outcome: that of the result, or that of the
/// error.
pub open spec fn outcome<T: View>(r: Result<T, OscError>) -> Result<T::V, OscErrorView> {
    match r {
        Ok(value) => Ok(value@),
        Err(error) => Err(error@),
    }
}

} // verus!
