//! The errors that a shell reports to its callers.

use vstd::prelude::*;
use vstd::string::*;

verus! {

/// The I/O error of std. Nothing is claimed of what it holds.
#[verifier::external_type_specification]
#[verifier::external_body]
pub struct ExIoError(std::io::Error);

/// Why the arguments of a call do not fit the function.
#[derive(Debug)]
pub enum FunctionError {
    /// There are too few or too many arguments.
    InvalidArgumentCount,
    /// An argument is not of the type that the function wants: the name of that type, and the
    /// argument.
    InvalidArgumentType(String, String),
}

/// Why a shell could not do what it was asked to do.
#[derive(Debug)]
pub enum IonError {
    /// A process could not be forked, or the pipes to it could not be opened.
    Fork(std::io::Error),
    /// There is no function of the given name.
    DoesNotExist,
    /// The input ends in the middle of a command.
    Unterminated,
    /// The arguments do not fit the function.
    Function(FunctionError),
}

/// The text of an error, where `why` is the text of the error that it wraps.
pub open spec fn error_text(error: IonError, why: Seq<char>) -> Seq<char> {
    match error {
        IonError::Fork(_) => "failed to fork: "@ + why + "\n"@,
        IonError::DoesNotExist => "element does not exist\n"@,
        IonError::Function(_) => "function error: "@ + why + "\n"@,
        IonError::Unterminated => "input was not terminated\n"@,
    }
}

impl IonError {
    /// The text of the error, which ends in a line feed. `why` is the text of the error that it
    /// wraps; an error that wraps none takes no notice of it.
    pub fn describe(&self, why: &str) -> (text: String)
        ensures
            text@ == error_text(*self, why@),
    {
        match self {
            IonError::Fork(_) => sentence("failed to fork: ", why, "\n"),
            IonError::DoesNotExist => "element does not exist\n".to_owned(),
            IonError::Function(_) => sentence("function error: ", why, "\n"),
            IonError::Unterminated => "input was not terminated\n".to_owned(),
        }
    }
}

/// The text of a function error as the shell reports it after a call from a pipeline.
pub open spec fn call_diagnostic(error: FunctionErrorView) -> Seq<char> {
    match error {
        FunctionErrorView::InvalidArgumentCount =>
            "ion: invalid number of function arguments supplied"@,
        FunctionErrorView::InvalidArgumentType(expected, value) =>
            "ion: function argument has invalid type: expected "@ + expected
            + ", found value '"@ + value + "'"@,
    }
}

/// What a [`FunctionError`] says.
#[verifier::ext_equal]
pub enum FunctionErrorView {
    InvalidArgumentCount,
    InvalidArgumentType(Seq<char>, Seq<char>),
}

impl View for FunctionError {
    type V = FunctionErrorView;

    open spec fn view(&self) -> FunctionErrorView {
        match *self {
            FunctionError::InvalidArgumentCount => FunctionErrorView::InvalidArgumentCount,
            FunctionError::InvalidArgumentType(expected, value) =>
                FunctionErrorView::InvalidArgumentType(expected@, value@),
        }
    }
}

impl FunctionError {
    /// The line that the shell prints when a call from a pipeline fails.
    pub fn diagnostic(&self) -> (text: String)
        ensures
            text@ == call_diagnostic(self@),
    {
        match self {
            FunctionError::InvalidArgumentCount =>
                "ion: invalid number of function arguments supplied".to_owned(),
            FunctionError::InvalidArgumentType(expected, value) => {
                let mut text = sentence(
                    "ion: function argument has invalid type: expected ",
                    expected.as_str(),
                    ", found value '",
                );
                text.append(value.as_str());
                text.append("'");
                text
            },
        }
    }
}

/// Three texts, one after the other.
pub(crate) fn sentence(start: &str, middle: &str, end: &str) -> (text: String)
    ensures
        text@ == start@ + middle@ + end@,
{
    let mut text = start.to_owned();
    text.append(middle);
    text.append(end);
    text
}

/// What is seen of a function error is its kind, the type that was expected and the argument found.
pub proof fn lemma_function_error_is_seen(error: FunctionError)
    ensures
        match error {
            FunctionError::InvalidArgumentCount => error@ is InvalidArgumentCount,
            FunctionError::InvalidArgumentType(expected, value) => error@
                matches FunctionErrorView::InvalidArgumentType(seen, found) && seen == expected@
                && found == value@,
        },
{
}

} // verus!
