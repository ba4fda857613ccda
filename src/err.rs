//! Status codes of the engine and the error kinds they stand for.
use vstd::prelude::*;

verus! {

/// The error type for all operations of this library.
#[derive(Debug, Clone, Copy, PartialEq, Eq, Structural)]
pub enum GmshError {
    /// The engine was not initialized, the session has ended, or a required
    /// component of the engine is missing.
    Initialization,
    /// One of the engine's top-level operations could not run, or a model
    /// could not be created or selected.
    Execution,
    /// A value cannot be passed across the foreign-function boundary, such
    /// as a name that holds a NUL character.
    CInterface,
    /// An operation that changes a model could not complete.
    ModelMutation,
    /// A lookup in a model failed.
    ModelLookup,
    /// The engine could not use one of the inputs it was given.
    ModelBadInput,
    /// A parallel mesh query failed.
    ModelParallelMeshQuery,
    /// The named option does not exist in the engine.
    UnknownOption,
    /// A status code outside those the engine documents.
    UnknownError,
}

/// Result of an operation of this library.
pub type GmshResult<T> = Result<T, GmshError>;

/// The families of engine calls; each reads its status codes its own way.
#[derive(Debug, Clone, Copy, PartialEq, Eq, Structural)]
pub enum CallCategory {
    /// Initialization, model removal, the graphical interface. Model
    /// creation reads its status its own way: -1 is `Initialization` and any
    /// other failure `Execution`.
    TopLevel,
    /// Calls that change or query the contents of a model.
    Model,
    /// Getting and setting named options.
    Option,
}

/// The error kind that a nonzero `status` stands for in a call of `category`.
pub open spec fn error_of(category: CallCategory, status: i32) -> GmshError {
    if status == -1 {
        GmshError::Initialization
    } else {
        match category {
            CallCategory::TopLevel => if status == 1 {
                GmshError::Execution
            } else {
                GmshError::UnknownError
            },
            CallCategory::Model => if status == 1 {
                GmshError::ModelMutation
            } else if status == 2 {
                GmshError::ModelLookup
            } else if status == 3 {
                GmshError::ModelBadInput
            } else if status == 4 {
                GmshError::ModelParallelMeshQuery
            } else {
                GmshError::UnknownError
            },
            CallCategory::Option => if status == 1 {
                GmshError::UnknownOption
            } else {
                GmshError::UnknownError
            },
        }
    }
}

/// What a call of `category` that returned `value` with `status` amounts to:
/// the value on status 0, the error kind of the status otherwise.
pub open spec fn outcome<T>(category: CallCategory, status: i32, value: T) -> Result<T, GmshError> {
    if status == 0 {
        Ok(value)
    } else {
        Err(error_of(category, status))
    }
}

/// A result with its value dropped.
pub open spec fn without_value<T>(r: Result<T, GmshError>) -> Result<(), GmshError> {
    match r {
        Ok(_) => Ok(()),
        Err(e) => Err(e),
    }
}

impl GmshError {
    /// A short description of the error, for messages.
    pub fn message(&self) -> &'static str {
        match self {
            GmshError::Initialization => "the engine is not initialized or a component is missing",
            GmshError::Execution => "an engine operation could not run",
            GmshError::CInterface => "a value cannot cross the foreign-function boundary",
            GmshError::ModelMutation => "the model could not be changed",
            GmshError::ModelLookup => "a lookup in the model failed",
            GmshError::ModelBadInput => "the engine could not use an input",
            GmshError::ModelParallelMeshQuery => "a parallel mesh query failed",
            GmshError::UnknownOption => "the option does not exist",
            GmshError::UnknownError => "the engine returned an unexpected status",
        }
    }
}

/// The result that the status of a call of `category` stands for.
pub fn check_status<T>(category: CallCategory, status: i32, value: T) -> (r: Result<T, GmshError>)
    ensures
        r == outcome(category, status, value),
{
    if status == 0 {
        return Ok(value);
    }
    if status == -1 {
        return Err(GmshError::Initialization);
    }
    let kind = match category {
        CallCategory::TopLevel => if status == 1 {
            GmshError::Execution
        } else {
            GmshError::UnknownError
        },
        CallCategory::Model => if status == 1 {
            GmshError::ModelMutation
        } else if status == 2 {
            GmshError::ModelLookup
        } else if status == 3 {
            GmshError::ModelBadInput
        } else if status == 4 {
            GmshError::ModelParallelMeshQuery
        } else {
            GmshError::UnknownError
        },
        CallCategory::Option => if status == 1 {
            GmshError::UnknownOption
        } else {
            GmshError::UnknownError
        },
    };
    Err(kind)
}

/// Status of a top-level call: initialization, files, model creation.
pub fn check_main_error<T>(status: i32, value: T) -> (r: Result<T, GmshError>)
    ensures
        r == outcome(CallCategory::TopLevel, status, value),
{
    check_status(CallCategory::TopLevel, status, value)
}

/// Status of a call that changes or queries a model.
pub fn check_model_error<T>(status: i32, value: T) -> (r: Result<T, GmshError>)
    ensures
        r == outcome(CallCategory::Model, status, value),
{
    check_status(CallCategory::Model, status, value)
}

/// Status of an option getter or setter.
pub fn check_option_error<T>(status: i32, value: T) -> (r: Result<T, GmshError>)
    ensures
        r == outcome(CallCategory::Option, status, value),
{
    check_status(CallCategory::Option, status, value)
}

} // verus!
