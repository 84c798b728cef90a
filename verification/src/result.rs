//! Results carrying a `TsrcError`, and helpers that turn options and other results
//! into them.
use crate::error::{io_error_message, TsrcError};
use vstd::prelude::*;

verus! {

/// A result whose error is a `TsrcError`.
pub type TsrcResult<T> = Result<T, TsrcError>;

/// Turning an option into a `TsrcResult`.
pub trait OptionExt<T>: Sized {
    /// The value, or the given error when there is none.
    fn ok_or_tsrc(self, error: TsrcError) -> TsrcResult<T>;

    /// The value, or an internal error with the message when there is none.
    fn ok_or_internal_error(self, message: &str) -> TsrcResult<T>;

    /// The value, or a validation error of the field when there is none.
    fn ok_or_validation_error(self, field: &str, message: &str) -> TsrcResult<T>;
}

impl<T> OptionExt<T> for Option<T> {
    fn ok_or_tsrc(self, error: TsrcError) -> (r: TsrcResult<T>)
        ensures
            r == (match self {
                Some(v) => Ok::<T, TsrcError>(v),
                None => Err(error),
            }),
    {
        match self {
            Some(v) => Ok(v),
            None => Err(error),
        }
    }

    fn ok_or_internal_error(self, message: &str) -> (r: TsrcResult<T>)
        ensures
            match self {
                Some(v) => r == Ok::<T, TsrcError>(v),
                None => r matches Err(TsrcError::InternalError { message: m, source: None }) && m@ == message@,
            },
    {
        match self {
            Some(v) => Ok(v),
            None => Err(TsrcError::internal_error(message)),
        }
    }

    fn ok_or_validation_error(self, field: &str, message: &str) -> (r: TsrcResult<T>)
        ensures
            match self {
                Some(v) => r == Ok::<T, TsrcError>(v),
                None => r matches Err(TsrcError::ValidationError { field: f, message: m, value: None })
                    && f@ == field@ && m@ == message@,
            },
    {
        match self {
            Some(v) => Ok(v),
            None => Err(TsrcError::validation_error(field, message, None)),
        }
    }
}

/// Turning a result with another error into a `TsrcResult`.
pub trait ResultExt<T, E>: Sized {
    /// The value, or the error mapped by `f`.
    fn map_tsrc_err<F: FnOnce(E) -> TsrcError>(self, f: F) -> TsrcResult<T>
        requires
            forall|e: E| call_requires(f, (e,)),
    ;

    /// The value, or an internal error with the message, caused by the error.
    fn with_internal_error(self, message: &str) -> TsrcResult<T>;

    /// The value, or a Git error with the message.
    fn with_git_error(self, message: &str) -> TsrcResult<T>;

    /// The value, or a file system error with the message and path, caused by the error.
    fn with_filesystem_error(self, message: &str, path: Option<String>) -> TsrcResult<T>;
}

impl<T> ResultExt<T, std::io::Error> for Result<T, std::io::Error> {
    fn map_tsrc_err<F: FnOnce(std::io::Error) -> TsrcError>(self, f: F) -> (r: TsrcResult<T>)
        ensures
            match self {
                Ok(v) => r == Ok::<T, TsrcError>(v),
                Err(e) => r matches Err(x) && call_ensures(f, (e,), x),
            },
    {
        match self {
            Ok(v) => Ok(v),
            Err(e) => Err(f(e)),
        }
    }

    fn with_internal_error(self, message: &str) -> (r: TsrcResult<T>)
        ensures
            match self {
                Ok(v) => r == Ok::<T, TsrcError>(v),
                Err(_) => r matches Err(TsrcError::InternalError { message: m, source: Some(_) }) && m@ == message@,
            },
    {
        match self {
            Ok(v) => Ok(v),
            Err(e) => {
                let s = io_error_message(&e);
                Err(TsrcError::internal_error_with_source(message, s))
            },
        }
    }

    /// An I/O error never converts into a Git error, so the error is always a new
    /// Git error with the message.
    fn with_git_error(self, message: &str) -> (r: TsrcResult<T>)
        ensures
            match self {
                Ok(v) => r == Ok::<T, TsrcError>(v),
                Err(_) => r matches Err(TsrcError::GitError { message: m, source: None }) && m@ == message@,
            },
    {
        match self {
            Ok(v) => Ok(v),
            Err(_) => Err(TsrcError::git_error(message)),
        }
    }

    fn with_filesystem_error(self, message: &str, path: Option<String>) -> (r: TsrcResult<T>)
        ensures
            match self {
                Ok(v) => r == Ok::<T, TsrcError>(v),
                Err(_) => r matches Err(TsrcError::FileSystemError { message: m, path: p, source: Some(_) })
                    && m@ == message@ && p == path,
            },
    {
        match self {
            Ok(v) => Ok(v),
            Err(e) => {
                let s = io_error_message(&e);
                Err(TsrcError::filesystem_error_with_source(message, path, s))
            },
        }
    }
}

/// Working on a `TsrcResult`.
pub trait TsrcResultExt<T>: Sized {
    /// The value, or an internal error with the context, caused by the error.
    fn with_context(self, context: &str) -> TsrcResult<T>;

    /// The value, if any.
    fn to_option_logged(self) -> Option<T>;

    /// The value, or the default of its type.
    fn unwrap_or_default_logged(self) -> T
        where T: Default;
}

impl<T> TsrcResultExt<T> for TsrcResult<T> {
    fn with_context(self, context: &str) -> (r: TsrcResult<T>)
        ensures
            match self {
                Ok(v) => r == Ok::<T, TsrcError>(v),
                Err(e) => r matches Err(TsrcError::InternalError { message: m, source: Some(s) })
                    && m@ == context@ && s@ == crate::error::tsrc_error_text(e),
            },
    {
        match self {
            Ok(v) => Ok(v),
            Err(e) => {
                let s = e.to_string();
                Err(TsrcError::internal_error_with_source(context, s))
            },
        }
    }

    fn to_option_logged(self) -> (r: Option<T>)
        ensures
            r == (match self {
                Ok(v) => Some(v),
                Err(_) => None::<T>,
            }),
    {
        match self {
            Ok(v) => Some(v),
            Err(_) => None,
        }
    }

    fn unwrap_or_default_logged(self) -> (r: T)
        where T: Default
        ensures
            self matches Ok(v) ==> r == v,
    {
        match self {
            Ok(v) => v,
            Err(_) => T::default(),
        }
    }
}

} // verus!
