//! The failures a filesystem layer reports, as OS-style error codes.

use vstd::prelude::*;
use vstd::string::StringExecFns;

verus! {

/// `ENOENT`: no such entry.
pub const ENOENT: i32 = 2;

/// `EIO`: the backend failed.
pub const EIO: i32 = 5;

/// `EINVAL`: the request is malformed.
pub const EINVAL: i32 = 22;

/// `ENOSYS`: the layer lacks the capability.
pub const ENOSYS: i32 = 38;

/// Why a layer or an engine could not serve an operation.
#[derive(Debug)]
pub enum FsError {
    /// The inode, name or path does not resolve.
    NotFound,
    /// The layer does not implement the capability that was asked for.
    NotImplemented,
    /// The request itself is not acceptable.
    InvalidRequest(String),
    /// A mount syscall or a store fetch failed; the text is the backend's own.
    BackendFailure(String),
}

/// The mathematical value of an [`FsError`].
pub enum FsErrorView {
    NotFound,
    NotImplemented,
    InvalidRequest(Seq<char>),
    BackendFailure(Seq<char>),
}

impl View for FsError {
    type V = FsErrorView;

    open spec fn view(&self) -> FsErrorView {
        match self {
            FsError::NotFound => FsErrorView::NotFound,
            FsError::NotImplemented => FsErrorView::NotImplemented,
            FsError::InvalidRequest(m) => FsErrorView::InvalidRequest(m@),
            FsError::BackendFailure(m) => FsErrorView::BackendFailure(m@),
        }
    }
}

impl FsErrorView {
    /// The OS error number that stands for this failure.
    pub open spec fn errno(self) -> i32 {
        match self {
            FsErrorView::NotFound => ENOENT,
            FsErrorView::NotImplemented => ENOSYS,
            FsErrorView::InvalidRequest(_) => EINVAL,
            FsErrorView::BackendFailure(_) => EIO,
        }
    }

    /// The text shown to a person.
    pub open spec fn message(self) -> Seq<char> {
        match self {
            FsErrorView::NotFound => "no such entry"@,
            FsErrorView::NotImplemented => "function not implemented"@,
            FsErrorView::InvalidRequest(m) => m,
            FsErrorView::BackendFailure(m) => m,
        }
    }
}

impl Clone for FsError {
    fn clone(&self) -> (r: Self)
        ensures
            r@ == self@,
    {
        match self {
            FsError::NotFound => FsError::NotFound,
            FsError::NotImplemented => FsError::NotImplemented,
            FsError::InvalidRequest(m) => FsError::InvalidRequest(m.clone()),
            FsError::BackendFailure(m) => FsError::BackendFailure(m.clone()),
        }
    }
}

impl FsError {
    /// The OS error number carried to filesystem callers.
    pub fn errno(&self) -> (code: i32)
        ensures
            code == self@.errno(),
    {
        match self {
            FsError::NotFound => ENOENT,
            FsError::NotImplemented => ENOSYS,
            FsError::InvalidRequest(_) => EINVAL,
            FsError::BackendFailure(_) => EIO,
        }
    }

    /// The text shown to a person.
    pub fn message(&self) -> (text: String)
        ensures
            text@ == self@.message(),
    {
        match self {
            FsError::NotFound => String::from_str("no such entry"),
            FsError::NotImplemented => String::from_str("function not implemented"),
            FsError::InvalidRequest(m) => m.clone(),
            FsError::BackendFailure(m) => m.clone(),
        }
    }

    /// Whether this is the failure of a missing capability.
    pub fn is_not_implemented(&self) -> (b: bool)
        ensures
            b == (self@ == FsErrorView::NotImplemented),
    {
        match self {
            FsError::NotImplemented => true,
            _ => false,
        }
    }
}

/// Two failures never share an error number unless they are of the same kind.
pub proof fn errno_tells_kinds_apart(a: FsErrorView, b: FsErrorView)
    requires
        a.errno() == b.errno(),
    ensures
        a is NotFound <==> b is NotFound,
        a is NotImplemented <==> b is NotImplemented,
        a is InvalidRequest <==> b is InvalidRequest,
        a is BackendFailure <==> b is BackendFailure,
{
}

} // verus!
