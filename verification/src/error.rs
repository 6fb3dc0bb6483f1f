//! The errors that the managers report.

use vstd::prelude::*;
use crate::types::{Window, WorkspaceIndex};

verus! {

/// The errors of managers that know tiles only.
#[derive(Clone, Copy, Debug, PartialEq, Eq, Structural)]
pub enum StandardError {
    /// This window is not known by the manager.
    UnknownWindow(Window),
    /// This window is already managed by the manager.
    AlReadyManagedWindow(Window),
}

/// The errors of managers that know floating windows too.
#[derive(Clone, Copy, Debug, PartialEq, Eq, Structural)]
pub enum FloatWMError {
    /// This window is not known by the manager.
    UnknownWindow(Window),
    /// This window is already managed by the manager.
    AlReadyManagedWindow(Window),
    /// This window is not floating.
    NotFloatingWindow(Window),
}

/// The errors of a manager of several workspaces.
#[derive(Clone, Copy, Debug, PartialEq, Eq, Structural)]
pub enum MultiWorkspaceError {
    /// There is no workspace at this index, and it is not the next free
    /// one either.
    WorkspaceIndexOutOfBound(WorkspaceIndex),
    /// The window manager of the current workspace reported an error.
    WrappedError,
}

impl StandardError {
    /// The same error among the errors of a floating manager.
    pub open spec fn widened(self) -> FloatWMError {
        match self {
            StandardError::UnknownWindow(w) => FloatWMError::UnknownWindow(w),
            StandardError::AlReadyManagedWindow(w) => FloatWMError::AlReadyManagedWindow(w),
        }
    }

    /// Converts the error into the same error of a floating manager.
    pub fn to_float_error(&self) -> (e: FloatWMError)
        ensures
            e == self.widened(),
    {
        match *self {
            StandardError::UnknownWindow(w) => FloatWMError::UnknownWindow(w),
            StandardError::AlReadyManagedWindow(w) => FloatWMError::AlReadyManagedWindow(w),
        }
    }

    /// A short description of the error.
    pub fn description(&self) -> (s: &'static str)
        ensures
            s == match *self {
                StandardError::UnknownWindow(_) => "Unknown window",
                StandardError::AlReadyManagedWindow(_) => "Already managed window",
            },
    {
        match *self {
            StandardError::UnknownWindow(_) => "Unknown window",
            StandardError::AlReadyManagedWindow(_) => "Already managed window",
        }
    }
}

impl FloatWMError {
    /// A short description of the error.
    pub fn description(&self) -> (s: &'static str)
        ensures
            s == match *self {
                FloatWMError::UnknownWindow(_) => "Unknown window",
                FloatWMError::AlReadyManagedWindow(_) => "Already managed window",
                FloatWMError::NotFloatingWindow(_) => "Not Floating window",
            },
    {
        match *self {
            FloatWMError::UnknownWindow(_) => "Unknown window",
            FloatWMError::AlReadyManagedWindow(_) => "Already managed window",
            FloatWMError::NotFloatingWindow(_) => "Not Floating window",
        }
    }
}

} // verus!
