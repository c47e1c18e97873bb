//! The one error type of a run.

use vstd::prelude::*;

verus! {

/// Why a run ended without the application having run to its end.
///
/// Failures that the pipeline gets over (a runtime that is already installed)
/// never become a value of this type: they are counted as warnings.
#[derive(Clone, Debug, PartialEq, Eq)]
pub enum FlatrunError {
    /// The bundle file does not exist. Holds the path that was asked for.
    FileNotFound(String),
    /// The reference could not be resolved: the manifest could not be read, or
    /// it names no runtime in the form `id/arch/branch`.
    Resolution(String),
    /// The repository could not be opened, or the remote could not be added.
    Repository(String),
    /// A transaction failed for good.
    Transaction(String),
    /// The application could not be started.
    Launch(String),
    /// The command line asks for something that cannot be done.
    CommandUnsuccessful(String),
}

/// The stage of a run at which an error arises.
#[derive(Clone, Copy, Debug, PartialEq, Eq, Structural)]
pub enum ErrorClass {
    /// Before any transaction is opened.
    Input,
    /// While the repository is set up or a transaction runs.
    Install,
    /// While the application is started.
    Launch,
    /// Before the run begins.
    Usage,
}

impl FlatrunError {
    /// The stage at which this error arises.
    pub open spec fn class_of(self) -> ErrorClass {
        match self {
            FlatrunError::FileNotFound(_) => ErrorClass::Input,
            FlatrunError::Resolution(_) => ErrorClass::Input,
            FlatrunError::Repository(_) => ErrorClass::Install,
            FlatrunError::Transaction(_) => ErrorClass::Install,
            FlatrunError::Launch(_) => ErrorClass::Launch,
            FlatrunError::CommandUnsuccessful(_) => ErrorClass::Usage,
        }
    }

    /// The text that the error carries.
    pub open spec fn text_of(self) -> Seq<char> {
        match self {
            FlatrunError::FileNotFound(t) => t@,
            FlatrunError::Resolution(t) => t@,
            FlatrunError::Repository(t) => t@,
            FlatrunError::Transaction(t) => t@,
            FlatrunError::Launch(t) => t@,
            FlatrunError::CommandUnsuccessful(t) => t@,
        }
    }

    /// The stage at which this error arises.
    pub fn class(&self) -> (c: ErrorClass)
        ensures
            c == self.class_of(),
    {
        match self {
            FlatrunError::FileNotFound(_) => ErrorClass::Input,
            FlatrunError::Resolution(_) => ErrorClass::Input,
            FlatrunError::Repository(_) => ErrorClass::Install,
            FlatrunError::Transaction(_) => ErrorClass::Install,
            FlatrunError::Launch(_) => ErrorClass::Launch,
            FlatrunError::CommandUnsuccessful(_) => ErrorClass::Usage,
        }
    }

    /// The text that the error carries: a path, or what the engine said.
    pub fn text(&self) -> (t: String)
        ensures
            t@ == self.text_of(),
    {
        match self {
            FlatrunError::FileNotFound(t) => t.clone(),
            FlatrunError::Resolution(t) => t.clone(),
            FlatrunError::Repository(t) => t.clone(),
            FlatrunError::Transaction(t) => t.clone(),
            FlatrunError::Launch(t) => t.clone(),
            FlatrunError::CommandUnsuccessful(t) => t.clone(),
        }
    }
}

} // verus!
