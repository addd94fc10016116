//! Configuration values that select where a viewer reads its records from.

use vstd::prelude::*;

verus! {

/// Which output channels of a container are followed.
#[derive(Clone, Copy, Debug, PartialEq, Eq, Structural)]
pub enum LogSource {
    Stdout,
    Stderr,
    All,
}

impl LogSource {
    /// Whether records written to standard output are included.
    pub fn includes_stdout(&self) -> (r: bool)
        ensures
            r == (*self == LogSource::Stdout || *self == LogSource::All),
    {
        match self {
            LogSource::Stdout => true,
            LogSource::All => true,
            LogSource::Stderr => false,
        }
    }

    /// Whether records written to standard error are included.
    pub fn includes_stderr(&self) -> (r: bool)
        ensures
            r == (*self == LogSource::Stderr || *self == LogSource::All),
    {
        match self {
            LogSource::Stderr => true,
            LogSource::All => true,
            LogSource::Stdout => false,
        }
    }
}

/// Command-line form of [`LogSource`].
#[derive(Clone, Copy, Debug, PartialEq, Eq, Structural)]
pub enum ContainerLogSource {
    Stdout,
    Stderr,
    All,
}

impl ContainerLogSource {
    /// The pipeline-side source this selection stands for.
    pub fn to_log_source(&self) -> (r: LogSource)
        ensures
            *self == ContainerLogSource::Stdout ==> r == LogSource::Stdout,
            *self == ContainerLogSource::Stderr ==> r == LogSource::Stderr,
            *self == ContainerLogSource::All ==> r == LogSource::All,
    {
        match self {
            ContainerLogSource::Stdout => LogSource::Stdout,
            ContainerLogSource::Stderr => LogSource::Stderr,
            ContainerLogSource::All => LogSource::All,
        }
    }
}

/// Which transport a viewer connects over.
#[derive(Clone, Debug)]
pub enum Tranport {
    Ipc { app_name: String },
    Tcp { address: String },
    Container { name: String, log_source: ContainerLogSource },
}

} // verus!
