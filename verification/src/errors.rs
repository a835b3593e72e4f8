use vstd::prelude::*;

verus! {

/// Failure of one provisioning step. A single failure aborts the whole
/// operation; no partial-success state is recovered automatically.
#[derive(Clone, Copy, Debug, PartialEq, Eq, Structural)]
pub enum ProvisionError {
    /// Creating the working directory or materializing the entrypoint failed.
    FilesystemFailed,
    /// The external interpreter could not create the isolated environment.
    EnvironmentCreationFailed,
    /// The package installer could not install the fixed dependency set.
    DependencyInstallFailed,
}

/// Failure to launch an instance's process.
#[derive(Clone, Copy, Debug, PartialEq, Eq, Structural)]
pub enum StartError {
    /// The process could not be spawned at all.
    SpawnFailed,
    /// No stored instance matches the requested id.
    InstanceNotFound,
}

/// Failure of a registry refresh.
#[derive(Clone, Copy, Debug, PartialEq, Eq, Structural)]
pub enum RefreshError {
    /// The registry could not be fetched, or its body is not a JSON array.
    FetchFailed,
    /// Some element of the registry is missing a required field.
    DecodeFailed,
}

/// Failure inside the persistence backend.
#[derive(Clone, Copy, Debug, PartialEq, Eq, Structural)]
pub enum PersistenceError {
    /// A transaction could not run to completion and was rolled back.
    TransactionFailed,
}

} // verus!
