//! The services of the library: the command builder and the engine gateway,
//! the reconciler, and the conversions around the persistent store.

pub mod docker;
pub mod engine;
pub mod listing;
pub mod reconcile;
pub mod status;
pub mod storage;

pub use docker::DockerService;
pub use storage::StorageService;
