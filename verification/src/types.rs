//! The data that the library works on: records, run specifications, requests
//! and the structured failure of a create or update.

pub mod database;
pub mod docker;
pub mod errors;
pub mod requests;
pub mod settings;

pub use database::{DatabaseContainer, DatabaseContainerView, DatabaseStore};
pub use docker::{
    ContainerMetadata, ContainerMetadataView, DockerRunArgs, DockerRunArgsView, DockerRunRequest,
    DockerRunRequestView, EnvVars, PortMapping, VolumeMount, VolumeMountView,
};
pub use errors::{CreateContainerError, CreateContainerErrorView};
pub use requests::{
    CreateDatabaseRequest, CreateDatabaseRequestView, UpdateContainerRequest,
    UpdateContainerRequestView,
};
pub use settings::{MongoSettings, MysqlSettings, PostgresSettings, RedisSettings};
