//! The mount registry behind the management interface: the payloads it
//! exchanges, the errors it reports, and the service that keeps the table of
//! active mounts.

pub mod clock;
pub mod error;
pub mod ident;
pub mod laws;
pub mod model;
pub mod service;

pub use self::clock::current_epoch_ms;
pub use self::error::{ApiError, ErrorBody, ServiceError};
pub use self::model::{
    CreateMountRequest, HealthResponse, MountCollection, MountCreated, MountLayers,
    MountLifecycle, MountStatus,
};
pub use self::service::{AntaresServiceImpl, CreateOutcome, MountEntry, PendingMount};
