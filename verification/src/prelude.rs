//! The items that most users of the library need.

pub use crate::components::ComponentDomain;
pub use crate::components::ComponentName;
pub use crate::components::ComponentRepositoryInner;
pub use crate::components::MoonbaseComponent;
pub use crate::context::FromContext;
pub use crate::daemon::Daemon;
pub use crate::daemon::DaemonAction;
pub use crate::daemon::DaemonError;
pub use crate::daemon::DaemonEvent;
pub use crate::daemon::DaemonHandle;
pub use crate::daemon::DaemonStatus;
pub use crate::daemon::RestartPolicy;
pub use crate::resource::MoonbaseResource;
pub use crate::resource::Resource;
pub use crate::resource::ResourceRepositoryInner;
pub use crate::signal::Signal;
pub use crate::signal::SignalKey;
pub use crate::signal::SignalSender;
pub use crate::signal::TypedSignal;
pub use crate::signal::WaitingSignal;
pub use crate::utils::TypeTag;
pub use crate::AppContext;
pub use crate::Moonbase;
