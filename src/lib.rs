//! A publish/subscribe broker core: a registry of named broadcast channels,
//! parsing of attach requests, and the per-connection client engine's decisions.

pub mod channel;
pub mod engine;
pub mod ids;
pub mod registry;
pub mod role;

pub use channel::Channel;
pub use engine::{check_attach, BusEvent, EngineState, ForwardStep, Frame, PublisherStep, Session};
pub use ids::parse_uuids;
pub use registry::{ChannelInfo, CreateError, Registry};
pub use role::{AttachError, ClientRole, InvalidRole};
