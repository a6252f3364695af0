//! Declarative services: signature checks for read and write entry points,
//! a name-keyed dispatch table built from them, and cycle metering on each
//! dispatched call.
pub mod binder;
pub mod context;
pub mod dispatch;
pub mod error;
pub mod laws;
pub mod signature;

pub use binder::{cycles, hook_after, hook_before, read, service, MethodSpec, ServiceSpec};
pub use context::{CallContext, RequestContext};
pub use dispatch::{charge_cycles, Service};
pub use error::{BindError, ProtocolError, SignatureError, SignatureRule};
pub use signature::{check_signature, MethodDecl, Receiver, ReturnType, Role, TypeParam, Visibility};
