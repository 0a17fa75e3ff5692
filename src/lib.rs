//! Typed client model for the Xen Orchestra JSON-RPC API: identifiers and
//! object-type tags, entity records, the decisions of the query and mutation
//! protocols, and the draft request that creates a VM from a template.

pub mod credentials;
pub mod draft;
pub mod filter;
pub mod ids;
pub mod mutation;
pub mod object_type;
pub mod query;
pub mod records;
pub mod rpc;
pub mod string_map;
pub mod text;
pub mod vm;

pub use draft::{
    DiskMode, GrowVdiFromTemplateError, NewDisk, NewVmArgs, NoSuchDiskError, PartialVdi,
    PartialVif, ResolvedAttachment,
};
pub use filter::{Filter, FilterValue};
pub use ids::{
    NetworkId, SnapshotId, SrId, TemplateId, VbdId, VdiId, VifId, VmId, VmOrSnapshotId,
    XoObject, XoObjectId,
};
pub use mutation::{RestartError, RevertSnapshotError};
pub use object_type::ObjectType;
pub use query::{GetAllObjectsArgs, GetSingleObjectError};
pub use records::{Snapshot, Template, Vbd, Vdi, Vif};
pub use rpc::RpcError;
pub use string_map::StringMap;
pub use vm::{OtherInfo, PowerState, Vm};
