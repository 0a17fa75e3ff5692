use vstd::prelude::*;

use crate::object_type::ObjectType;

verus! {

/// An identifier that the server assigned to an object: an opaque string,
/// sent on the wire as it is.
pub trait XoObjectId: Sized {
    /// The string that stands for this identifier on the wire.
    spec fn wire(&self) -> Seq<char>;

    fn to_wire(&self) -> (r: String)
        ensures
            r@ == self.wire(),
    ;

    /// The identifier that a wire string stands for.
    fn from_wire(s: String) -> (r: Self)
        ensures
            r.wire() == s@,
    ;
}

/// A kind of object that the server holds: it has one wire type tag and one
/// identifier type.
pub trait XoObject: Sized {
    type IdType: XoObjectId;

    spec fn spec_object_type() -> ObjectType;

    fn object_type() -> (r: ObjectType)
        ensures
            r == Self::spec_object_type(),
    ;
}

/// Unique id of a virtual machine
#[derive(Debug, Clone, PartialEq, Eq, PartialOrd, Ord, Hash)]
pub struct VmId(pub String);

impl VmId {
    pub fn new(id: String) -> (r: VmId)
        ensures
            r.0@ == id@,
    {
        VmId(id)
    }

    pub fn as_str(&self) -> (r: &str)
        ensures
            r@ == self.0@,
    {
        self.0.as_str()
    }

    pub fn into_string(self) -> (r: String)
        ensures
            r@ == self.0@,
    {
        self.0
    }
}

impl XoObjectId for VmId {
    open spec fn wire(&self) -> Seq<char> {
        self.0@
    }

    fn to_wire(&self) -> (r: String) {
        self.0.clone()
    }

    fn from_wire(s: String) -> (r: Self) {
        VmId(s)
    }
}

/// Unique id of a virtual machine snapshot
#[derive(Debug, Clone, PartialEq, Eq, PartialOrd, Ord, Hash)]
pub struct SnapshotId(pub String);

impl SnapshotId {
    pub fn new(id: String) -> (r: SnapshotId)
        ensures
            r.0@ == id@,
    {
        SnapshotId(id)
    }

    pub fn as_str(&self) -> (r: &str)
        ensures
            r@ == self.0@,
    {
        self.0.as_str()
    }

    pub fn into_string(self) -> (r: String)
        ensures
            r@ == self.0@,
    {
        self.0
    }
}

impl XoObjectId for SnapshotId {
    open spec fn wire(&self) -> Seq<char> {
        self.0@
    }

    fn to_wire(&self) -> (r: String) {
        self.0.clone()
    }

    fn from_wire(s: String) -> (r: Self) {
        SnapshotId(s)
    }
}

/// Unique id of a virtual machine template
#[derive(Debug, Clone, PartialEq, Eq, PartialOrd, Ord, Hash)]
pub struct TemplateId(pub String);

impl TemplateId {
    pub fn new(id: String) -> (r: TemplateId)
        ensures
            r.0@ == id@,
    {
        TemplateId(id)
    }

    pub fn as_str(&self) -> (r: &str)
        ensures
            r@ == self.0@,
    {
        self.0.as_str()
    }

    pub fn into_string(self) -> (r: String)
        ensures
            r@ == self.0@,
    {
        self.0
    }
}

impl XoObjectId for TemplateId {
    open spec fn wire(&self) -> Seq<char> {
        self.0@
    }

    fn to_wire(&self) -> (r: String) {
        self.0.clone()
    }

    fn from_wire(s: String) -> (r: Self) {
        TemplateId(s)
    }
}

/// Unique id of a virtual disk
#[derive(Debug, Clone, PartialEq, Eq, PartialOrd, Ord, Hash)]
pub struct VdiId(pub String);

impl VdiId {
    pub fn new(id: String) -> (r: VdiId)
        ensures
            r.0@ == id@,
    {
        VdiId(id)
    }

    pub fn as_str(&self) -> (r: &str)
        ensures
            r@ == self.0@,
    {
        self.0.as_str()
    }

    pub fn into_string(self) -> (r: String)
        ensures
            r@ == self.0@,
    {
        self.0
    }
}

impl XoObjectId for VdiId {
    open spec fn wire(&self) -> Seq<char> {
        self.0@
    }

    fn to_wire(&self) -> (r: String) {
        self.0.clone()
    }

    fn from_wire(s: String) -> (r: Self) {
        VdiId(s)
    }
}

/// Unique id of a disk attachment, the link between a VM or template and a disk
#[derive(Debug, Clone, PartialEq, Eq, PartialOrd, Ord, Hash)]
pub struct VbdId(pub String);

impl VbdId {
    pub fn new(id: String) -> (r: VbdId)
        ensures
            r.0@ == id@,
    {
        VbdId(id)
    }

    pub fn as_str(&self) -> (r: &str)
        ensures
            r@ == self.0@,
    {
        self.0.as_str()
    }

    pub fn into_string(self) -> (r: String)
        ensures
            r@ == self.0@,
    {
        self.0
    }
}

impl XoObjectId for VbdId {
    open spec fn wire(&self) -> Seq<char> {
        self.0@
    }

    fn to_wire(&self) -> (r: String) {
        self.0.clone()
    }

    fn from_wire(s: String) -> (r: Self) {
        VbdId(s)
    }
}

/// Unique id of a virtual network interface
#[derive(Debug, Clone, PartialEq, Eq, PartialOrd, Ord, Hash)]
pub struct VifId(pub String);

impl VifId {
    pub fn new(id: String) -> (r: VifId)
        ensures
            r.0@ == id@,
    {
        VifId(id)
    }

    pub fn as_str(&self) -> (r: &str)
        ensures
            r@ == self.0@,
    {
        self.0.as_str()
    }

    pub fn into_string(self) -> (r: String)
        ensures
            r@ == self.0@,
    {
        self.0
    }
}

impl XoObjectId for VifId {
    open spec fn wire(&self) -> Seq<char> {
        self.0@
    }

    fn to_wire(&self) -> (r: String) {
        self.0.clone()
    }

    fn from_wire(s: String) -> (r: Self) {
        VifId(s)
    }
}

/// Unique id of a storage repository
#[derive(Debug, Clone, PartialEq, Eq, PartialOrd, Ord, Hash)]
pub struct SrId(pub String);

impl SrId {
    pub fn new(id: String) -> (r: SrId)
        ensures
            r.0@ == id@,
    {
        SrId(id)
    }

    pub fn as_str(&self) -> (r: &str)
        ensures
            r@ == self.0@,
    {
        self.0.as_str()
    }

    pub fn into_string(self) -> (r: String)
        ensures
            r@ == self.0@,
    {
        self.0
    }
}

impl XoObjectId for SrId {
    open spec fn wire(&self) -> Seq<char> {
        self.0@
    }

    fn to_wire(&self) -> (r: String) {
        self.0.clone()
    }

    fn from_wire(s: String) -> (r: Self) {
        SrId(s)
    }
}

/// Unique id of a network
#[derive(Debug, Clone, PartialEq, Eq, PartialOrd, Ord, Hash)]
pub struct NetworkId(pub String);

impl NetworkId {
    pub fn new(id: String) -> (r: NetworkId)
        ensures
            r.0@ == id@,
    {
        NetworkId(id)
    }

    pub fn as_str(&self) -> (r: &str)
        ensures
            r@ == self.0@,
    {
        self.0.as_str()
    }

    pub fn into_string(self) -> (r: String)
        ensures
            r@ == self.0@,
    {
        self.0
    }
}

impl XoObjectId for NetworkId {
    open spec fn wire(&self) -> Seq<char> {
        self.0@
    }

    fn to_wire(&self) -> (r: String) {
        self.0.clone()
    }

    fn from_wire(s: String) -> (r: Self) {
        NetworkId(s)
    }
}

/// Id of either a virtual machine or a snapshot: the operations that act on
/// both kinds, such as deletion, take it
#[derive(Debug, Clone, PartialEq, Eq, PartialOrd, Ord, Hash)]
pub struct VmOrSnapshotId(pub String);

impl VmOrSnapshotId {
    pub fn new(id: String) -> (r: VmOrSnapshotId)
        ensures
            r.0@ == id@,
    {
        VmOrSnapshotId(id)
    }

    pub fn as_str(&self) -> (r: &str)
        ensures
            r@ == self.0@,
    {
        self.0.as_str()
    }

    pub fn into_string(self) -> (r: String)
        ensures
            r@ == self.0@,
    {
        self.0
    }
}

impl XoObjectId for VmOrSnapshotId {
    open spec fn wire(&self) -> Seq<char> {
        self.0@
    }

    fn to_wire(&self) -> (r: String) {
        self.0.clone()
    }

    fn from_wire(s: String) -> (r: Self) {
        VmOrSnapshotId(s)
    }
}

impl From<VmId> for VmOrSnapshotId {
    fn from(id: VmId) -> (r: VmOrSnapshotId)
        ensures
            r.0@ == id.0@,
    {
        VmOrSnapshotId(id.0)
    }
}

impl vstd::std_specs::convert::FromSpecImpl<VmId> for VmOrSnapshotId {
    open spec fn obeys_from_spec() -> bool {
        true
    }

    open spec fn from_spec(id: VmId) -> VmOrSnapshotId {
        VmOrSnapshotId(id.0)
    }
}

impl From<SnapshotId> for VmOrSnapshotId {
    fn from(id: SnapshotId) -> (r: VmOrSnapshotId)
        ensures
            r.0@ == id.0@,
    {
        VmOrSnapshotId(id.0)
    }
}

impl vstd::std_specs::convert::FromSpecImpl<SnapshotId> for VmOrSnapshotId {
    open spec fn obeys_from_spec() -> bool {
        true
    }

    open spec fn from_spec(id: SnapshotId) -> VmOrSnapshotId {
        VmOrSnapshotId(id.0)
    }
}

} // verus!
