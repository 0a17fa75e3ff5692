use vstd::prelude::*;

use crate::ids::{
    NetworkId, SnapshotId, SrId, TemplateId, VbdId, VdiId, VifId, XoObject,
};
use crate::object_type::ObjectType;

verus! {

/// Type representing snapshot of a VM
#[derive(Debug)]
pub struct Snapshot {
    pub id: SnapshotId,
    pub name_label: String,
    pub name_description: String,
}

impl XoObject for Snapshot {
    type IdType = SnapshotId;

    open spec fn spec_object_type() -> ObjectType {
        ObjectType::VmSnapshot
    }

    fn object_type() -> (r: ObjectType) {
        ObjectType::VmSnapshot
    }
}

/// A VM template: what a new VM is created from. It lists the disk
/// attachments and network interfaces that a VM made from it inherits.
#[derive(Debug)]
pub struct Template {
    pub id: TemplateId,
    pub name_label: String,
    pub name_description: String,
    /// The template's disk attachments, in the server's order.
    pub vbds: Vec<VbdId>,
    /// The template's network interfaces, in the server's order.
    pub vifs: Vec<VifId>,
}

impl XoObject for Template {
    type IdType = TemplateId;

    open spec fn spec_object_type() -> ObjectType {
        ObjectType::VmTemplate
    }

    fn object_type() -> (r: ObjectType) {
        ObjectType::VmTemplate
    }
}

/// A virtual disk.
#[derive(Debug)]
pub struct Vdi {
    pub id: VdiId,
    pub name_label: String,
    pub name_description: String,
    /// Size in bytes
    pub size: usize,
    /// The storage repository that holds the disk
    pub sr: SrId,
}

impl XoObject for Vdi {
    type IdType = VdiId;

    open spec fn spec_object_type() -> ObjectType {
        ObjectType::Vdi
    }

    fn object_type() -> (r: ObjectType) {
        ObjectType::Vdi
    }
}

/// A disk attachment: the link between a VM (or template) and a disk, at a
/// position of the VM's disk slots.
#[derive(Debug)]
pub struct Vbd {
    pub id: VbdId,
    /// The slot that the disk occupies
    pub position: usize,
    /// The attached disk
    pub vdi: VdiId,
    /// Whether this is a removable, CD-style attachment
    pub is_cd_drive: bool,
}

impl XoObject for Vbd {
    type IdType = VbdId;

    open spec fn spec_object_type() -> ObjectType {
        ObjectType::Vbd
    }

    fn object_type() -> (r: ObjectType) {
        ObjectType::Vbd
    }
}

impl Vbd {
    /// The disk that a VM made from a template inherits through this
    /// attachment: none for a CD-style attachment, else the attached disk.
    pub fn inherited_disk_id(&self) -> (r: Option<VdiId>)
        ensures
            self.is_cd_drive ==> r is None,
            !self.is_cd_drive ==> (r matches Some(id) && id.0@ == self.vdi.0@),
    {
        if self.is_cd_drive {
            None
        } else {
            Some(VdiId(self.vdi.0.clone()))
        }
    }
}

/// A virtual network interface.
#[derive(Debug)]
pub struct Vif {
    pub id: VifId,
    /// The network that the interface is connected to
    pub network: NetworkId,
}

impl XoObject for Vif {
    type IdType = VifId;

    open spec fn spec_object_type() -> ObjectType {
        ObjectType::Vif
    }

    fn object_type() -> (r: ObjectType) {
        ObjectType::Vif
    }
}

} // verus!
