use vstd::prelude::*;

verus! {

/// The wire name that the server uses for an object type.
pub open spec fn object_type_tag(t: ObjectType) -> Seq<char> {
    match t {
        ObjectType::GpuGroup => "gpuGroup"@,
        ObjectType::Host => "host"@,
        ObjectType::Message => "message"@,
        ObjectType::Network => "network"@,
        ObjectType::Pbd => "PBD"@,
        ObjectType::Pci => "PCI"@,
        ObjectType::Pgpu => "PGPU"@,
        ObjectType::Pif => "PIF"@,
        ObjectType::Pool => "pool"@,
        ObjectType::Sr => "SR"@,
        ObjectType::Task => "task"@,
        ObjectType::Vbd => "VBD"@,
        ObjectType::Vdi => "VDI"@,
        ObjectType::VdiSnapshot => "VDI-snapshot"@,
        ObjectType::VdiUnmanaged => "VDI-unmanaged"@,
        ObjectType::Vif => "VIF"@,
        ObjectType::Vm => "VM"@,
        ObjectType::VmController => "VM-controller"@,
        ObjectType::VmSnapshot => "VM-snapshot"@,
        ObjectType::VmTemplate => "VM-template"@,
    }
}

/// Object type
///
/// This is most often used to select which kind of objects a query fetches:
/// the server filters on the type's wire name.
#[derive(Debug, Clone, Copy, PartialEq, Eq, Structural)]
pub enum ObjectType {
    GpuGroup,
    /// A virtualization host, likely XCP-ng or similar
    Host,
    Message,
    Network,
    Pbd,
    Pci,
    /// Physical graphics card
    Pgpu,
    /// Physical network interface of a host
    Pif,
    /// Pool of hosts
    Pool,
    /// Storage repository - place where the disks of VMs are stored ([`Self::Vdi`]s)
    Sr,
    Task,
    Vbd,
    /// Virtual disk, the disks of virtual machines
    Vdi,
    VdiSnapshot,
    VdiUnmanaged,
    /// Virtual network interface of a VM
    Vif,
    /// A virtual machine
    Vm,
    VmController,
    /// Snapshot of a VM
    VmSnapshot,
    /// Virtual machine template, used to easily create preconfigured VMs
    VmTemplate,
}

impl ObjectType {
    /// The wire name of this object type, as the server's filters expect it.
    pub fn as_str(&self) -> (r: &'static str)
        ensures
            r@ == object_type_tag(*self),
    {
        match self {
            ObjectType::GpuGroup => "gpuGroup",
            ObjectType::Host => "host",
            ObjectType::Message => "message",
            ObjectType::Network => "network",
            ObjectType::Pbd => "PBD",
            ObjectType::Pci => "PCI",
            ObjectType::Pgpu => "PGPU",
            ObjectType::Pif => "PIF",
            ObjectType::Pool => "pool",
            ObjectType::Sr => "SR",
            ObjectType::Task => "task",
            ObjectType::Vbd => "VBD",
            ObjectType::Vdi => "VDI",
            ObjectType::VdiSnapshot => "VDI-snapshot",
            ObjectType::VdiUnmanaged => "VDI-unmanaged",
            ObjectType::Vif => "VIF",
            ObjectType::Vm => "VM",
            ObjectType::VmController => "VM-controller",
            ObjectType::VmSnapshot => "VM-snapshot",
            ObjectType::VmTemplate => "VM-template",
        }
    }

    /// The wire name of this object type as an owned string.
    pub fn to_string(&self) -> (r: String)
        ensures
            r@ == object_type_tag(*self),
    {
        self.as_str().to_string()
    }
}

} // verus!
