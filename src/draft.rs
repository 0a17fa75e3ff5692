use vstd::prelude::*;

use std::collections::BTreeMap;

use crate::ids::{NetworkId, SrId, TemplateId, VmId};
use crate::records::{Template, Vbd, Vdi, Vif};

verus! {

broadcast use vstd::std_specs::btree::group_btree_axioms, vstd::laws_cmp::group_laws_cmp;

/// A disk that a new VM takes over from its template, as the create request
/// describes it.
#[derive(Debug)]
pub struct PartialVdi {
    pub name_label: String,
    pub name_description: String,
    /// Size in bytes
    pub size: usize,
    /// The storage repository that will hold the new VM's copy
    pub sr: SrId,
}

/// A network interface of a new VM: the network it is connected to.
#[derive(Debug)]
pub struct PartialVif {
    pub network: NetworkId,
}

/// Mode in which a new disk is attached
#[derive(Debug, Clone, Copy, PartialEq, Eq, Structural)]
pub enum DiskMode {
    System,
}

/// A disk that is created fresh, not copied from a template.
#[derive(Debug)]
pub enum NewDisk {
    /// A disk attached to a VM on creation
    Attached {
        name: String,
        size: usize,
        sr: SrId,
        vm: VmId,
        bootable: Option<bool>,
        mode: Option<DiskMode>,
        position: Option<usize>,
    },
    /// A disk that no VM uses yet
    NotAttached { name: String, size: usize, sr: SrId },
}

/// What was fetched for one disk attachment that a template lists.
#[derive(Debug)]
pub struct ResolvedAttachment {
    /// The attachment record
    pub attachment: Vbd,
    /// The disk it attaches, where that was fetched and found
    pub disk: Option<Vdi>,
}

/// The description of an inherited disk that a template's disk gives.
pub open spec fn partial_vdi_of(vdi: Vdi) -> PartialVdi {
    PartialVdi {
        name_label: vdi.name_label,
        name_description: vdi.name_description,
        size: vdi.size,
        sr: vdi.sr,
    }
}

/// The inherited disks that a template's resolved attachments give, keyed by
/// the attachment's position: CD-style attachments and attachments whose
/// record or disk was not found give none; positions are kept as they are,
/// and a later attachment at a position replaces an earlier one.
pub open spec fn inherited_disks(s: Seq<Option<ResolvedAttachment>>) -> Map<usize, PartialVdi>
    decreases s.len(),
{
    if s.len() == 0 {
        Map::empty()
    } else {
        let before = inherited_disks(s.drop_last());
        match s.last() {
            Some(a) => if !a.attachment.is_cd_drive && a.disk is Some {
                before.insert(a.attachment.position, partial_vdi_of(a.disk->0))
            } else {
                before
            },
            None => before,
        }
    }
}

/// The interfaces that a template's fetched interfaces give, in the
/// template's order; interfaces that were not found give none.
pub open spec fn interface_list(s: Seq<Option<Vif>>) -> Seq<PartialVif>
    decreases s.len(),
{
    if s.len() == 0 {
        Seq::empty()
    } else {
        let before = interface_list(s.drop_last());
        match s.last() {
            Some(v) => before.push(PartialVif { network: v.network }),
            None => before,
        }
    }
}

/// The draft of a request that creates a VM.
///
/// It is made empty with [`NewVmArgs::new_raw`] or from a template with
/// [`NewVmArgs::from_template`], edited, and then sent once.
#[derive(Debug)]
pub struct NewVmArgs {
    pub name_label: String,
    pub template: TemplateId,
    pub clone: Option<bool>,
    /// Disks taken over from the template, keyed by their attachment position
    pub vdis_from_template: Option<BTreeMap<usize, PartialVdi>>,
    /// Disks created fresh
    pub new_vdis: Option<Vec<NewDisk>>,
    pub vifs: Option<Vec<PartialVif>>,
    pub cores_per_socket: Option<usize>,
    /// Total CPU core count across all sockets
    pub total_core_count: Option<usize>,
    pub name_description: Option<String>,
    pub auto_poweron: Option<bool>,
    pub boot_after_create: Option<bool>,
    pub cloud_config: Option<String>,
    pub network_config: Option<String>,
    pub tags: Option<Vec<String>>,
}

/// Why an inherited disk could not be grown.
#[derive(Debug, PartialEq, Eq, Structural)]
pub enum GrowVdiFromTemplateError {
    /// No inherited disk occupies that position.
    NoSuchDisk { vdi_index: usize },
    /// The new size is below the disk's current size.
    NewSizeIsSmaller { new_size: usize, current_size: usize },
}

/// No inherited disk occupies the position asked for.
#[derive(Debug, PartialEq, Eq, Structural)]
pub struct NoSuchDiskError {
    pub vdi_index: usize,
}

impl NewVmArgs {
    /// The inherited disks of the draft, none where the draft has no list.
    pub open spec fn inherited(&self) -> Map<usize, PartialVdi> {
        match self.vdis_from_template {
            Some(m) => m@,
            None => Map::empty(),
        }
    }

    /// Whether an inherited disk occupies `index`.
    pub open spec fn has_inherited_disk(&self, index: usize) -> bool {
        self.inherited().contains_key(index)
    }

    /// Whether two drafts agree on everything but their three lists of disks
    /// and interfaces.
    pub open spec fn same_settings(&self, other: &NewVmArgs) -> bool {
        &&& self.name_label == other.name_label
        &&& self.template == other.template
        &&& self.clone == other.clone
        &&& self.cores_per_socket == other.cores_per_socket
        &&& self.total_core_count == other.total_core_count
        &&& self.name_description == other.name_description
        &&& self.auto_poweron == other.auto_poweron
        &&& self.boot_after_create == other.boot_after_create
        &&& self.cloud_config == other.cloud_config
        &&& self.network_config == other.network_config
        &&& self.tags == other.tags
    }

    /// Whether two drafts agree on everything but their inherited disks.
    pub open spec fn same_but_inherited(&self, other: &NewVmArgs) -> bool {
        &&& self.same_settings(other)
        &&& self.new_vdis == other.new_vdis
        &&& self.vifs == other.vifs
    }

    /// Whether a draft is the empty one for `name_label` and `template`: only
    /// those two are set.
    pub open spec fn is_bare(&self, name_label: Seq<char>, template: Seq<char>) -> bool {
        &&& self.name_label@ == name_label
        &&& self.template.0@ == template
        &&& self.clone is None
        &&& self.vdis_from_template is None
        &&& self.new_vdis is None
        &&& self.vifs is None
        &&& self.cores_per_socket is None
        &&& self.total_core_count is None
        &&& self.name_description is None
        &&& self.auto_poweron is None
        &&& self.boot_after_create is None
        &&& self.cloud_config is None
        &&& self.network_config is None
        &&& self.tags is None
    }

    /// An empty draft: the VM's name and the template, nothing else.
    pub fn new_raw(name_label: String, template: TemplateId) -> (r: Self)
        ensures
            r.is_bare(name_label@, template.0@),
    {
        NewVmArgs {
            name_label,
            template,
            clone: None,
            vdis_from_template: None,
            new_vdis: None,
            vifs: None,
            cores_per_socket: None,
            total_core_count: None,
            name_description: None,
            auto_poweron: None,
            boot_after_create: None,
            cloud_config: None,
            network_config: None,
            tags: None,
        }
    }

    /// The draft that mirrors a template's storage and networking: `attachments`
    /// holds what was fetched for each disk attachment that the template
    /// lists, `interfaces` each network interface (`None` where the server
    /// had no such object).
    ///
    /// Inherited disks are keyed by their attachment's position, CD-style
    /// attachments are left out, and the interfaces keep the template's
    /// order.
    pub fn from_template(
        name_label: String,
        template: &Template,
        attachments: Vec<Option<ResolvedAttachment>>,
        interfaces: Vec<Option<Vif>>,
    ) -> (r: Self)
        ensures
            r.name_label@ == name_label@,
            r.template.0@ == template.id.0@,
            r.vdis_from_template is Some,
            r.inherited() == inherited_disks(attachments@),
            r.vifs is Some,
            r.vifs->0@ == interface_list(interfaces@),
            r.clone is None,
            r.new_vdis is None,
            r.cores_per_socket is None,
            r.total_core_count is None,
            r.name_description is None,
            r.auto_poweron is None,
            r.boot_after_create is None,
            r.cloud_config is None,
            r.network_config is None,
            r.tags is None,
    {
        let mut this = Self::new_raw(name_label, TemplateId(template.id.0.clone()));

        let mut vdis: BTreeMap<usize, PartialVdi> = BTreeMap::new();
        let ghost all = attachments@;
        let mut pending = attachments;
        let ghost mut j: int = 0;
        assert(all.subrange(0, 0) =~= Seq::<Option<ResolvedAttachment>>::empty());
        while pending.len() > 0
            invariant
                0 <= j <= all.len(),
                pending@ == all.subrange(j, all.len() as int),
                vdis@ == inherited_disks(all.subrange(0, j)),
            decreases pending.len(),
        {
            let resolved = pending.remove(0);
            proof {
                assert(resolved == all[j]);
                let p = all.subrange(0, j + 1);
                assert(p.drop_last() =~= all.subrange(0, j));
                assert(p.last() == all[j]);
            }
            match resolved {
                Some(a) => {
                    if !a.attachment.is_cd_drive {
                        match a.disk {
                            Some(vdi) => {
                                let partial = PartialVdi {
                                    name_label: vdi.name_label,
                                    name_description: vdi.name_description,
                                    size: vdi.size,
                                    sr: vdi.sr,
                                };
                                vdis.insert(a.attachment.position, partial);
                            },
                            None => {},
                        }
                    }
                },
                None => {},
            }
            proof {
                j = j + 1;
                assert(pending@ =~= all.subrange(j, all.len() as int));
            }
        }
        assert(all.subrange(0, j) =~= all);

        let ghost all_vifs = interfaces@;
        let mut vifs: Vec<PartialVif> = Vec::new();
        let mut pending = interfaces;
        let ghost mut k: int = 0;
        assert(all_vifs.subrange(0, 0) =~= Seq::<Option<Vif>>::empty());
        while pending.len() > 0
            invariant
                0 <= k <= all_vifs.len(),
                pending@ == all_vifs.subrange(k, all_vifs.len() as int),
                vifs@ == interface_list(all_vifs.subrange(0, k)),
            decreases pending.len(),
        {
            let fetched = pending.remove(0);
            proof {
                assert(fetched == all_vifs[k]);
                let p = all_vifs.subrange(0, k + 1);
                assert(p.drop_last() =~= all_vifs.subrange(0, k));
                assert(p.last() == all_vifs[k]);
            }
            match fetched {
                Some(vif) => vifs.push(PartialVif { network: vif.network }),
                None => {},
            }
            proof {
                k = k + 1;
                assert(pending@ =~= all_vifs.subrange(k, all_vifs.len() as int));
            }
        }
        assert(all_vifs.subrange(0, k) =~= all_vifs);

        this.vdis_from_template = Some(vdis);
        this.vifs = Some(vifs);
        this
    }

    /// Grows the inherited disk at `vdi_index` to `new_size`. It fails, and
    /// leaves the draft as it was, where no inherited disk occupies that
    /// position or where `new_size` is below the disk's size: an inherited
    /// disk never shrinks this way.
    pub fn grow_vdi_from_template(&mut self, vdi_index: usize, new_size: usize) -> (r: Result<
        (),
        GrowVdiFromTemplateError,
    >)
        ensures
            !old(self).has_inherited_disk(vdi_index) ==> {
                &&& r == Err::<(), GrowVdiFromTemplateError>(
                    GrowVdiFromTemplateError::NoSuchDisk { vdi_index },
                )
                &&& *final(self) == *old(self)
            },
            old(self).has_inherited_disk(vdi_index) && new_size < old(self).inherited()[vdi_index].size
                ==> {
                &&& r == Err::<(), GrowVdiFromTemplateError>(
                    GrowVdiFromTemplateError::NewSizeIsSmaller {
                        new_size,
                        current_size: old(self).inherited()[vdi_index].size,
                    },
                )
                &&& *final(self) == *old(self)
            },
            old(self).has_inherited_disk(vdi_index) && new_size >= old(self).inherited()[vdi_index].size
                ==> {
                &&& r is Ok
                &&& final(self).vdis_from_template is Some
                &&& final(self).inherited() == old(self).inherited().insert(
                    vdi_index,
                    PartialVdi { size: new_size, ..old(self).inherited()[vdi_index] },
                )
                &&& final(self).same_but_inherited(old(self))
            },
    {
        let vdis = match &mut self.vdis_from_template {
            Some(vdis) => vdis,
            None => return Err(GrowVdiFromTemplateError::NoSuchDisk { vdi_index }),
        };

        let current_size = match vdis.get(&vdi_index) {
            Some(vdi) => vdi.size,
            None => return Err(GrowVdiFromTemplateError::NoSuchDisk { vdi_index }),
        };

        if new_size < current_size {
            return Err(GrowVdiFromTemplateError::NewSizeIsSmaller { current_size, new_size });
        }

        let mut vdi = vdis.remove(&vdi_index).unwrap();
        vdi.size = new_size;
        vdis.insert(vdi_index, vdi);
        Ok(())
    }

    /// Moves the inherited disk at `vdi_index` to the storage repository
    /// `sr`. It fails, and leaves the draft as it was, where no inherited
    /// disk occupies that position.
    pub fn set_sr_for_vdi_from_template(&mut self, vdi_index: usize, sr: SrId) -> (r: Result<
        (),
        NoSuchDiskError,
    >)
        ensures
            !old(self).has_inherited_disk(vdi_index) ==> {
                &&& r == Err::<(), NoSuchDiskError>(NoSuchDiskError { vdi_index })
                &&& *final(self) == *old(self)
            },
            old(self).has_inherited_disk(vdi_index) ==> {
                &&& r is Ok
                &&& final(self).vdis_from_template is Some
                &&& final(self).inherited() == old(self).inherited().insert(
                    vdi_index,
                    PartialVdi { sr, ..old(self).inherited()[vdi_index] },
                )
                &&& final(self).same_but_inherited(old(self))
            },
    {
        let vdis = match &mut self.vdis_from_template {
            Some(vdis) => vdis,
            None => return Err(NoSuchDiskError { vdi_index }),
        };

        if !vdis.contains_key(&vdi_index) {
            return Err(NoSuchDiskError { vdi_index });
        }

        let mut vdi = vdis.remove(&vdi_index).unwrap();
        vdi.sr = sr;
        vdis.insert(vdi_index, vdi);
        Ok(())
    }
    /// The inherited disk at `vdi_index`, if one occupies it.
    pub fn vdi_from_template(&self, vdi_index: usize) -> (r: Option<&PartialVdi>)
        ensures
            r is Some <==> self.has_inherited_disk(vdi_index),
            r matches Some(v) ==> *v == self.inherited()[vdi_index],
    {
        match &self.vdis_from_template {
            Some(vdis) => vdis.get(&vdi_index),
            None => None,
        }
    }

    /// Adds a disk to create fresh with the VM.
    pub fn add_new_disk(&mut self, disk: NewDisk)
        ensures
            final(self).new_vdis is Some,
            final(self).new_vdis->0@ == match old(self).new_vdis {
                Some(v) => v@,
                None => Seq::empty(),
            }.push(disk),
            final(self).vdis_from_template == old(self).vdis_from_template,
            final(self).vifs == old(self).vifs,
            final(self).same_settings(old(self)),
    {
        match &mut self.new_vdis {
            Some(disks) => disks.push(disk),
            None => {
                let mut disks = Vec::new();
                disks.push(disk);
                self.new_vdis = Some(disks);
            },
        }
    }

    /// Adds a network interface to the VM, after those already listed.
    pub fn add_vif(&mut self, vif: PartialVif)
        ensures
            final(self).vifs is Some,
            final(self).vifs->0@ == match old(self).vifs {
                Some(v) => v@,
                None => Seq::empty(),
            }.push(vif),
            final(self).vdis_from_template == old(self).vdis_from_template,
            final(self).new_vdis == old(self).new_vdis,
            final(self).same_settings(old(self)),
    {
        match &mut self.vifs {
            Some(vifs) => vifs.push(vif),
            None => {
                let mut vifs = Vec::new();
                vifs.push(vif);
                self.vifs = Some(vifs);
            },
        }
    }
}

} // verus!
