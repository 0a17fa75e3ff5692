use xo_api_client::credentials::{Credentials, EmailAndPassword, Token};
use xo_api_client::{
    DiskMode, GrowVdiFromTemplateError, NetworkId, NewDisk, NewVmArgs, NoSuchDiskError,
    PartialVif, ResolvedAttachment, SnapshotId, SrId, Template, TemplateId, Vbd, VbdId, Vdi,
    VdiId, Vif, VifId, VmId, VmOrSnapshotId,
};

fn template() -> Template {
    Template {
        id: TemplateId::new("tpl-1".to_string()),
        name_label: "Debian".to_string(),
        name_description: String::new(),
        vbds: vec![VbdId::new("vbd-cd".to_string()), VbdId::new("vbd-1".to_string())],
        vifs: vec![VifId::new("vif-1".to_string()), VifId::new("vif-2".to_string())],
    }
}

fn attachment(id: &str, position: usize, disk: &str, is_cd_drive: bool) -> Vbd {
    Vbd {
        id: VbdId::new(id.to_string()),
        position,
        vdi: VdiId::new(disk.to_string()),
        is_cd_drive,
    }
}

fn disk(id: &str, size: usize, sr: &str) -> Vdi {
    Vdi {
        id: VdiId::new(id.to_string()),
        name_label: "root".to_string(),
        name_description: "root disk".to_string(),
        size,
        sr: SrId::new(sr.to_string()),
    }
}

fn vif(id: &str, network: &str) -> Vif {
    Vif { id: VifId::new(id.to_string()), network: NetworkId::new(network.to_string()) }
}

/// A template with a CD attachment at position 0 and a disk of size 10 on
/// `sr-A` at position 1.
fn draft() -> NewVmArgs {
    let cd = attachment("vbd-cd", 0, "iso", true);
    let root = attachment("vbd-1", 1, "vdi-1", false);
    assert!(cd.inherited_disk_id().is_none());
    assert_eq!(root.inherited_disk_id().unwrap().as_str(), "vdi-1");
    NewVmArgs::from_template(
        "new vm".to_string(),
        &template(),
        vec![
            Some(ResolvedAttachment { attachment: cd, disk: None }),
            Some(ResolvedAttachment { attachment: root, disk: Some(disk("vdi-1", 10, "sr-A")) }),
        ],
        vec![Some(vif("vif-1", "net-1")), Some(vif("vif-2", "net-2"))],
    )
}

#[test]
fn template_assembly_skips_cd_and_keeps_positions() {
    let d = draft();
    assert_eq!(d.name_label, "new vm");
    assert_eq!(d.template.as_str(), "tpl-1");
    let disks = d.vdis_from_template.as_ref().unwrap();
    assert_eq!(disks.len(), 1);
    assert!(d.vdi_from_template(0).is_none());
    let inherited = d.vdi_from_template(1).unwrap();
    assert_eq!(inherited.name_label, "root");
    assert_eq!(inherited.name_description, "root disk");
    assert_eq!(inherited.size, 10);
    assert_eq!(inherited.sr.as_str(), "sr-A");
    let networks: Vec<&str> = d.vifs.as_ref().unwrap().iter().map(|v| v.network.as_str()).collect();
    assert_eq!(networks, vec!["net-1", "net-2"]);
    assert!(d.new_vdis.is_none());
    assert!(d.tags.is_none());
}

#[test]
fn template_assembly_skips_missing_records() {
    let d = NewVmArgs::from_template(
        "vm".to_string(),
        &template(),
        vec![
            None,
            Some(ResolvedAttachment { attachment: attachment("vbd-3", 3, "vdi-3", false), disk: None }),
            Some(ResolvedAttachment {
                attachment: attachment("vbd-4", 4, "vdi-4", true),
                disk: Some(disk("vdi-4", 5, "sr-A")),
            }),
        ],
        vec![None, Some(vif("vif-2", "net-2"))],
    );
    assert!(d.vdis_from_template.as_ref().unwrap().is_empty());
    assert_eq!(d.vifs.as_ref().unwrap().len(), 1);
    assert_eq!(d.vifs.as_ref().unwrap()[0].network.as_str(), "net-2");
}

#[test]
fn shrinking_an_inherited_disk_fails() {
    let mut d = draft();
    let r = d.grow_vdi_from_template(1, 5);
    assert_eq!(r, Err(GrowVdiFromTemplateError::NewSizeIsSmaller { new_size: 5, current_size: 10 }));
    assert_eq!(d.vdi_from_template(1).unwrap().size, 10);
}

#[test]
fn growing_an_inherited_disk_succeeds() {
    let mut d = draft();
    assert_eq!(d.grow_vdi_from_template(1, 20), Ok(()));
    assert_eq!(d.vdi_from_template(1).unwrap().size, 20);
    assert_eq!(d.grow_vdi_from_template(1, 20), Ok(()));
    assert_eq!(d.vdi_from_template(1).unwrap().size, 20);
}

#[test]
fn growing_a_missing_disk_fails() {
    let mut d = draft();
    assert_eq!(
        d.grow_vdi_from_template(0, 20),
        Err(GrowVdiFromTemplateError::NoSuchDisk { vdi_index: 0 })
    );
    let mut bare = NewVmArgs::new_raw("vm".to_string(), TemplateId::new("tpl".to_string()));
    assert_eq!(
        bare.grow_vdi_from_template(1, 20),
        Err(GrowVdiFromTemplateError::NoSuchDisk { vdi_index: 1 })
    );
    assert!(bare.vdis_from_template.is_none());
}

#[test]
fn reassigning_a_missing_disk_fails() {
    let mut d = draft();
    let r = d.set_sr_for_vdi_from_template(99, SrId::new("sr-B".to_string()));
    assert_eq!(r, Err(NoSuchDiskError { vdi_index: 99 }));
    assert_eq!(d.vdi_from_template(1).unwrap().sr.as_str(), "sr-A");
}

#[test]
fn reassigning_an_inherited_disk() {
    let mut d = draft();
    assert_eq!(d.set_sr_for_vdi_from_template(1, SrId::new("sr-B".to_string())), Ok(()));
    assert_eq!(d.vdi_from_template(1).unwrap().sr.as_str(), "sr-B");
    assert_eq!(d.vdi_from_template(1).unwrap().size, 10);
}

#[test]
fn new_raw_is_bare() {
    let d = NewVmArgs::new_raw("vm".to_string(), TemplateId::new("tpl".to_string()));
    assert_eq!(d.name_label, "vm");
    assert_eq!(d.template.as_str(), "tpl");
    assert!(d.vdis_from_template.is_none());
    assert!(d.vifs.is_none());
    assert!(d.new_vdis.is_none());
    assert!(d.clone.is_none());
}

#[test]
fn appending_disks_and_interfaces() {
    let mut d = draft();
    d.add_new_disk(NewDisk::NotAttached {
        name: "data".to_string(),
        size: 100,
        sr: SrId::new("sr-A".to_string()),
    });
    d.add_new_disk(NewDisk::Attached {
        name: "boot".to_string(),
        size: 200,
        sr: SrId::new("sr-A".to_string()),
        vm: VmId::new("vm-1".to_string()),
        bootable: Some(true),
        mode: Some(DiskMode::System),
        position: Some(2),
    });
    d.add_vif(PartialVif { network: NetworkId::new("net-3".to_string()) });
    assert_eq!(d.new_vdis.as_ref().unwrap().len(), 2);
    let vifs = d.vifs.as_ref().unwrap();
    assert_eq!(vifs.len(), 3);
    assert_eq!(vifs[2].network.as_str(), "net-3");
}

#[test]
fn vm_or_snapshot_ids() {
    let a: VmOrSnapshotId = VmId::new("vm-1".to_string()).into();
    let b = VmOrSnapshotId::from(SnapshotId::new("snap-1".to_string()));
    assert_eq!(a.as_str(), "vm-1");
    assert_eq!(b.into_string(), "snap-1");
}

#[test]
fn sign_in_params() {
    let p = Credentials::from(EmailAndPassword {
        email: "admin@admin.net".to_string(),
        password: "admin".to_string(),
    })
    .into_sign_in_params();
    assert_eq!(
        p,
        vec![
            ("email".to_string(), "admin@admin.net".to_string()),
            ("password".to_string(), "admin".to_string())
        ]
    );
    let token: Token = "abc".parse().unwrap();
    assert_eq!(token.to_string(), "abc");
    assert_eq!(token.0, "abc");
    let t: Credentials = token.into();
    assert_eq!(t.into_sign_in_params(), vec![("token".to_string(), "abc".to_string())]);
}
