use xo_api_client::query::single_object_outcome;
use xo_api_client::{ObjectType, Snapshot, SnapshotId, XoObject};

fn fetched(id: &str, name_label: &str, name_description: &str) -> Snapshot {
    let record = Snapshot {
        id: SnapshotId::new(id.to_string()),
        name_label: name_label.to_string(),
        name_description: name_description.to_string(),
    };
    let wanted = SnapshotId::new(id.to_string());
    let reply = vec![(SnapshotId::new(id.to_string()), record)];
    single_object_outcome::<Snapshot>(Ok(reply), &wanted).unwrap().unwrap()
}

#[test]
fn snapshots() {
    assert_eq!(<Snapshot as XoObject>::object_type(), ObjectType::VmSnapshot);

    let debian_snapshot = fetched(
        "deadbeaf-dead-beaf-dead-beafdeadbea0",
        "[XO My Backup Job] debian 10",
        "",
    );
    assert_eq!(debian_snapshot.id.as_str(), "deadbeaf-dead-beaf-dead-beafdeadbea0");
    assert_eq!(debian_snapshot.name_label, "[XO My Backup Job] debian 10");
    assert_eq!(debian_snapshot.name_description, "");

    let pfsense_snapshot = fetched(
        "deadbeaf-dead-beaf-dead-beafdeadbea1",
        "[XO My Backup Job] pfsense 2.5.1",
        "Foo description",
    );
    assert_eq!(pfsense_snapshot.id.as_str(), "deadbeaf-dead-beaf-dead-beafdeadbea1");
    assert_eq!(pfsense_snapshot.name_label, "[XO My Backup Job] pfsense 2.5.1");
    assert_eq!(pfsense_snapshot.name_description, "Foo description");
}

#[test]
fn types_debian() {
    let debian_snapshot = fetched(
        "deadbeaf-dead-beaf-dead-beafdeadbea0",
        "[XO My Backup Job] debian 10",
        "",
    );
    assert_eq!(debian_snapshot.id.as_str(), "deadbeaf-dead-beaf-dead-beafdeadbea0");
    assert_eq!(debian_snapshot.name_label, "[XO My Backup Job] debian 10");
    assert_eq!(debian_snapshot.name_description, "");

    let pfsense_snapshot = fetched(
        "deadbeaf-dead-beaf-dead-beafdeadbea1",
        "[XO My Backup Job] pfsense 2.5.1",
        "Foo description",
    );
    assert_eq!(pfsense_snapshot.id.as_str(), "deadbeaf-dead-beaf-dead-beafdeadbea1");
    assert_eq!(pfsense_snapshot.name_label, "[XO My Backup Job] pfsense 2.5.1");
    assert_eq!(pfsense_snapshot.name_description, "Foo description");
}
