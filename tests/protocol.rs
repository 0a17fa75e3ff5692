use xo_api_client::mutation::{restart_outcome, revert_snapshot_outcome};
use xo_api_client::query::{
    objects_args, objects_of_type_args, single_object_args, single_object_outcome,
    SINGLE_OBJECT_LIMIT,
};
use xo_api_client::{
    Filter, FilterValue, GetSingleObjectError, ObjectType, RestartError, RevertSnapshotError,
    RpcError, Snapshot, SnapshotId, StringMap, Vm, VmId,
};

fn snapshot(id: &str, name: &str) -> Snapshot {
    Snapshot {
        id: SnapshotId::new(id.to_string()),
        name_label: name.to_string(),
        name_description: String::new(),
    }
}

fn str_value(v: Option<&FilterValue>) -> Option<String> {
    match v {
        Some(FilterValue::Str(s)) => Some(s.clone()),
        _ => None,
    }
}

#[test]
fn object_type_tags() {
    assert_eq!(ObjectType::Vm.to_string(), "VM");
    assert_eq!(ObjectType::VmSnapshot.to_string(), "VM-snapshot");
    assert_eq!(ObjectType::VmTemplate.to_string(), "VM-template");
    assert_eq!(ObjectType::Vdi.as_str(), "VDI");
    assert_eq!(ObjectType::Vbd.as_str(), "VBD");
    assert_eq!(ObjectType::Vif.as_str(), "VIF");
    assert_eq!(ObjectType::Sr.as_str(), "SR");
    assert_eq!(ObjectType::Network.as_str(), "network");
    assert_eq!(ObjectType::GpuGroup.as_str(), "gpuGroup");
    assert_eq!(ObjectType::VdiUnmanaged.as_str(), "VDI-unmanaged");
}

#[test]
fn type_tag_overrides_caller_type() {
    let mut f = Filter::new();
    f.insert("type".to_string(), FilterValue::Str("VDI".to_string()));
    f.insert("power_state".to_string(), FilterValue::Str("Running".to_string()));
    let args = objects_args::<Vm<StringMap>>(Some(f), Some(10));
    let filter = args.filter.unwrap();
    assert_eq!(str_value(filter.get("type")), Some("VM".to_string()));
    assert_eq!(str_value(filter.get("power_state")), Some("Running".to_string()));
    assert_eq!(filter.entries().len(), 2);
    assert_eq!(args.limit, Some(10));
}

#[test]
fn type_tag_without_caller_filter() {
    let args = objects_of_type_args(ObjectType::VmSnapshot, None, None);
    let filter = args.filter.unwrap();
    assert_eq!(str_value(filter.get("type")), Some("VM-snapshot".to_string()));
    assert_eq!(filter.entries().len(), 1);
    assert_eq!(args.limit, None);
}

#[test]
fn filter_keeps_other_scalars() {
    let mut f = Filter::new();
    f.insert("limit_me".to_string(), FilterValue::Int(-3));
    f.insert("flag".to_string(), FilterValue::Bool(true));
    f.insert("flag".to_string(), FilterValue::Bool(false));
    assert!(matches!(f.get("limit_me"), Some(FilterValue::Int(-3))));
    assert!(matches!(f.get("flag"), Some(FilterValue::Bool(false))));
    assert!(f.get("type").is_none());
    assert_eq!(f.entries().len(), 2);
}

#[test]
fn single_object_query_asks_for_two() {
    let id = SnapshotId::new("snap-1".to_string());
    let args = single_object_args::<Snapshot>(&id);
    let filter = args.filter.unwrap();
    assert_eq!(str_value(filter.get("id")), Some("snap-1".to_string()));
    assert_eq!(str_value(filter.get("type")), Some("VM-snapshot".to_string()));
    assert_eq!(filter.entries().len(), 2);
    assert_eq!(args.limit, Some(2));
    assert_eq!(SINGLE_OBJECT_LIMIT, 2);
}

#[test]
fn absent_id_is_not_found() {
    let id = SnapshotId::new("snap-1".to_string());
    let r = single_object_outcome::<Snapshot>(Ok(vec![]), &id);
    assert!(matches!(r, Ok(None)));
    let other = vec![(SnapshotId::new("snap-2".to_string()), snapshot("snap-2", "b"))];
    let r = single_object_outcome::<Snapshot>(Ok(other), &id);
    assert!(matches!(r, Ok(None)));
}

#[test]
fn single_match_is_returned() {
    let id = SnapshotId::new("snap-1".to_string());
    let reply = vec![(SnapshotId::new("snap-1".to_string()), snapshot("snap-1", "a"))];
    match single_object_outcome::<Snapshot>(Ok(reply), &id) {
        Ok(Some(s)) => assert_eq!(s.name_label, "a"),
        _ => panic!("expected the snapshot"),
    }
}

#[test]
fn two_records_for_one_id_are_multiple_matches() {
    let id = SnapshotId::new("snap-1".to_string());
    let reply = vec![
        (SnapshotId::new("snap-1".to_string()), snapshot("snap-1", "a")),
        (SnapshotId::new("snap-1".to_string()), snapshot("snap-1", "b")),
    ];
    let r = single_object_outcome::<Snapshot>(Ok(reply), &id);
    assert!(matches!(r, Err(GetSingleObjectError::MultipleMatches)));

    let reply = vec![
        (SnapshotId::new("snap-0".to_string()), snapshot("snap-0", "a")),
        (SnapshotId::new("snap-1".to_string()), snapshot("snap-1", "b")),
    ];
    let r = single_object_outcome::<Snapshot>(Ok(reply), &id);
    assert!(matches!(r, Err(GetSingleObjectError::MultipleMatches)));
}

#[test]
fn failed_single_object_call_is_rpc_error() {
    let id = VmId::new("vm-1".to_string());
    let r = single_object_outcome::<Vm<StringMap>>(Err(RpcError::RequestTimeout), &id);
    assert!(matches!(r, Err(GetSingleObjectError::Rpc(RpcError::RequestTimeout))));
}

#[test]
fn restart_replies() {
    assert!(matches!(restart_outcome(Ok(true)), Ok(())));
    assert!(matches!(restart_outcome(Ok(false)), Err(RestartError::ReportedFail)));
    assert!(matches!(
        restart_outcome(Err(RpcError::Request("boom".to_string()))),
        Err(RestartError::Rpc(RpcError::Request(_)))
    ));
}

#[test]
fn revert_replies() {
    assert!(matches!(revert_snapshot_outcome(Ok(true)), Ok(())));
    assert!(matches!(revert_snapshot_outcome(Ok(false)), Err(RevertSnapshotError::ReportedFail)));
    assert!(matches!(
        revert_snapshot_outcome(Err(RpcError::RequestTimeout)),
        Err(RevertSnapshotError::Rpc(RpcError::RequestTimeout))
    ));
}
