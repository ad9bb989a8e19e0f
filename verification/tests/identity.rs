use cognite::identity::{
    CogniteExternalId, CogniteId, Identity, IdentityList, IdentityOrInstance, IdentityOrInstanceList,
};
use cognite::models::instances::InstanceId;
use serde_json::Value;

fn identity_from_value(v: &Value) -> Identity {
    let obj = v.as_object().expect("identity object");
    if let Some(id) = obj.get("id") {
        Identity::id(id.as_i64().expect("integer id"))
    } else {
        Identity::external_id(obj.get("externalId").and_then(|e| e.as_str()).expect("external id"))
    }
}

fn identity_or_instance_from_value(v: &Value) -> IdentityOrInstance {
    let obj = v.as_object().expect("identity object");
    if let Some(inst) = obj.get("instanceId") {
        let inst = inst.as_object().expect("instance id object");
        IdentityOrInstance::instance_id(InstanceId::new(
            inst.get("space").and_then(|s| s.as_str()).expect("space"),
            inst.get("externalId").and_then(|s| s.as_str()).expect("external id"),
        ))
    } else if let Some(id) = obj.get("id") {
        IdentityOrInstance::id(id.as_i64().expect("integer id"))
    } else {
        IdentityOrInstance::external_id(obj.get("externalId").and_then(|e| e.as_str()).expect("external id"))
    }
}

/// Serialise, read back, serialise again and compare; then split in chunks of two.
fn check_identity_list(list: IdentityList) {
    let serialized = list.to_json();
    let parsed: Value = serde_json::from_str(&serialized).unwrap();
    let deserialized: Vec<Identity> = parsed.as_array().unwrap().iter().map(identity_from_value).collect();
    let reserialized = IdentityList::new(deserialized).to_json();
    assert_eq!(serialized, reserialized);

    let chunks = list.as_chunks(2);
    assert_eq!(chunks.len(), 2);
    for chunk in chunks {
        assert_eq!(chunk.len(), 2);
    }
}

fn check_identity_or_instance_list(list: IdentityOrInstanceList) {
    let serialized = list.to_json();
    let parsed: Value = serde_json::from_str(&serialized).unwrap();
    let deserialized: Vec<IdentityOrInstance> =
        parsed.as_array().unwrap().iter().map(identity_or_instance_from_value).collect();
    let reserialized = IdentityOrInstanceList::new(deserialized).to_json();
    assert_eq!(serialized, reserialized);

    let chunks = list.as_chunks(2);
    assert_eq!(chunks.len(), 2);
    for chunk in chunks {
        assert_eq!(chunk.len(), 2);
    }
}

fn instance(space: &str, external_id: &str) -> InstanceId {
    InstanceId { space: space.to_owned(), external_id: external_id.to_owned() }
}

#[test]
fn test_identity_list() {
    let v = vec![
        Identity::external_id("ext1"),
        Identity::id(2),
        Identity::external_id("ext3"),
        Identity::id(4),
    ];
    check_identity_list(IdentityList::from_identities(&v));
    let v = vec![
        CogniteExternalId::from("ext1".to_owned()),
        CogniteExternalId::from("ext2".to_owned()),
        CogniteExternalId::from("ext3".to_owned()),
        CogniteExternalId::from("ext4".to_owned()),
    ];
    check_identity_list(IdentityList::from_cognite_external_ids(&v));
    let v = vec![CogniteId::from(1), CogniteId::from(2), CogniteId::from(3), CogniteId::from(4)];
    check_identity_list(IdentityList::from_cognite_ids(&v));
    let a = [
        Identity::external_id("ext1"),
        Identity::id(2),
        Identity::external_id("ext3"),
        Identity::id(4),
    ];
    check_identity_list(IdentityList::from_identities(&a));

    let v = vec!["ext1", "ext2", "ext3", "ext4"];
    check_identity_list(IdentityList::from_external_ids(&v));
    let v = vec![1i64, 2, 3, 4];
    check_identity_list(IdentityList::from_ids(&v));
    let a = ["ext1", "ext2", "ext3", "ext4"];
    check_identity_list(IdentityList::from_external_ids(&a));
    let a = [1i64, 2, 3, 4];
    check_identity_list(IdentityList::from_ids(&a));
}

#[test]
fn test_identity_or_instance_list() {
    let v = vec![
        IdentityOrInstance::external_id("ext1"),
        IdentityOrInstance::id(2),
        IdentityOrInstance::instance_id(instance("space1", "inst1")),
        IdentityOrInstance::id(4),
    ];
    check_identity_or_instance_list(IdentityOrInstanceList::from_entries(&v));
    let a = [
        IdentityOrInstance::external_id("ext1"),
        IdentityOrInstance::id(2),
        IdentityOrInstance::instance_id(instance("space1", "inst1")),
        IdentityOrInstance::id(4),
    ];
    check_identity_or_instance_list(IdentityOrInstanceList::from_entries(&a));
    let v = vec![
        instance("space1", "inst1"),
        instance("space2", "inst2"),
        instance("space3", "inst3"),
        instance("space4", "inst4"),
    ];
    check_identity_or_instance_list(IdentityOrInstanceList::from_instance_ids(&v));
    let a = ["ext1", "ext2", "ext3", "ext4"];
    check_identity_or_instance_list(IdentityOrInstanceList::from_external_ids(&a));
    let a = [1i64, 2, 3, 4];
    check_identity_or_instance_list(IdentityOrInstanceList::from_ids(&a));
}

#[test]
fn test_identity_list_single() {
    let x = "extId";
    let list = IdentityList::single_external_id(x);
    let serialized = list.to_json();
    assert_eq!(serialized, r#"[{"externalId":"extId"}]"#);

    let x = 42i64;
    let list = IdentityList::single_id(x);
    let serialized = list.to_json();
    assert_eq!(serialized, r#"[{"id":42}]"#);

    let x = instance("space1", "inst1");
    let list = IdentityOrInstanceList::single_instance_id(&x);
    let serialized = list.to_json();
    assert_eq!(serialized, r#"[{"instanceId":{"space":"space1","externalId":"inst1"}}]"#);
}

#[test]
fn chunks_keep_order_and_leave_a_short_last_chunk() {
    let list = IdentityList::from_ids(&[1, 2, 3, 4, 5]);
    let chunks = list.as_chunks(2);
    let lens: Vec<usize> = chunks.iter().map(|c| c.len()).collect();
    assert_eq!(lens, vec![2, 2, 1]);
    let joined: Vec<String> = chunks.iter().map(|c| c.to_json()).collect();
    assert_eq!(joined, vec![r#"[{"id":1},{"id":2}]"#, r#"[{"id":3},{"id":4}]"#, r#"[{"id":5}]"#]);
    assert_eq!(IdentityList::from_ids(&[]).as_chunks(3).len(), 0);
    let from_vec = IdentityList::from(vec![Identity::Id { id: 1 }, Identity::ExternalId { external_id: "e".to_owned() }]);
    assert_eq!(from_vec.to_json(), r#"[{"id":1},{"externalId":"e"}]"#);
    let single = IdentityList::single_id(7).as_chunks(0);
    assert_eq!(single.len(), 1);
    assert_eq!(single[0].to_json(), r#"[{"id":7}]"#);
    assert_eq!(IdentityList::from_ids(&[]).as_chunks(0).len(), 0);
}

#[test]
fn external_ids_are_escaped_in_json() {
    let list = IdentityList::single_external_id("a\"b\\c\nd");
    assert_eq!(list.to_json(), r#"[{"externalId":"a\"b\\c\nd"}]"#);
    let parsed: Value = serde_json::from_str(&list.to_json()).unwrap();
    assert_eq!(parsed[0]["externalId"], "a\"b\\c\nd");
}

#[test]
fn negative_ids_serialise_with_sign() {
    assert_eq!(IdentityList::single_id(-7).to_json(), r#"[{"id":-7}]"#);
    assert_eq!(IdentityList::single_id(i64::MIN).to_json(), format!(r#"[{{"id":{}}}]"#, i64::MIN));
}

#[test]
fn identity_accessors() {
    let i = Identity::id(5);
    assert_eq!(i.as_id(), Some(5));
    assert_eq!(i.as_external_id(), None);
    let e = Identity::external_id("x");
    assert_eq!(e.as_external_id().map(|s| s.as_str()), Some("x"));
    assert_eq!(e.clone().into_external_id(), Some("x".to_owned()));
    assert_eq!(e.into_id(), None);
    let o = IdentityOrInstance::instance_id(instance("s", "e"));
    assert!(o.eq_instance_id(&instance("s", "e")));
    assert!(!o.eq_id(5));
    assert!(IdentityOrInstance::external_id("q").eq_external_id("q"));
}
