use std::collections::HashMap;

use cognite::cdf_core::asset::{AddAsset, Asset};
use cognite::cdf_core::datapoint::{
    double_from_text, double_text, insertion_item_from, AddDatapoints, Aggregate, DataPointListItem,
    DataPointListResponse, DatapointDouble, DatapointString, DatapointsEnumType, DatapointsListResponse,
    DatapointsResponse, InsertDatapointType, LatestDatapoint, ListDatapointType, NumericDatapoint, NumericDatapoints,
    Status, StringDatapoint, StringDatapoints, TimeSeriesReference, TimestampOrRelative,
};
use cognite::cdf_core::event::{AddEvent, EventCount, PatchEvent};
use cognite::client::{
    api_base_path, oidc_settings_from_vars, retry_policy, BuilderSettings, ClientConfig, RetryPolicy,
};
use cognite::error::{
    get_duplicates_from_result, get_missing_from_result, ApiErrorDetail, ApiErrorMessage, Error, ErrorDetail,
    IntegerStringOrObject,
};
use cognite::filter::{range, AdvancedFilter, Number, QueryValue, RangeItem, RawValue};
use cognite::identity::{EqIdentity, Identity, IdentityOrInstance};
use cognite::models::extensions::{
    CogniteExtendable, FileObject, FromReadable, IntoWritable, Timeseries, WithInstance, WithView,
};
use cognite::models::instances::{
    NodeDefinition, NodeOrEdge, NodeOrEdgeCreate, RetrieveInstancesRequest, TypeInformation, TypePropertyDefinition,
};
use cognite::models::views::{
    create_properties, CreateViewPropertyOrConnectionDefinition, ViewCorePropertyDefinition, ViewCorePropertyType,
    ViewDefinitionProperties,
};
use cognite::models::common::{ItemId, PrimitiveProperty, SourceReference, TaggedContainerReference};
use cognite::models::views::ViewReference;
use cognite::patch::{IntoPatch, UpdateList, UpdateMap, UpdateSet, UpdateSetNull, UpsertOptions};
use cognite::filter_types::{Partition, PartitionedFilter, WithPartition};
use cognite::resource::{
    decide_retry, list_start, list_step, merge_partitions, partitioned_filters, partitioned_result, plan_upsert,
    upsert_start, upsert_step, CursorState, ListAction, PageEvent, Pager, RetryDecision, UpsertAction, UpsertEvent,
    UpsertPlan, UpsertState,
};

fn add_event(external_id: Option<&str>) -> AddEvent {
    AddEvent {
        external_id: external_id.map(|s| s.to_owned()),
        data_set_id: None,
        start_time: None,
        end_time: None,
        event_type: None,
        subtype: None,
        description: None,
        metadata: None,
        asset_ids: None,
        source: None,
    }
}

fn detail(entries: Vec<(&str, IntegerStringOrObject)>) -> ErrorDetail {
    ErrorDetail { entries: entries.into_iter().map(|(k, v)| (k.to_owned(), v)).collect() }
}

fn conflict(duplicated: Vec<ErrorDetail>) -> Error {
    Error::Conflict(ApiErrorMessage {
        code: 409,
        message: "dup".to_owned(),
        missing: None,
        duplicated: Some(ApiErrorDetail { details: duplicated }),
    })
}

#[test]
fn duplicates_and_missing_are_read_from_errors() {
    let res: Result<(), Error> = Err(conflict(vec![
        detail(vec![("externalId", IntegerStringOrObject::String("a".to_owned()))]),
        detail(vec![("id", IntegerStringOrObject::Integer(7))]),
        detail(vec![("other", IntegerStringOrObject::Integer(1))]),
    ]));
    let dups = get_duplicates_from_result(&res).unwrap();
    assert_eq!(dups.len(), 2);
    assert_eq!(dups[0].as_external_id().map(|s| s.as_str()), Some("a"));
    assert_eq!(dups[1].as_id(), Some(7));
    assert!(get_missing_from_result(&res).is_none());
    let ok: Result<(), Error> = Ok(());
    assert!(get_duplicates_from_result(&ok).is_none());
    let not_found: Result<(), Error> = Err(Error::NotFound(ApiErrorMessage {
        code: 404,
        message: "missing".to_owned(),
        missing: Some(ApiErrorDetail { details: vec![detail(vec![("id", IntegerStringOrObject::Integer(3))])] }),
        duplicated: None,
    }));
    let missing = get_missing_from_result(&not_found).unwrap();
    assert_eq!(missing[0].as_id(), Some(3));
    let repeated = detail(vec![("id", IntegerStringOrObject::Integer(1)), ("id", IntegerStringOrObject::Integer(2))]);
    assert_eq!(ApiErrorDetail::get_integer(&repeated, "id"), Some(2));
}

#[test]
fn retry_decisions() {
    let items = vec![add_event(Some("a")), add_event(Some("b")), add_event(None)];
    match decide_retry(&items, &None) {
        RetryDecision::KeepResponse => {},
        _ => panic!("a response without rejected items is kept"),
    }
    match decide_retry(&items, &Some(vec![Identity::external_id("b")])) {
        RetryDecision::Retry(v) => {
            assert_eq!(v.len(), 2);
            assert_eq!(v[0].external_id.as_deref(), Some("a"));
            assert_eq!(v[1].external_id, None);
        },
        _ => panic!("the items not rejected are sent again"),
    }
    let same = vec![add_event(Some("a")), add_event(Some("a"))];
    match decide_retry(&same, &Some(vec![Identity::external_id("a")])) {
        RetryDecision::Nothing => {},
        _ => panic!("two items named by one rejected identity give nothing"),
    }
    let two = vec![add_event(Some("a")), add_event(Some("b"))];
    let rejected = Some(vec![Identity::external_id("a"), Identity::external_id("b")]);
    match decide_retry(&two, &rejected) {
        RetryDecision::Nothing => {},
        _ => panic!("every item rejected gives nothing"),
    }
    let rejected = Some(vec![Identity::external_id("a"), Identity::external_id("b"), Identity::id(1)]);
    match decide_retry(&two, &rejected) {
        RetryDecision::Nothing => {},
        _ => panic!("every item rejected gives nothing, whatever else was rejected"),
    }
}

#[test]
fn internal_ids_never_name_items_to_create() {
    let e = add_event(Some("x"));
    assert!(!EqIdentity::eq(&e, &Identity::id(1)));
    assert!(EqIdentity::eq(&e, &Identity::external_id("x")));
    assert!(!EqIdentity::eq(&add_event(None), &Identity::external_id("x")));
}

#[test]
fn upsert_plan_splits_by_duplicates() {
    let mut b = add_event(Some("b"));
    b.description = Some("kept".to_owned());
    let mut c = add_event(Some("c"));
    c.description = Some("new text".to_owned());
    let items = vec![add_event(Some("a")), b, c];
    let opts = UpsertOptions { ignore_nulls: true, merge_metadata: false, merge_lists: false };
    let plan: UpsertPlan<AddEvent, PatchEvent> =
        plan_upsert(&items, &[Identity::external_id("c"), Identity::external_id("a")], &opts);
    assert_eq!(plan.to_create.len(), 1);
    assert_eq!(plan.to_create[0].external_id.as_deref(), Some("b"));
    assert_eq!(plan.to_update.len(), 2);
    assert_eq!(plan.to_update[0].id.as_external_id().map(|s| s.as_str()), Some("a"));
    assert_eq!(plan.to_update[1].id.as_external_id().map(|s| s.as_str()), Some("c"));
    assert!(plan.to_update[0].update.description.is_none());
    match &plan.to_update[1].update.description {
        Some(UpdateSetNull::SetValue { set }) => assert_eq!(set, "new text"),
        _ => panic!("the description is set"),
    }
}

#[test]
fn pager_follows_cursors() {
    let mut pager: Pager<i32> = Pager::new();
    assert!(pager.has_next());
    assert_eq!(pager.next_cursor(), None);
    pager.receive(vec![1, 2], Some("c1".to_owned()));
    assert_eq!(pager.next_cursor(), Some("c1".to_owned()));
    pager.receive(vec![3], None);
    assert!(!pager.has_next());
    assert_eq!(pager.items, vec![1, 2, 3]);
}

fn asset() -> Asset {
    let mut a = Asset::new("pump", "a pump", Some("p1".to_owned()), Some(5), None, None);
    a.id = 17;
    a.parent_external_id = Some("parent".to_owned());
    a
}

#[test]
fn asset_creation_form_drops_parent_external_id_when_parent_id_is_set() {
    let add = AddAsset::from(asset());
    assert_eq!(add.parent_id, Some(5));
    assert_eq!(add.parent_external_id, None);
    let mut a = asset();
    a.parent_id = None;
    let add = AddAsset::from(a);
    assert_eq!(add.parent_external_id.as_deref(), Some("parent"));
}

#[test]
fn asset_patch_under_options() {
    let keep = UpsertOptions { ignore_nulls: false, merge_metadata: false, merge_lists: false };
    let p = asset().patch(&keep);
    assert_eq!(p.id.as_id(), Some(17));
    match p.update.description {
        Some(UpdateSetNull::SetValue { set }) => assert_eq!(set, "a pump"),
        _ => panic!("a present field is set"),
    }
    match p.update.source {
        Some(UpdateSetNull::SetNull { set_null }) => assert!(set_null),
        _ => panic!("an absent field is cleared"),
    }
    match p.update.metadata {
        Some(UpdateMap::Replace { set }) => assert!(set.is_empty()),
        _ => panic!("an absent map is cleared"),
    }
    match p.update.labels {
        Some(UpdateList::Replace { set }) => assert!(set.is_empty()),
        _ => panic!("an absent list is cleared"),
    }
    match p.update.parent_id {
        Some(UpdateSet { set }) => assert_eq!(set, 5),
        None => panic!("the parent ID is set"),
    }
    assert!(p.update.parent_external_id.is_none());

    let ignore = UpsertOptions { ignore_nulls: true, merge_metadata: true, merge_lists: true };
    let mut a = asset();
    let mut m = HashMap::new();
    m.insert("k".to_owned(), "v".to_owned());
    a.metadata = Some(m);
    a.id = 0;
    let p = a.patch(&ignore);
    assert_eq!(p.id.as_external_id().map(|s| s.as_str()), Some("p1"));
    assert!(p.update.source.is_none());
    match p.update.metadata {
        Some(UpdateMap::AddRemove { add: Some(add), remove: None }) => assert_eq!(add.get("k").map(|s| s.as_str()), Some("v")),
        _ => panic!("merged metadata is added"),
    }
}

#[test]
fn add_asset_patch_chooses_parent_by_id_first() {
    let opts = UpsertOptions { ignore_nulls: false, merge_metadata: false, merge_lists: false };
    let mut a = AddAsset::from(asset());
    a.parent_external_id = Some("p".to_owned());
    let p = a.patch(&opts);
    assert!(p.parent_id.is_some());
    assert!(p.parent_external_id.is_none());
    let mut a = AddAsset::from(asset());
    a.parent_id = None;
    a.parent_external_id = Some("p".to_owned());
    let p = a.patch(&opts);
    assert!(p.parent_id.is_none());
    match p.parent_external_id {
        Some(UpdateSet { set }) => assert_eq!(set, "p"),
        None => panic!("the parent external ID is set"),
    }
}

#[test]
fn client_settings() {
    assert_eq!(api_base_path("https://api.cognitedata.com", "proj"), "https://api.cognitedata.com/api/v1/projects/proj");
    let none = ClientConfig { max_retries: 0, max_retry_delay_ms: Some(1), timeout_ms: None, initial_delay_ms: None };
    assert!(retry_policy(&none).is_none());
    let some = ClientConfig { max_retries: 3, max_retry_delay_ms: None, timeout_ms: None, initial_delay_ms: None };
    assert!(retry_policy(&some) == Some(RetryPolicy { max_retries: 3, max_delay_ms: 300000, initial_delay_ms: 125 }));
    let set = ClientConfig { max_retries: 1, max_retry_delay_ms: Some(10), timeout_ms: Some(5), initial_delay_ms: Some(2) };
    assert!(retry_policy(&set) == Some(RetryPolicy { max_retries: 1, max_delay_ms: 10, initial_delay_ms: 2 }));

    let err_message = |r: Result<_, Error>| match r {
        Err(Error::Config(m)) => m,
        _ => panic!("a configuration error"),
    };
    let s = BuilderSettings { has_auth: false, config: None, app_name: None, project: None, base_url: None };
    assert_eq!(err_message(s.resolve()), "Some form of auth is required");
    let s = BuilderSettings { has_auth: true, config: None, app_name: None, project: Some("p".to_owned()), base_url: None };
    assert_eq!(err_message(s.resolve()), "App name is required");
    let s = BuilderSettings { has_auth: true, config: None, app_name: Some("a".to_owned()), project: None, base_url: None };
    assert_eq!(err_message(s.resolve()), "Project is required");
    let s = BuilderSettings { has_auth: true, config: None, app_name: Some("a".to_owned()), project: Some("p".to_owned()), base_url: None };
    match s.resolve() {
        Ok(r) => {
            assert_eq!(r.base_url, "https://api.cognitedata.com/");
            assert_eq!(r.config.max_retries, 0);
        },
        Err(_) => panic!("complete settings resolve"),
    }
}

#[test]
fn aggregates_by_name() {
    assert!(Aggregate::from_json("\"average\"") == Some(Aggregate::Average));
    assert!(Aggregate::from_json(" \"stepInterpolation\" ") == Some(Aggregate::StepInterpolation));
    assert!(Aggregate::from_json("\"tot\\u0061lVariation\"") == Some(Aggregate::TotalVariation));
    assert!(Aggregate::from_json("average") == None);
    assert!(Aggregate::from_json("\"median\"") == None);
    assert!(Aggregate::from_name("discreteVariance") == Some(Aggregate::DiscreteVariance));
    assert!(Aggregate::from_name("Average") == None);
}

#[test]
fn timestamps_or_relative() {
    match TimestampOrRelative::from("2d-ago") {
        TimestampOrRelative::Relative(s) => assert_eq!(s, "2d-ago"),
        _ => panic!("text is relative"),
    }
    match TimestampOrRelative::from(5i64) {
        TimestampOrRelative::Timestamp(t) => assert_eq!(t, 5),
        _ => panic!("an integer is a timestamp"),
    }
}

#[test]
fn datapoint_responses() {
    let item = DataPointListItem {
        id: 3,
        external_id: String::new(),
        is_string: true,
        is_step: false,
        unit: "m".to_owned(),
        next_cursor: "c1".to_owned(),
        unit_external_id: String::new(),
        datapoint_type: Some(ListDatapointType::StringDatapoints(StringDatapoints {
            datapoints: vec![
                StringDatapoint { timestamp: 1, value: "on".to_owned(), null_value: false, status: None },
                StringDatapoint { timestamp: 2, value: String::new(), null_value: true, status: None },
            ],
        })),
    };
    let r = DatapointsResponse::from(item);
    assert_eq!(r.id, 3);
    assert_eq!(r.external_id, None);
    assert_eq!(r.unit.as_deref(), Some("m"));
    assert_eq!(r.next_cursor.as_deref(), Some("c1"));
    assert_eq!(r.unit_external_id, None);
    match r.datapoints.string() {
        Some(v) => {
            assert_eq!(v.len(), 2);
            assert_eq!(v[0].value.as_deref(), Some("on"));
            assert_eq!(v[1].value, None);
        },
        None => panic!("string datapoints"),
    }
    let empty = DataPointListItem {
        id: 4,
        external_id: "x".to_owned(),
        is_string: false,
        is_step: true,
        unit: String::new(),
        next_cursor: String::new(),
        unit_external_id: "temperature:deg_c".to_owned(),
        datapoint_type: None,
    };
    let list = DatapointsListResponse::from(DataPointListResponse { items: vec![empty] });
    assert_eq!(list.items.len(), 1);
    assert_eq!(list.items[0].external_id.as_deref(), Some("x"));
    assert_eq!(list.items[0].unit, None);
    assert_eq!(list.items[0].unit_external_id.as_deref(), Some("temperature:deg_c"));
    assert_eq!(list.items[0].next_cursor, None);
    match &list.items[0].datapoints {
        DatapointsEnumType::NumericDatapoints(v) => assert!(v.is_empty()),
        _ => panic!("no datapoints read as an empty numeric list"),
    }
}

#[test]
fn numeric_datapoint_nulls() {
    let bits = 4.5f64.to_bits();
    let status = Some(Status { code: 0, symbol: "Uncertain".to_owned() });
    let item = DataPointListItem {
        id: 1,
        external_id: String::new(),
        is_string: false,
        is_step: false,
        unit: String::new(),
        next_cursor: String::new(),
        unit_external_id: String::new(),
        datapoint_type: Some(ListDatapointType::NumericDatapoints(NumericDatapoints {
            datapoints: vec![
                NumericDatapoint { timestamp: 1, value: bits, null_value: false, status: status.clone() },
                NumericDatapoint { timestamp: 2, value: 0, null_value: true, status: None },
            ],
        })),
    };
    let v = DatapointsResponse::from(item).datapoints.numeric().unwrap();
    assert_eq!(v[0].value.map(f64::from_bits), Some(4.5));
    assert_eq!(v[0].status, status);
    assert_eq!(v[1].value, None);
    let back = NumericDatapoint::from(DatapointDouble { timestamp: 2, value: None, status: None });
    assert!(back.null_value);
    assert_eq!(back.value, 0);
}

#[test]
fn datapoint_insertion() {
    let bits = 2.5f64.to_bits();
    let add = AddDatapoints::new(
        9,
        DatapointsEnumType::NumericDatapoints(vec![DatapointDouble { timestamp: 1, value: Some(bits), status: None }]),
    );
    let item = insertion_item_from(add);
    assert_eq!(item.time_series_reference, Some(TimeSeriesReference::Id(9)));
    match item.datapoint_type {
        Some(InsertDatapointType::NumericDatapoints(n)) => {
            assert_eq!(f64::from_bits(n.datapoints[0].value), 2.5);
            assert!(!n.datapoints[0].null_value);
        },
        _ => panic!("numeric datapoints"),
    }
    let add = AddDatapoints::new_external_id(
        "ts",
        DatapointsEnumType::StringDatapoints(vec![
            DatapointString { timestamp: 2, value: Some("v".to_owned()), status: None },
            DatapointString { timestamp: 3, value: None, status: None },
        ]),
    );
    let item = insertion_item_from(add);
    assert_eq!(item.time_series_reference, Some(TimeSeriesReference::ExternalId("ts".to_owned())));
    match item.datapoint_type {
        Some(InsertDatapointType::StringDatapoints(s)) => {
            assert_eq!(s.datapoints[0].value, "v");
            assert!(s.datapoints[1].null_value);
            assert_eq!(s.datapoints[1].value, "");
        },
        _ => panic!("string datapoints"),
    }
}

#[test]
fn time_series_references() {
    let node = cognite::models::instances::InstanceId::new("sp", "ts1");
    let r = TimeSeriesReference::from(IdentityOrInstance::InstanceId { instance_id: node });
    match &r {
        TimeSeriesReference::InstanceId(i) => {
            assert_eq!(i.space, "sp");
            assert_eq!(i.external_id, "ts1");
        },
        _ => panic!("a node"),
    }
    assert!(Identity::try_from(r.clone()).is_err());
    match IdentityOrInstance::from(r) {
        IdentityOrInstance::InstanceId { instance_id } => assert_eq!(instance_id.external_id, "ts1"),
        _ => panic!("a node"),
    }
    match Identity::try_from(TimeSeriesReference::from(Identity::external_id("e"))) {
        Ok(Identity::ExternalId { external_id }) => assert_eq!(external_id, "e"),
        _ => panic!("an external ID"),
    }
}

#[test]
fn latest_datapoint_kinds() {
    let d = LatestDatapoint::Numeric(DatapointDouble { timestamp: 5, value: Some(1.0f64.to_bits()), status: None });
    assert_eq!(d.numeric().map(|p| p.timestamp), Some(5));
    assert!(d.string().is_none());
    let s = LatestDatapoint::String(DatapointString { timestamp: 6, value: None, status: None });
    assert!(s.numeric().is_none());
    assert_eq!(s.string().map(|p| p.timestamp), Some(6));
}

#[test]
fn special_doubles() {
    assert_eq!(double_from_text("Infinity"), Ok(f64::INFINITY.to_bits()));
    assert_eq!(double_from_text("-Infinity"), Ok(f64::NEG_INFINITY.to_bits()));
    assert!(f64::from_bits(double_from_text("NaN").unwrap()).is_nan());
    assert_eq!(
        double_from_text("inf"),
        Err("Failed to parse double value from string. Got inf expected Infinity, -Infinity, or NaN".to_owned())
    );
    assert_eq!(double_text(f64::NAN.to_bits()).as_deref(), Some("NaN"));
    assert_eq!(double_text((-f64::NAN).to_bits()).as_deref(), Some("NaN"));
    assert_eq!(double_text(f64::INFINITY.to_bits()).as_deref(), Some("Infinity"));
    assert_eq!(double_text(f64::NEG_INFINITY.to_bits()).as_deref(), Some("-Infinity"));
    assert_eq!(double_text(1.5f64.to_bits()), None);
    assert_eq!(double_text(f64::MAX.to_bits()), None);
}

#[test]
fn event_count() {
    assert_eq!(EventCount::new(12).count, 12);
}

#[test]
fn advanced_filter_combinators() {
    let a = AdvancedFilter::MatchAll {};
    let b = AdvancedFilter::MatchAll {};
    let c = AdvancedFilter::MatchAll {};
    match a.and(b).and(c) {
        AdvancedFilter::And(v) => assert_eq!(v.len(), 3),
        _ => panic!("an and filter"),
    }
    let n = AdvancedFilter::MatchAll {}.not();
    match n.not() {
        AdvancedFilter::MatchAll {} => {},
        _ => panic!("negating twice gives the filter back"),
    }
}

fn view(space: &str, external_id: &str, version: &str) -> ViewReference {
    ViewReference { space: space.to_owned(), external_id: external_id.to_owned(), version: version.to_owned() }
}

#[test]
fn core_data_model_nodes() {
    let file = CogniteExtendable::new("sp".to_owned(), "f1".to_owned(), FileObject::new("report.pdf".to_owned()));
    match file.instance() {
        NodeOrEdgeCreate::Node(n) => {
            assert_eq!(n.space, "sp");
            assert_eq!(n.external_id, "f1");
            let sources = n.sources.unwrap();
            assert_eq!(sources.len(), 1);
            match &sources[0].source {
                SourceReference::View(v) => {
                    assert_eq!(v.space, "cdf_extraction_extensions");
                    assert_eq!(v.external_id, "CogniteExtractorFile");
                    assert_eq!(v.version, "v1");
                },
                _ => panic!("a view source"),
            }
            assert_eq!(sources[0].properties.description.name, "report.pdf");
        },
        _ => panic!("a node"),
    }
    let ts_view = <CogniteExtendable<Timeseries> as WithView>::default_view();
    assert_eq!(ts_view.external_id, "CogniteTimeSeries");
    assert!(Timeseries::new(true).is_step);
}

fn node(properties: Option<Vec<(String, Vec<(String, FileObject)>)>>) -> NodeOrEdge<FileObject> {
    NodeOrEdge::Node(NodeDefinition {
        space: "sp".to_owned(),
        version: 1,
        external_id: "n1".to_owned(),
        node_type: None,
        created_time: 10,
        last_updated_time: 20,
        deleted_time: None,
        properties,
    })
}

#[test]
fn core_data_model_reads() {
    let props = vec![(
        "cdf_extraction_extensions".to_owned(),
        vec![("CogniteExtractorFile/v1".to_owned(), FileObject::new("a.txt".to_owned()))],
    )];
    let read = <CogniteExtendable<FileObject> as FromReadable<FileObject>>::try_from(node(Some(props)), None);
    match read {
        Ok(f) => {
            assert_eq!(f.id.external_id, "n1");
            assert_eq!(f.audit.created_time, 10);
            assert_eq!(f.audit.last_updated_time, 20);
            assert_eq!(f.properties.description.name, "a.txt");
            assert!(f.view.is_none());
        },
        Err(_) => panic!("the properties of the default view are read"),
    }
    let props = vec![("my".to_owned(), vec![("V/2".to_owned(), FileObject::new("b".to_owned()))])];
    let v = view("my", "V", "2");
    match <CogniteExtendable<FileObject> as FromReadable<FileObject>>::try_from(node(Some(props)), Some(&v)) {
        Ok(f) => assert_eq!(f.properties.description.name, "b"),
        Err(_) => panic!("the properties of the given view are read"),
    }
    let props = vec![("my".to_owned(), vec![("V/1".to_owned(), FileObject::new("b".to_owned()))])];
    match <CogniteExtendable<FileObject> as FromReadable<FileObject>>::try_from(node(Some(props)), Some(&v)) {
        Err(Error::Other(m)) => assert_eq!(m, "Invalid properties"),
        _ => panic!("another version is not read"),
    }
    match <CogniteExtendable<FileObject> as FromReadable<FileObject>>::try_from(node(None), None) {
        Err(Error::Other(m)) => assert_eq!(m, "Invalid properties"),
        _ => panic!("a node without properties"),
    }
}

fn number_bound(v: &Option<QueryValue>) -> Option<i64> {
    match v {
        Some(QueryValue::Raw(RawValue::Number(Number::PosInt(n)))) => Some(*n as i64),
        Some(QueryValue::Raw(RawValue::Number(Number::NegInt(n)))) => Some(*n),
        _ => None,
    }
}

#[test]
fn range_filters() {
    match range(vec!["p".to_owned()], 1i64..5) {
        AdvancedFilter::Range { gte, gt, lte, lt, .. } => {
            assert_eq!(number_bound(&gte), Some(1));
            assert!(gt.is_none() && lte.is_none());
            assert_eq!(number_bound(&lt), Some(5));
        },
        _ => panic!("a range filter"),
    }
    match range(vec!["p".to_owned()], -2i64..=7) {
        AdvancedFilter::Range { gte, gt, lte, lt, .. } => {
            assert_eq!(number_bound(&gte), Some(-2));
            assert_eq!(number_bound(&lte), Some(7));
            assert!(gt.is_none() && lt.is_none());
        },
        _ => panic!("a range filter"),
    }
    match range(vec!["p".to_owned()], ..) {
        AdvancedFilter::Range { gte, gt, lte, lt, .. } => {
            assert!(gte.is_none() && gt.is_none() && lte.is_none() && lt.is_none());
        },
        _ => panic!("a range filter"),
    }
}

#[test]
fn writable_nodes() {
    let file = CogniteExtendable::new("sp".to_owned(), "f1".to_owned(), FileObject::new("report.pdf".to_owned()));
    let view = ViewReference { space: "mine".to_owned(), external_id: "MyFile".to_owned(), version: "3".to_owned() };
    match file.try_into_writable(view) {
        Ok(NodeOrEdgeCreate::Node(n)) => {
            assert_eq!(n.space, "sp");
            assert_eq!(n.external_id, "f1");
            assert!(n.existing_version.is_none() && n.node_type.is_none());
            let sources = n.sources.expect("one source");
            assert_eq!(sources.len(), 1);
            match &sources[0].source {
                SourceReference::View(v) => {
                    assert_eq!(v.space, "mine");
                    assert_eq!(v.external_id, "MyFile");
                    assert_eq!(v.version, "3");
                },
                _ => panic!("the given view"),
            }
            assert_eq!(sources[0].properties.description.name, "report.pdf");
        },
        _ => panic!("a node"),
    }
}

#[test]
fn retrieve_instances_request() {
    let r = RetrieveInstancesRequest::from(("node".to_owned(), "n1".to_owned(), "sp".to_owned()));
    assert_eq!(r.instance_type, "node");
    assert_eq!(r.external_id, "n1");
    assert_eq!(r.space, "sp");
}

#[test]
fn reads_through_a_given_view() {
    let props = vec![("my".to_owned(), vec![("V/2".to_owned(), FileObject::new("c".to_owned()))])];
    match <CogniteExtendable<FileObject> as FromReadable<FileObject>>::try_from_readable(
        node(Some(props)),
        view("my", "V", "2"),
    ) {
        Ok(f) => {
            assert_eq!(f.properties.description.name, "c");
            assert_eq!(f.view.map(|v| v.version), Some("2".to_owned()));
        },
        Err(_) => panic!("the properties of the given view are read"),
    }
}

fn int_property(nullable: bool) -> TypePropertyDefinition {
    TypePropertyDefinition {
        nullable: Some(nullable),
        auto_increment: None,
        default_value: None,
        description: None,
        name: None,
        property_type: ViewCorePropertyType::Int64(PrimitiveProperty { list: None, unit: None, max_list_size: None }),
    }
}

#[test]
fn type_information_lookup() {
    let info = TypeInformation(vec![(
        "sp".to_owned(),
        vec![("View/1".to_owned(), vec![("a".to_owned(), int_property(true)), ("a".to_owned(), int_property(false))])],
    )]);
    assert_eq!(info.get_property_info("sp", "View/1", "a").and_then(|d| d.nullable), Some(true));
    assert!(info.get_property_info("sp", "View/1", "b").is_none());
    assert!(info.get_property_info("sp", "View/2", "a").is_none());
    assert!(info.get_property_info("other", "View/1", "a").is_none());
}

#[test]
fn partitioned_reads() {
    let filter = PartitionedFilter::new(7i32, Some("c".to_owned()), Some(10), None);
    let parts = partitioned_filters(&filter, 3);
    assert_eq!(parts.len(), 3);
    for (k, p) in parts.iter().enumerate() {
        let part = p.partition.expect("a partition");
        assert_eq!(part.partition_number, k as u32 + 1);
        assert_eq!(part.num_partitions, 3);
        assert_eq!(p.filter, 7);
        assert_eq!(p.limit, Some(10));
    }
    assert!(partitioned_filters(&filter, 0).is_empty());
    let _ = filter.with_partition(Partition::new(1, 1));
    assert_eq!(merge_partitions(vec![vec![1, 2], vec![], vec![3]]), vec![1, 2, 3]);
    assert!(merge_partitions::<i32>(vec![]).is_empty());
}

fn core_property(identifier: &str, name: &str) -> ViewDefinitionProperties {
    ViewDefinitionProperties::ViewCorePropertyDefinition(ViewCorePropertyDefinition {
        nullable: Some(true),
        auto_increment: None,
        default_value: None,
        description: None,
        name: Some(name.to_owned()),
        property_type: ViewCorePropertyType::Int64(PrimitiveProperty { list: None, unit: None, max_list_size: None }),
        container: TaggedContainerReference::Container(ItemId { space: "sp".to_owned(), external_id: "C".to_owned() }),
        container_property_identifier: identifier.to_owned(),
    })
}

#[test]
fn view_properties_in_creation_form_keep_identifiers() {
    let props = vec![("b".to_owned(), core_property("cb", "B")), ("a".to_owned(), core_property("ca", "A"))];
    let created = create_properties(props);
    assert_eq!(created.len(), 2);
    assert_eq!(created[0].0, "b");
    assert_eq!(created[1].0, "a");
    match &created[1].1 {
        CreateViewPropertyOrConnectionDefinition::CreateViewProperty(p) => {
            assert_eq!(p.container_property_identifier, "ca");
            assert_eq!(p.name.as_deref(), Some("A"));
        },
        _ => panic!("a view property"),
    }
}

fn ext_id_detail(external_id: &str) -> ErrorDetail {
    detail(vec![("externalId", IntegerStringOrObject::String(external_id.to_owned()))])
}

#[test]
fn upsert_steps() {
    let mut c = add_event(Some("c"));
    c.description = Some("new".to_owned());
    let items = vec![add_event(Some("a")), add_event(Some("b")), c];
    let opts = UpsertOptions { ignore_nulls: true, merge_metadata: false, merge_lists: false };
    let (s, a): (UpsertState<AddEvent, PatchEvent, i32>, _) = upsert_start(&items, &opts);
    match a {
        UpsertAction::SendCreate(v) => assert_eq!(v.len(), 3),
        _ => panic!("everything is created first"),
    }
    let first = Err(conflict(vec![ext_id_detail("c")]));
    let (s, a) = upsert_step(s, UpsertEvent::Response(first));
    match a {
        UpsertAction::SendCreate(v) => {
            assert_eq!(v.len(), 2);
            assert_eq!(v[1].external_id.as_deref(), Some("b"));
        },
        _ => panic!("the items that did not exist are created"),
    }
    let (s, a) = upsert_step(s, UpsertEvent::Response(Ok(vec![1, 2])));
    match a {
        UpsertAction::SendUpdate(u) => {
            assert_eq!(u.len(), 1);
            assert_eq!(u[0].id.as_external_id().map(|x| x.as_str()), Some("c"));
        },
        _ => panic!("the existing item is updated"),
    }
    let (s, a) = upsert_step(s, UpsertEvent::Response(Ok(vec![3])));
    assert!(matches!(s, UpsertState::Done));
    match a {
        UpsertAction::Finish(Ok(v)) => assert_eq!(v, vec![1, 2, 3]),
        _ => panic!("created items, then updated ones"),
    }
    // A first response without duplicates is the result.
    let (s, _): (UpsertState<AddEvent, PatchEvent, i32>, _) = upsert_start(&items, &opts);
    match upsert_step(s, UpsertEvent::Response(Ok(vec![7]))).1 {
        UpsertAction::Finish(Ok(v)) => assert_eq!(v, vec![7]),
        _ => panic!("passed through"),
    }
    // All items exist: only updates are sent.
    let (s, _): (UpsertState<AddEvent, PatchEvent, i32>, _) = upsert_start(&items, &opts);
    let all = Err(conflict(vec![ext_id_detail("a"), ext_id_detail("b"), ext_id_detail("c")]));
    let (s, a) = upsert_step(s, UpsertEvent::Response(all));
    match a {
        UpsertAction::SendUpdate(u) => assert_eq!(u.len(), 3),
        _ => panic!("no create request"),
    }
    // A failing request ends the upsert with its error.
    match upsert_step(s, UpsertEvent::Response(Err(Error::Other("down".to_owned())))).1 {
        UpsertAction::Finish(Err(Error::Other(m))) => assert_eq!(m, "down"),
        _ => panic!("the error"),
    }
}

#[test]
fn listing_steps() {
    let mut q = PartitionedFilter::new(1i32, Some("start".to_owned()), None, None);
    q.limit = Some(2);
    let (s, a) = list_start::<i32, _>(q);
    assert!(matches!(a, ListAction::Request));
    assert_eq!(s.params.cursor.as_deref(), Some("start"));
    let (s, a) = list_step(s, PageEvent::Page { items: vec![1, 2], next_cursor: Some("c2".to_owned()) });
    assert!(matches!(a, ListAction::Request));
    assert_eq!(s.params.cursor.as_deref(), Some("c2"));
    let (s, a) = list_step(s, PageEvent::Page { items: vec![3], next_cursor: None });
    assert!(matches!(a, ListAction::Done));
    assert_eq!(s.items, vec![1, 2, 3]);
    let (_, a) = list_step(s, PageEvent::Failed(Error::Other("x".to_owned())));
    assert!(matches!(a, ListAction::Fail(Error::Other(_))));
    let pager: Pager<i32> = Pager::starting_at(Some("c0".to_owned()));
    assert_eq!(pager.next_cursor(), Some("c0".to_owned()));
    assert!(matches!(Pager::<i32>::starting_at(None).state, CursorState::Initial));
}

#[test]
fn partitioned_read_results() {
    let ok: Vec<Result<Vec<i32>, Error>> = vec![Ok(vec![1]), Ok(vec![]), Ok(vec![2, 3])];
    assert_eq!(partitioned_result(ok).ok(), Some(vec![1, 2, 3]));
    let failed: Vec<Result<Vec<i32>, Error>> =
        vec![Ok(vec![1]), Err(Error::Other("first".to_owned())), Err(Error::Other("second".to_owned()))];
    match partitioned_result(failed) {
        Err(Error::Other(m)) => assert_eq!(m, "first"),
        _ => panic!("the first failure"),
    }
    assert_eq!(partitioned_result::<i32>(vec![]).ok(), Some(vec![]));
}

fn vars(v: &[(&str, &str)]) -> Vec<(String, String)> {
    v.iter().map(|(a, b)| (a.to_string(), b.to_string())).collect()
}

#[test]
fn oidc_settings() {
    let full = vars(&[
        ("COGNITE_PROJECT", "p"),
        ("COGNITE_CLIENT_ID", "id"),
        ("COGNITE_TOKEN_URL", "https://t"),
        ("COGNITE_CLIENT_SECRET", "s"),
        ("COGNITE_SCOPES", "a b"),
    ]);
    match oidc_settings_from_vars(&full) {
        Ok(s) => {
            assert_eq!(s.base_url, "https://api.cognitedata.com/");
            assert_eq!(s.project, "p");
            assert_eq!(s.client_id, "id");
            assert_eq!(s.token_url, "https://t");
            assert_eq!(s.secret, "s");
            assert_eq!(s.scopes.as_deref(), Some("a b"));
            assert!(s.resource.is_none() && s.audience.is_none());
        },
        Err(_) => panic!("all required variables are set"),
    }
    let missing = vars(&[("COGNITE_PROJECT", "p"), ("COGNITE_CLIENT_SECRET", "s")]);
    match oidc_settings_from_vars(&missing) {
        Err(Error::EnvironmentVariableMissing(m)) => assert_eq!(
            m,
            "COGNITE_CLIENT_ID is not defined in the environment. Error: environment variable not found"
        ),
        _ => panic!("the client ID is missing"),
    }
    match oidc_settings_from_vars(&vars(&[("COGNITE_BASE_URL", "https://b")])) {
        Err(Error::EnvironmentVariableMissing(m)) => assert!(m.starts_with("COGNITE_PROJECT ")),
        _ => panic!("the project is missing"),
    }
}

#[test]
fn one_sided_range_filters() {
    match range(vec!["p".to_owned()], ..=7i64) {
        AdvancedFilter::Range { gte, gt, lte, lt, .. } => {
            assert_eq!(number_bound(&lte), Some(7));
            assert!(gte.is_none() && gt.is_none() && lt.is_none());
        },
        _ => panic!("a range filter"),
    }
    match range(vec!["p".to_owned()], ..7i64) {
        AdvancedFilter::Range { gte, gt, lte, lt, .. } => {
            assert_eq!(number_bound(&lt), Some(7));
            assert!(gte.is_none() && gt.is_none() && lte.is_none());
        },
        _ => panic!("a range filter"),
    }
    match range(vec!["p".to_owned()], "a".to_owned().."m".to_owned()) {
        AdvancedFilter::Range { gte, lt, .. } => {
            assert!(matches!(gte, Some(QueryValue::Raw(RawValue::String(ref v))) if v == "a"));
            assert!(matches!(lt, Some(QueryValue::Raw(RawValue::String(ref v))) if v == "m"));
        },
        _ => panic!("a range filter"),
    }
    match range(vec!["p".to_owned()], (RangeItem::Exclusive(1i64), RangeItem::Empty)) {
        AdvancedFilter::Range { gte, gt, lte, lt, .. } => {
            assert_eq!(number_bound(&gt), Some(1));
            assert!(gte.is_none() && lte.is_none() && lt.is_none());
        },
        _ => panic!("a range filter"),
    }
    match range(vec!["p".to_owned()], 3i64..) {
        AdvancedFilter::Range { gte, gt, lte, lt, .. } => {
            assert_eq!(number_bound(&gte), Some(3));
            assert!(gt.is_none() && lte.is_none() && lt.is_none());
        },
        _ => panic!("a range filter"),
    }
}

#[test]
fn file_properties_read_back_equal() {
    let mut stored = FileObject::new("d.pdf".to_owned());
    stored.assets = Some(vec![cognite::models::instances::InstanceId::new("sp", "a1")]);
    stored.description.tags = Some(vec!["t".to_owned()]);
    let copy = stored.clone();
    assert_eq!(copy.assets.as_ref().map(|v| v[0].external_id.clone()), Some("a1".to_owned()));
    assert_eq!(copy.description.tags, Some(vec!["t".to_owned()]));
    assert_eq!(copy.description.name, "d.pdf");
}
