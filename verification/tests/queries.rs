use cognite::cdf_core::asset::AssetQuery;
use cognite::cdf_core::event::EventQuery;
use cognite::cdf_core::files::FileUploadQuery;
use cognite::cdf_core::time_series::TimeSeriesQuery;
use cognite::filter_types::{partitions_for, Partition, PartitionParseError, SetCursor, WithPartition};
use cognite::iam::security_category::SecurityCategoryQuery;
use cognite::iam::session::{SessionQuery, SessionStatus};
use cognite::models::common::SortDirection;
use cognite::models::data_models::DataModelQuery;
use cognite::models::spaces::SpaceQuery;
use cognite::models::views::ViewQuery;
use cognite::params::{to_query_vec, to_query_vec_i64, AsParams, IntoParams};
use cognite::raw::{EnsureParentQuery, RetrieveCursorsQuery, RetrieveRowsQuery};
use cognite::text::{i64_to_string, parse_u32, u64_to_string};

fn pairs(v: &[(&str, &str)]) -> Vec<(String, String)> {
    v.iter().map(|(a, b)| (a.to_string(), b.to_string())).collect()
}

fn empty_asset_query() -> AssetQuery {
    AssetQuery {
        limit: None,
        cursor: None,
        include_metadata: None,
        name: None,
        source: None,
        root: None,
        min_created_time: None,
        max_created_time: None,
        min_last_updated_time: None,
        max_last_updated_time: None,
        external_id_prefix: None,
        partition: None,
    }
}

fn empty_event_query() -> EventQuery {
    EventQuery {
        limit: None,
        cursor: None,
        min_start_time: None,
        max_start_time: None,
        min_end_time: None,
        max_end_time: None,
        min_active_time: None,
        max_active_time: None,
        asset_ids: None,
        asset_external_ids: None,
        asset_subtree_ids: None,
        asset_subtree_external_ids: None,
        source: None,
        event_type: None,
        subtype: None,
        min_created_time: None,
        max_created_time: None,
        min_last_updated_time: None,
        max_last_updated_time: None,
        external_id_prefix: None,
        partition: None,
        include_metadata: None,
        sort: None,
    }
}

#[test]
fn decimal_text() {
    assert_eq!(u64_to_string(0), "0");
    assert_eq!(u64_to_string(1234567890), "1234567890");
    assert_eq!(u64_to_string(u64::MAX), u64::MAX.to_string());
    assert_eq!(i64_to_string(-42), "-42");
    assert_eq!(i64_to_string(i64::MIN), i64::MIN.to_string());
    assert_eq!(parse_u32("4294967295"), Some(u32::MAX));
    assert_eq!(parse_u32("4294967296"), None);
    assert_eq!(parse_u32(""), None);
    assert_eq!(parse_u32("12a"), None);
    assert_eq!(parse_u32("007"), Some(7));
}

#[test]
fn partition_text_and_parse() {
    assert_eq!(Partition::new(3, 10).to_string(), "3/10");
    assert_eq!(Partition::parse("3/10"), Ok(Partition { partition_number: 3, num_partitions: 10 }));
    let p = Partition::new(4, 4);
    assert_eq!(Partition::parse(&p.to_string()), Ok(p));
    let p = Partition::new(1, 3);
    assert_eq!(Partition::parse(&p.to_string()), Ok(p));
    assert_eq!(Partition::parse("3"), Err(PartitionParseError::NotAPair));
    assert_eq!(Partition::parse("1/2/3"), Err(PartitionParseError::NotAPair));
    assert_eq!(Partition::parse("a/2"), Err(PartitionParseError::NotU32));
    assert_eq!(Partition::parse("1/99999999999"), Err(PartitionParseError::NotU32));
    assert_eq!(PartitionParseError::NotAPair.message(), "Expect a string on the form N/M");
    assert_eq!(PartitionParseError::NotU32.message(), "Expected a string on the form u32/u32");
    let parts = partitions_for(3);
    assert_eq!(parts, vec![Partition::new(1, 3), Partition::new(2, 3), Partition::new(3, 3)]);
}

#[test]
fn asset_query_params() {
    assert!(empty_asset_query().to_tuples().is_empty());
    let mut q = empty_asset_query();
    q.limit = Some(100);
    q.root = Some(true);
    q.external_id_prefix = Some("pre".to_owned());
    q.partition = Some(Partition::new(1, 5));
    q.set_cursor(Some("abc".to_owned()));
    assert_eq!(
        q.to_tuples(),
        pairs(&[("limit", "100"), ("cursor", "abc"), ("root", "true"), ("externalIdPrefix", "pre"), ("partition", "1/5")])
    );
}

#[test]
fn asset_query_with_partition_keeps_the_rest() {
    let mut q = empty_asset_query();
    q.name = Some("pump".to_owned());
    q.cursor = Some("c".to_owned());
    let p = q.with_partition(Partition::new(2, 3));
    assert_eq!(p.name.as_deref(), Some("pump"));
    assert_eq!(p.cursor.as_deref(), Some("c"));
    assert_eq!(p.partition, Some(Partition::new(2, 3)));
}

#[test]
fn event_query_params() {
    let mut q = empty_event_query();
    q.asset_ids = Some(vec![1, -2]);
    q.asset_external_ids = Some(vec!["a\"b".to_owned(), "c".to_owned()]);
    q.event_type = Some("alarm".to_owned());
    q.min_last_updated_time = Some(5);
    q.max_last_updated_time = Some(9);
    q.sort = Some(vec!["startTime:desc".to_owned()]);
    assert_eq!(
        q.to_tuples(),
        pairs(&[
            ("assetIds", "[1,-2]"),
            ("assetExternalIds", r#"["a\"b","c"]"#),
            ("type", "alarm"),
            ("minLastUpdatedTime", "5"),
            ("maxLastUpdatedTime", "9"),
            ("sort", r#"["startTime:desc"]"#),
        ])
    );
}

#[test]
fn event_query_with_partition_starts_over() {
    let mut q = empty_event_query();
    q.cursor = Some("c".to_owned());
    q.limit = Some(10);
    q.asset_ids = Some(vec![3]);
    let p = q.with_partition(Partition::new(1, 2));
    assert_eq!(p.cursor, None);
    assert_eq!(p.limit, Some(10));
    assert_eq!(p.asset_ids, Some(vec![3]));
    assert_eq!(p.partition, Some(Partition::new(1, 2)));
}

#[test]
fn array_params() {
    let mut params = Vec::new();
    to_query_vec_i64("ids", &Some(vec![]), &mut params);
    to_query_vec("names", &Some(vec!["x".to_owned()]), &mut params);
    to_query_vec("none", &None, &mut params);
    assert_eq!(params, pairs(&[("ids", "[]"), ("names", r#"["x"]"#)]));
}

#[test]
fn time_series_query_params() {
    let q = TimeSeriesQuery {
        limit: Some(2),
        include_metadata: Some(false),
        cursor: None,
        partition: None,
        external_id_prefix: None,
        asset_ids: None,
        root_asset_ids: Some(vec![7, 8]),
    };
    assert_eq!(
        q.to_tuples(),
        pairs(&[("limit", "2"), ("includeMetadata", "false"), ("rootAssetIds", "[7,8]")])
    );
}

#[test]
fn raw_query_params() {
    let q = RetrieveRowsQuery {
        limit: Some(10),
        columns: Some(vec!["a".to_owned(), "b".to_owned(), "c".to_owned()]),
        cursor: Some("cur".to_owned()),
        min_last_updated_time: None,
        max_last_updated_time: Some(77),
    };
    assert_eq!(
        q.into_params(),
        pairs(&[("limit", "10"), ("columns", "a,b,c"), ("cursor", "cur"), ("maxLastUpdatedTime", "77")])
    );
    let q = RetrieveCursorsQuery { min_last_updated_time: Some(1), max_last_updated_time: None, number_of_cursors: Some(4) };
    assert_eq!(q.into_params(), pairs(&[("minLastUpdatedTime", "1"), ("numberOfCursors", "4")]));
    assert_eq!(EnsureParentQuery::new(true).into_params(), pairs(&[("ensureParent", "true")]));
    assert_eq!(EnsureParentQuery { ensure_parent: None }.into_params(), pairs(&[]));
}

#[test]
fn file_upload_query_params() {
    assert_eq!(FileUploadQuery::new(true).into_params(), pairs(&[("overwrite", "true")]));
    assert_eq!(FileUploadQuery::new(false).into_params(), pairs(&[]));
}

#[test]
fn security_category_and_session_params() {
    let q = SecurityCategoryQuery { sort: Some(SortDirection::Descending), cursor: None, limit: Some(25) };
    assert_eq!(q.into_params(), pairs(&[("sort", "DESC"), ("limit", "25")]));
    let q = SecurityCategoryQuery { sort: Some(SortDirection::Ascending), cursor: Some("x".to_owned()), limit: None };
    assert_eq!(q.into_params(), pairs(&[("sort", "ASC"), ("cursor", "x")]));
    let q = SessionQuery { status: Some(SessionStatus::AccessLost), cursor: None, limit: Some(3) };
    assert_eq!(q.into_params(), pairs(&[("status", "access_lost"), ("limit", "3")]));
    assert_eq!(SessionStatus::Ready.to_string(), "ready");
    assert_eq!(SessionStatus::Cancelled.to_string(), "cancelled");
}

#[test]
fn data_modeling_list_params() {
    let q = ViewQuery {
        limit: Some(5),
        cursor: None,
        space: Some("sp".to_owned()),
        include_inherited_properties: Some(true),
        all_versions: Some(false),
        include_global: Some(true),
    };
    assert_eq!(
        q.into_params(),
        pairs(&[
            ("limit", "5"),
            ("space", "sp"),
            ("includeInheritedProperties", "true"),
            ("allVersions", "false"),
            ("includeGlobal", "true"),
        ])
    );
    let q = SpaceQuery { limit: None, cursor: Some("c".to_owned()), include_global: Some(true) };
    assert_eq!(q.into_params(), pairs(&[("cursor", "c"), ("includeGlobal", "true")]));
    let q = DataModelQuery {
        cursor: None,
        limit: Some(1),
        inline_views: Some(true),
        space: None,
        all_versions: None,
        include_global: Some(false),
    };
    assert_eq!(q.into_params(), pairs(&[("limit", "1"), ("inlineViews", "true"), ("includeGlobal", "false")]));
}
