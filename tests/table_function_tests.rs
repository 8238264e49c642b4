use dateno_duckdb_ext::api::{search_url, RawDataset, SearchResponse};
use dateno_duckdb_ext::table_function::{Cell, LogicalType, ParamValue};
use dateno_duckdb_ext::{DatenoError, DatenoSearchFunction, DatenoSearchInitData};

fn text(s: &str) -> ParamValue {
    ParamValue::Text(s.to_string())
}

fn record(id: &str) -> RawDataset {
    RawDataset {
        id: id.to_string(),
        title: format!("title {}", id),
        description: String::new(),
        format: String::new(),
        source: String::new(),
        url: String::new(),
        created_at: None,
        updated_at: None,
        formats: vec![],
    }
}

fn cursor(n: usize) -> DatenoSearchInitData {
    let raws: Vec<RawDataset> = (0..n).map(|i| record(&format!("r{}", i))).collect();
    let response = SearchResponse::from_raw(n, &raws).unwrap();
    DatenoSearchFunction::init(Ok(response)).unwrap()
}

fn first_text(row: &[Cell]) -> String {
    match &row[0] {
        Cell::Text(s) => s.clone(),
        other => panic!("unexpected cell {:?}", other),
    }
}

#[test]
fn bind_limit_bounds() {
    for (limit, ok) in [(0, false), (101, false), (1, true), (100, true), (-5, false), (50, true)] {
        let params = vec![text("q"), ParamValue::List(vec![]), ParamValue::BigInt(limit)];
        let r = DatenoSearchFunction::bind(&params);
        assert_eq!(r.is_ok(), ok, "limit {}", limit);
        if !ok {
            assert_eq!(r.unwrap_err().message(), "limit must be between 1 and 100");
        }
    }
}

#[test]
fn bind_defaults_and_arguments() {
    let b = DatenoSearchFunction::bind(&vec![text("climate")]).unwrap();
    assert_eq!(b.query, "climate");
    assert!(b.filters.is_empty());
    assert_eq!(b.limit, 10);

    let params = vec![
        text("temperature"),
        ParamValue::List(vec![text("a=b"), ParamValue::BigInt(3), text("c=d")]),
        ParamValue::Other,
    ];
    let b = DatenoSearchFunction::bind(&params).unwrap();
    assert_eq!(b.filters, vec!["a=b".to_string(), "c=d".to_string()]);
    assert_eq!(b.limit, 10);

    // Filters are not checked at bind time.
    let params = vec![text("x"), ParamValue::List(vec![text("broken")])];
    assert!(DatenoSearchFunction::bind(&params).is_ok());
}

#[test]
fn bind_requires_a_text_query() {
    assert_eq!(
        DatenoSearchFunction::bind(&vec![]).unwrap_err().message(),
        "query parameter is required"
    );
    assert_eq!(
        DatenoSearchFunction::bind(&vec![ParamValue::BigInt(3)]).unwrap_err().message(),
        "query parameter must be a string"
    );
}

#[test]
fn bind_rejects_an_empty_query() {
    let params = vec![text(""), ParamValue::List(vec![]), ParamValue::BigInt(10)];
    assert_eq!(
        DatenoSearchFunction::bind(&params).unwrap_err().message(),
        "query parameter must not be empty"
    );
}

#[test]
fn schema_is_fixed() {
    let names: Vec<String> = DatenoSearchFunction::result_columns().into_iter().map(|c| c.0).collect();
    assert_eq!(
        names,
        vec!["id", "title", "description", "format", "source", "url", "created_at", "updated_at", "formats"]
    );
    let types: Vec<LogicalType> = DatenoSearchFunction::result_columns().into_iter().map(|c| c.1).collect();
    assert_eq!(types[0], LogicalType::Varchar);
    assert_eq!(types[6], LogicalType::Timestamp);
    assert_eq!(types[7], LogicalType::Timestamp);
    assert_eq!(types[8], LogicalType::VarcharList);
    // The same after a bind with other arguments, and for an empty scan.
    let _ = DatenoSearchFunction::bind(&vec![text("other")]).unwrap();
    let mut c = cursor(0);
    assert!(DatenoSearchFunction::func(&mut c, 16).is_empty());
    assert_eq!(DatenoSearchFunction::result_columns().len(), 9);
    assert_eq!(
        DatenoSearchFunction::parameters(),
        vec![LogicalType::Varchar, LogicalType::VarcharList, LogicalType::Bigint]
    );
}

#[test]
fn empty_result_yields_no_rows() {
    let mut c = cursor(0);
    assert_eq!(c.remaining(), 0);
    assert!(DatenoSearchFunction::func(&mut c, 2048).is_empty());
}

#[test]
fn exhausted_cursor_stays_exhausted() {
    let mut c = cursor(3);
    assert_eq!(DatenoSearchFunction::func(&mut c, 5).len(), 3);
    for _ in 0..4 {
        assert!(DatenoSearchFunction::func(&mut c, 5).is_empty());
        assert_eq!(c.remaining(), 0);
    }
}

#[test]
fn rows_come_in_chunks_in_order() {
    let mut c = cursor(5);
    let a = DatenoSearchFunction::func(&mut c, 2);
    let b = DatenoSearchFunction::func(&mut c, 2);
    let d = DatenoSearchFunction::func(&mut c, 2);
    let e = DatenoSearchFunction::func(&mut c, 2);
    assert_eq!(a.iter().map(|r| first_text(r)).collect::<Vec<_>>(), vec!["r0", "r1"]);
    assert_eq!(b.iter().map(|r| first_text(r)).collect::<Vec<_>>(), vec!["r2", "r3"]);
    assert_eq!(d.iter().map(|r| first_text(r)).collect::<Vec<_>>(), vec!["r4"]);
    assert!(e.is_empty());
    assert_eq!(c.remaining(), 0);
}

#[test]
fn zero_capacity_writes_nothing() {
    let mut c = cursor(2);
    assert!(DatenoSearchFunction::func(&mut c, 0).is_empty());
    assert_eq!(c.remaining(), 2);
}

#[test]
fn failed_search_creates_no_cursor() {
    let r = DatenoSearchFunction::init(Err(DatenoError::Http("timeout".to_string())));
    assert!(matches!(r, Err(DatenoError::Http(m)) if m == "timeout"));
}

#[test]
fn record_fields_become_typed_cells() {
    let mut raw = record("x");
    raw.created_at = Some("1970-01-01T00:00:01Z".to_string());
    raw.formats = vec!["CSV".to_string(), "JSON".to_string()];
    let response = SearchResponse::from_raw(1, &vec![raw]).unwrap();
    let mut c = DatenoSearchFunction::init(Ok(response)).unwrap();
    let rows = DatenoSearchFunction::func(&mut c, 10);
    assert_eq!(rows.len(), 1);
    let row = &rows[0];
    assert_eq!(row.len(), 9);
    assert!(matches!(&row[1], Cell::Text(s) if s == "title x"));
    assert!(matches!(row[6], Cell::Timestamp(1_000_000)));
    assert!(matches!(row[7], Cell::Null));
    assert!(matches!(&row[8], Cell::List(v) if *v == vec!["CSV".to_string(), "JSON".to_string()]));
}

#[test]
fn end_to_end_single_record() {
    let bind = DatenoSearchFunction::bind(&vec![text("climate"), ParamValue::List(vec![]), ParamValue::BigInt(10)]).unwrap();
    let request = bind.search_request();
    assert_eq!(
        search_url("https://api.dateno.io/search/0.2/query", &request).unwrap(),
        "https://api.dateno.io/search/0.2/query?q=climate&limit=10"
    );
    let mut raw = record("test-1");
    raw.title = "Test Dataset".to_string();
    raw.format = "CSV".to_string();
    let response = SearchResponse::from_raw(1, &vec![raw]).unwrap();
    let mut c = DatenoSearchFunction::init(Ok(response)).unwrap();
    let rows = DatenoSearchFunction::func(&mut c, 2048);
    assert_eq!(rows.len(), 1);
    let row = &rows[0];
    assert!(matches!(&row[0], Cell::Text(s) if s == "test-1"));
    assert!(matches!(&row[1], Cell::Text(s) if s == "Test Dataset"));
    assert!(matches!(&row[2], Cell::Text(s) if s.is_empty()));
    assert!(matches!(&row[3], Cell::Text(s) if s == "CSV"));
    assert!(matches!(&row[4], Cell::Text(s) if s.is_empty()));
    assert!(matches!(&row[5], Cell::Text(s) if s.is_empty()));
    assert!(matches!(row[6], Cell::Null));
    assert!(matches!(row[7], Cell::Null));
    assert!(matches!(&row[8], Cell::List(v) if v.is_empty()));
    assert!(DatenoSearchFunction::func(&mut c, 2048).is_empty());
}

#[test]
fn end_to_end_filtered_empty_result() {
    let params = vec![
        text("temperature"),
        ParamValue::List(vec![text("source.countries.name=Canada")]),
        ParamValue::BigInt(50),
    ];
    let bind = DatenoSearchFunction::bind(&params).unwrap();
    let url = search_url("https://api.dateno.io/search/0.2/query", &bind.search_request()).unwrap();
    assert_eq!(
        url,
        "https://api.dateno.io/search/0.2/query?q=temperature&limit=50&filters=%22source.countries.name%22%3D%22Canada%22"
    );
    let response = SearchResponse::from_raw(0, &vec![]).unwrap();
    let mut c = DatenoSearchFunction::init(Ok(response)).unwrap();
    assert!(DatenoSearchFunction::func(&mut c, 2048).is_empty());
}
