use vstd::prelude::*;
use vstd::string::*;

use crate::api::{limit_ok, strs, Dataset, SearchRequest, SearchResponse};
use crate::error::DatenoError;

verus! {

/// The column and parameter types the table function speaks of.
#[derive(Clone, Copy, Debug, PartialEq, Eq, Structural)]
pub enum LogicalType {
    Varchar,
    Bigint,
    Timestamp,
    VarcharList,
}

/// A positional argument as the host engine hands it over.
#[derive(Debug)]
pub enum ParamValue {
    Text(String),
    List(Vec<ParamValue>),
    BigInt(i64),
    Other,
}

/// The validated arguments of one scan; read-only once built.
#[derive(Debug)]
pub struct DatenoSearchBindData {
    pub query: String,
    pub filters: Vec<String>,
    pub limit: i64,
}

/// One output cell.
#[derive(Debug)]
pub enum Cell {
    Text(String),
    Timestamp(i64),
    Null,
    List(Vec<String>),
}

/// The value of an output cell.
pub ghost enum CellView {
    Text(Seq<char>),
    Timestamp(int),
    Null,
    List(Seq<Seq<char>>),
}

impl View for Cell {
    type V = CellView;

    open spec fn view(&self) -> CellView {
        match self {
            Cell::Text(s) => CellView::Text(s@),
            Cell::Timestamp(m) => CellView::Timestamp(*m as int),
            Cell::Null => CellView::Null,
            Cell::List(v) => CellView::List(strs(v@)),
        }
    }
}

/// The declared parameters: query, filters, limit.
pub open spec fn parameter_types() -> Seq<LogicalType> {
    seq![LogicalType::Varchar, LogicalType::VarcharList, LogicalType::Bigint]
}

/// The fixed output schema, in column order.
pub open spec fn output_schema() -> Seq<(Seq<char>, LogicalType)> {
    seq![
        ("id"@, LogicalType::Varchar),
        ("title"@, LogicalType::Varchar),
        ("description"@, LogicalType::Varchar),
        ("format"@, LogicalType::Varchar),
        ("source"@, LogicalType::Varchar),
        ("url"@, LogicalType::Varchar),
        ("created_at"@, LogicalType::Timestamp),
        ("updated_at"@, LogicalType::Timestamp),
        ("formats"@, LogicalType::VarcharList),
    ]
}

pub open spec fn columns_view(v: Seq<(String, LogicalType)>) -> Seq<(Seq<char>, LogicalType)> {
    v.map_values(|c: (String, LogicalType)| (c.0@, c.1))
}

/// The text items of a list argument, in order; other items are skipped.
pub open spec fn text_items(items: Seq<ParamValue>) -> Seq<Seq<char>>
    decreases items.len(),
{
    if items.len() == 0 {
        seq![]
    } else {
        let rest = text_items(items.drop_last());
        match items.last() {
            ParamValue::Text(s) => rest.push(s@),
            _ => rest,
        }
    }
}

/// The query argument, where the first argument is text.
pub open spec fn bound_query(params: Seq<ParamValue>) -> Option<Seq<char>> {
    if params.len() >= 1 {
        match params[0] {
            ParamValue::Text(s) => Some(s@),
            _ => None,
        }
    } else {
        None
    }
}

/// The filters argument: the text items of a list in second place, else none.
pub open spec fn bound_filters(params: Seq<ParamValue>) -> Seq<Seq<char>> {
    if params.len() >= 2 {
        match params[1] {
            ParamValue::List(items) => text_items(items@),
            _ => seq![],
        }
    } else {
        seq![]
    }
}

/// The limit argument: an integer in third place, else 10.
pub open spec fn bound_limit(params: Seq<ParamValue>) -> int {
    if params.len() >= 3 {
        match params[2] {
            ParamValue::BigInt(n) => n as int,
            _ => 10,
        }
    } else {
        10
    }
}

/// A row of output cells.
pub open spec fn row_view(r: Seq<Cell>) -> Seq<CellView> {
    r.map_values(|c: Cell| c@)
}

pub open spec fn time_cell(t: Option<i64>) -> CellView {
    match t {
        Some(m) => CellView::Timestamp(m as int),
        None => CellView::Null,
    }
}

/// The output row of one record, column by column.
pub open spec fn record_row(d: Dataset) -> Seq<CellView> {
    seq![
        CellView::Text(d.id@),
        CellView::Text(d.title@),
        CellView::Text(d.description@),
        CellView::Text(d.format@),
        CellView::Text(d.source@),
        CellView::Text(d.url@),
        time_cell(d.created_at),
        time_cell(d.updated_at),
        CellView::List(strs(d.formats@)),
    ]
}

/// How many rows one producer call writes: as many as fit, at most what is
/// left.
pub open spec fn chunk_len(len: int, pos: int, capacity: int) -> int {
    if capacity < len - pos {
        capacity
    } else {
        len - pos
    }
}

fn text_cell(s: &String) -> (c: Cell)
    ensures
        c@ == CellView::Text(s@),
{
    Cell::Text(s.clone())
}

fn timestamp_cell(t: Option<i64>) -> (c: Cell)
    ensures
        c@ == time_cell(t),
{
    match t {
        Some(m) => Cell::Timestamp(m),
        None => Cell::Null,
    }
}

/// Converts one record into its output row.
pub fn dataset_row(d: &Dataset) -> (r: Vec<Cell>)
    ensures
        row_view(r@) == record_row(*d),
{
    let mut r: Vec<Cell> = Vec::new();
    r.push(text_cell(&d.id));
    r.push(text_cell(&d.title));
    r.push(text_cell(&d.description));
    r.push(text_cell(&d.format));
    r.push(text_cell(&d.source));
    r.push(text_cell(&d.url));
    r.push(timestamp_cell(d.created_at));
    r.push(timestamp_cell(d.updated_at));
    r.push(Cell::List(crate::api::clone_strings(&d.formats)));
    assert(row_view(r@) =~= record_row(*d));
    r
}

impl DatenoSearchBindData {
    /// The one search request of a scan, with the bound query, filters and
    /// limit.
    pub fn search_request(&self) -> (r: SearchRequest)
        ensures
            r.query@ == self.query@,
            strs(r.filters@) == strs(self.filters@),
            r.limit == self.limit,
    {
        SearchRequest {
            query: self.query.clone(),
            filters: crate::api::clone_strings(&self.filters),
            limit: self.limit,
        }
    }
}

/// The cursor of one scan: every fetched record, and how many of them have
/// been produced.
#[derive(Debug)]
pub struct DatenoSearchInitData {
    results: Vec<Dataset>,
    current_index: usize,
}

impl DatenoSearchInitData {
    #[verifier::type_invariant]
    spec fn inv(&self) -> bool {
        self.current_index <= self.results@.len()
    }

    /// The buffered records.
    pub closed spec fn records(&self) -> Seq<Dataset> {
        self.results@
    }

    /// The read position: how many records have been produced.
    pub closed spec fn position(&self) -> int {
        self.current_index as int
    }

    /// A cursor at the start of the given records.
    pub fn new(results: Vec<Dataset>) -> (r: Self)
        ensures
            r.records() == results@,
            r.position() == 0,
    {
        DatenoSearchInitData { results, current_index: 0 }
    }

    /// The number of records not produced yet.
    pub fn remaining(&self) -> (r: usize)
        ensures
            r == self.records().len() - self.position(),
    {
        proof {
            use_type_invariant(self);
        }
        self.results.len() - self.current_index
    }
}

/// The `dateno_search` table function.
pub struct DatenoSearchFunction;

impl DatenoSearchFunction {
    /// The declared positional parameters.
    pub fn parameters() -> (r: Vec<LogicalType>)
        ensures
            r@ == parameter_types(),
    {
        let mut r: Vec<LogicalType> = Vec::new();
        r.push(LogicalType::Varchar);
        r.push(LogicalType::VarcharList);
        r.push(LogicalType::Bigint);
        assert(r@ =~= parameter_types());
        r
    }

    /// The output schema declared at bind time; the same for every scan.
    pub fn result_columns() -> (r: Vec<(String, LogicalType)>)
        ensures
            columns_view(r@) == output_schema(),
            r@.len() == 9,
    {
        let mut r: Vec<(String, LogicalType)> = Vec::new();
        r.push((String::from_str("id"), LogicalType::Varchar));
        r.push((String::from_str("title"), LogicalType::Varchar));
        r.push((String::from_str("description"), LogicalType::Varchar));
        r.push((String::from_str("format"), LogicalType::Varchar));
        r.push((String::from_str("source"), LogicalType::Varchar));
        r.push((String::from_str("url"), LogicalType::Varchar));
        r.push((String::from_str("created_at"), LogicalType::Timestamp));
        r.push((String::from_str("updated_at"), LogicalType::Timestamp));
        r.push((String::from_str("formats"), LogicalType::VarcharList));
        assert(columns_view(r@) =~= output_schema());
        assert(r@.len() == columns_view(r@).len());
        r
    }

    /// Validates the positional arguments (query, filters, limit) into the
    /// scan's descriptor. Filters are kept as given; they are checked when
    /// the request is built.
    pub fn bind(params: &Vec<ParamValue>) -> (r: Result<DatenoSearchBindData, DatenoError>)
        ensures
            params@.len() == 0 ==> (r matches Err(DatenoError::Bind(m)) && m@
                == "query parameter is required"@),
            params@.len() > 0 && bound_query(params@) is None ==> (r matches Err(
                DatenoError::Bind(m),
            ) && m@ == "query parameter must be a string"@),
            bound_query(params@) == Some(Seq::<char>::empty()) ==> (r matches Err(
                DatenoError::Bind(m),
            ) && m@ == "query parameter must not be empty"@),
            bound_query(params@) is Some && bound_query(params@)->Some_0.len() > 0 ==> (r is Ok
                <==> limit_ok(bound_limit(params@))),
            bound_query(params@) is Some && bound_query(params@)->Some_0.len() > 0 && !limit_ok(
                bound_limit(params@),
            ) ==> (r matches Err(DatenoError::Bind(m)) && m@
                == "limit must be between 1 and 100"@),
            r matches Ok(b) ==> b.query@ == bound_query(params@)->Some_0 && b.query@.len() > 0
                && strs(b.filters@) == bound_filters(params@) && b.limit == bound_limit(params@),
    {
        if params.len() == 0 {
            return Err(DatenoError::Bind(String::from_str("query parameter is required")));
        }
        let query = match &params[0] {
            ParamValue::Text(s) => s.clone(),
            _ => {
                return Err(
                    DatenoError::Bind(String::from_str("query parameter must be a string")),
                );
            },
        };
        if query.as_str().unicode_len() == 0 {
            proof {
                assert(query@ =~= Seq::<char>::empty());
            }
            return Err(DatenoError::Bind(String::from_str("query parameter must not be empty")));
        }
        let mut filters: Vec<String> = Vec::new();
        if params.len() >= 2 {
            match &params[1] {
                ParamValue::List(items) => {
                    filters = text_strings(items);
                },
                _ => {},
            }
        }
        let mut limit: i64 = 10;
        if params.len() >= 3 {
            match &params[2] {
                ParamValue::BigInt(n) => {
                    limit = *n;
                },
                _ => {},
            }
        }
        if limit < 1 || limit > 100 {
            return Err(DatenoError::Bind(String::from_str("limit must be between 1 and 100")));
        }
        Ok(DatenoSearchBindData { query, filters, limit })
    }

    /// Starts a scan from the outcome of its one search: a failed search
    /// fails the scan and no cursor exists; otherwise the cursor holds every
    /// hit, at position 0.
    pub fn init(response: Result<SearchResponse, DatenoError>) -> (r: Result<
        DatenoSearchInitData,
        DatenoError,
    >)
        ensures
            r is Ok <==> response is Ok,
            r matches Ok(d) ==> d.records() == response->Ok_0.results@ && d.position() == 0,
            r matches Err(e) ==> response == Err::<SearchResponse, DatenoError>(e),
    {
        match response {
            Ok(resp) => Ok(DatenoSearchInitData::new(resp.results)),
            Err(e) => Err(e),
        }
    }

    /// Produces the next chunk: the rows of the next records, as many as
    /// `capacity` allows, and advances the cursor past them. An exhausted
    /// cursor yields no rows.
    pub fn func(data: &mut DatenoSearchInitData, capacity: usize) -> (rows: Vec<Vec<Cell>>)
        ensures
            final(data).records() == old(data).records(),
            0 <= old(data).position() <= final(data).position() <= final(data).records().len(),
            final(data).position() == old(data).position() + chunk_len(
                old(data).records().len() as int,
                old(data).position(),
                capacity as int,
            ),
            rows@.len() == final(data).position() - old(data).position(),
            rows@.map_values(|r: Vec<Cell>| row_view(r@)) == old(data).records().subrange(
                old(data).position(),
                final(data).position(),
            ).map_values(|d: Dataset| record_row(d)),
    {
        proof {
            use_type_invariant(&*data);
        }
        let start = data.current_index;
        let left = data.results.len() - start;
        let n = if capacity < left {
            capacity
        } else {
            left
        };
        let end = start + n;
        let mut rows: Vec<Vec<Cell>> = Vec::new();
        let mut i: usize = start;
        while i < end
            invariant
                start <= i <= end <= data.results@.len(),
                rows@.len() == i - start,
                rows@.map_values(|r: Vec<Cell>| row_view(r@)) == data.results@.subrange(
                    start as int,
                    i as int,
                ).map_values(|d: Dataset| record_row(d)),
            decreases end - i,
        {
            let row = dataset_row(&data.results[i]);
            let ghost before = rows@;
            rows.push(row);
            proof {
                let f = |r: Vec<Cell>| row_view(r@);
                let g = |d: Dataset| record_row(d);
                assert(data.results@.subrange(start as int, i + 1) =~= data.results@.subrange(
                    start as int,
                    i as int,
                ).push(data.results@[i as int]));
                assert(rows@.map_values(f) =~= before.map_values(f).push(f(row)));
                assert(data.results@.subrange(start as int, i + 1).map_values(g)
                    =~= data.results@.subrange(start as int, i as int).map_values(g).push(
                    g(data.results@[i as int]),
                ));
            }
            i = i + 1;
        }
        data.current_index = end;
        rows
    }
}

/// The text items of a list argument, in order.
fn text_strings(items: &Vec<ParamValue>) -> (r: Vec<String>)
    ensures
        strs(r@) == text_items(items@),
{
    let mut out: Vec<String> = Vec::new();
    let mut i: usize = 0;
    while i < items.len()
        invariant
            i <= items@.len(),
            strs(out@) == text_items(items@.take(i as int)),
        decreases items@.len() - i,
    {
        let ghost before = out@;
        match &items[i] {
            ParamValue::Text(s) => {
                out.push(s.clone());
                assert(strs(out@) =~= strs(before).push(s@));
            },
            _ => {},
        }
        proof {
            assert(items@.take(i + 1).drop_last() =~= items@.take(i as int));
        }
        i = i + 1;
    }
    proof {
        assert(items@.take(i as int) =~= items@);
    }
    out
}

/// A scan whose search returned no hits is exhausted from its start: its
/// first producer call, whatever its capacity, writes no rows and leaves the
/// cursor where it was.
pub proof fn empty_result_yields_no_rows(results: Seq<Dataset>, capacity: int)
    requires
        results.len() == 0,
        capacity >= 0,
    ensures
        chunk_len(results.len() as int, 0, capacity) == 0,
        results.subrange(0, 0).map_values(|d: Dataset| record_row(d)) == Seq::<Seq<CellView>>::empty(),
{
    assert(results.subrange(0, 0).map_values(|d: Dataset| record_row(d)) =~= Seq::<Seq<CellView>>::empty());
}

/// Exhaustion is terminal: once a call with room for rows writes none, the
/// cursor is at the end, and every further call writes none and leaves it
/// there.
pub proof fn exhausted_scan_stays_exhausted(len: int, pos: int, capacity: int, next_capacity: int)
    requires
        0 <= pos <= len,
        capacity > 0,
        next_capacity >= 0,
        chunk_len(len, pos, capacity) == 0,
    ensures
        pos == len,
        chunk_len(len, pos, next_capacity) == 0,
{
}

} // verus!
