use vstd::prelude::*;
use vstd::string::*;

use crate::error::DatenoError;

verus! {

/// `i` is the position of the first `=` in `s`.
pub open spec fn is_first_eq(s: Seq<char>, i: int) -> bool {
    &&& 0 <= i < s.len()
    &&& s[i] == '='
    &&& forall|j: int| 0 <= j < i ==> s[j] != '='
}

/// A filter entry split at its first `=`: the key before it, the value after
/// it (further `=` belong to the value). `None` when there is no `=`.
pub open spec fn filter_split(s: Seq<char>) -> Option<(Seq<char>, Seq<char>)> {
    if exists|i: int| is_first_eq(s, i) {
        let i = choose|i: int| is_first_eq(s, i);
        Some((s.subrange(0, i), s.subrange(i + 1, s.len() as int)))
    } else {
        None
    }
}

pub open spec fn invalid_filter_text(s: Seq<char>) -> Seq<char> {
    "Filter must be in format 'key=value', got: "@ + s
}

proof fn lemma_first_eq_unique(s: Seq<char>, i: int, k: int)
    requires
        is_first_eq(s, i),
        is_first_eq(s, k),
    ensures
        i == k,
{
}

/// Splits a `key=value` filter entry at its first `=`.
pub fn parse_filter(filter: &str) -> (r: Result<(String, String), DatenoError>)
    ensures
        r is Ok <==> filter_split(filter@) is Some,
        r matches Ok((k, v)) ==> filter_split(filter@) == Some((k@, v@)),
        r matches Err(e) ==> e matches DatenoError::InvalidFilter(m) && m@ == invalid_filter_text(
            filter@,
        ),
{
    let n = filter.unicode_len();
    let mut i: usize = 0;
    while i < n
        invariant
            n == filter@.len(),
            i <= n,
            forall|j: int| 0 <= j < i ==> filter@[j] != '=',
        decreases n - i,
    {
        if filter.get_char(i) == '=' {
            proof {
                assert(is_first_eq(filter@, i as int));
                let c = choose|c: int| is_first_eq(filter@, c);
                lemma_first_eq_unique(filter@, i as int, c);
            }
            let key = String::from_str(filter.substring_char(0, i));
            let value = String::from_str(filter.substring_char(i + 1, n));
            return Ok((key, value));
        }
        i = i + 1;
    }
    assert(!exists|c: int| is_first_eq(filter@, c));
    Err(
        DatenoError::InvalidFilter(
            String::from_str("Filter must be in format 'key=value', got: ").concat(filter),
        ),
    )
}


/// The parameters of one search call.
#[derive(Debug)]
pub struct SearchRequest {
    pub query: String,
    pub filters: Vec<String>,
    pub limit: i64,
}

/// The accepted range of the result limit.
pub open spec fn limit_ok(limit: int) -> bool {
    1 <= limit <= 100
}

pub open spec fn strs(v: Seq<String>) -> Seq<Seq<char>> {
    v.map_values(|s: String| s@)
}

pub open spec fn pairs_view(v: Seq<(String, String)>) -> Seq<(Seq<char>, Seq<char>)> {
    v.map_values(|p: (String, String)| (p.0@, p.1@))
}

/// A filter as sent on the wire: `"key"="value"`.
pub open spec fn filter_param(k: Seq<char>, v: Seq<char>) -> Seq<char> {
    "\""@ + k + "\"=\""@ + v + "\""@
}

pub open spec fn filter_pair(f: Seq<char>) -> (Seq<char>, Seq<char>) {
    ("filters"@, filter_param(filter_split(f)->Some_0.0, filter_split(f)->Some_0.1))
}

pub open spec fn filters_valid(fs: Seq<Seq<char>>) -> bool {
    forall|i: int| 0 <= i < fs.len() ==> filter_split(#[trigger] fs[i]) is Some
}

/// `i` is the first filter entry without an `=`.
pub open spec fn is_first_invalid(fs: Seq<Seq<char>>, i: int) -> bool {
    &&& 0 <= i < fs.len()
    &&& filter_split(fs[i]) is None
    &&& forall|j: int| 0 <= j < i ==> filter_split(#[trigger] fs[j]) is Some
}

/// The query parameters of a search, in order: `q`, `limit`, then one
/// `filters` pair per filter entry.
pub open spec fn query_pairs_spec(query: Seq<char>, filters: Seq<Seq<char>>, limit: int) -> Seq<
    (Seq<char>, Seq<char>),
> {
    seq![("q"@, query), ("limit"@, crate::error::int_text(limit))] + filters.map_values(
        |f: Seq<char>| filter_pair(f),
    )
}

/// The error a request with this limit and these filters fails with, if any:
/// the limit is checked first, then the filters in order.
pub open spec fn request_error(filters: Seq<Seq<char>>, limit: i64, e: DatenoError) -> bool {
    if !limit_ok(limit as int) {
        e matches DatenoError::InvalidLimit(n) && n == limit
    } else {
        e matches DatenoError::InvalidFilter(m) && exists|i: int|
            #[trigger] is_first_invalid(filters, i) && m@ == invalid_filter_text(filters[i])
    }
}

/// Turns a filter entry into its wire form, `"key"="value"`.
pub fn encode_filter(key: &str, value: &str) -> (r: String)
    ensures
        r@ == filter_param(key@, value@),
{
    String::from_str("\"").concat(key).concat("\"=\"").concat(value).concat("\"")
}

/// Checks the limit, then builds the query parameters of a search.
pub fn query_pairs(request: &SearchRequest) -> (r: Result<Vec<(String, String)>, DatenoError>)
    ensures
        r is Ok <==> limit_ok(request.limit as int) && filters_valid(strs(request.filters@)),
        r matches Ok(p) ==> pairs_view(p@) == query_pairs_spec(
            request.query@,
            strs(request.filters@),
            request.limit as int,
        ),
        r matches Err(e) ==> request_error(strs(request.filters@), request.limit, e),
{
    if request.limit < 1 || request.limit > 100 {
        return Err(DatenoError::InvalidLimit(request.limit));
    }
    let ghost fs = strs(request.filters@);
    let mut pairs: Vec<(String, String)> = Vec::new();
    pairs.push((String::from_str("q"), request.query.clone()));
    pairs.push((String::from_str("limit"), crate::error::i64_text(request.limit)));
    let ghost head = seq![("q"@, request.query@), ("limit"@, crate::error::int_text(request.limit as int))];
    assert(pairs_view(pairs@) =~= head);
    let mut i: usize = 0;
    while i < request.filters.len()
        invariant
            i <= request.filters@.len(),
            limit_ok(request.limit as int),
            fs == strs(request.filters@),
            head == seq![("q"@, request.query@), ("limit"@, crate::error::int_text(request.limit as int))],
            pairs_view(pairs@) == head + fs.take(i as int).map_values(|f: Seq<char>| filter_pair(f)),
            forall|j: int| 0 <= j < i ==> filter_split(#[trigger] fs[j]) is Some,
        decreases request.filters@.len() - i,
    {
        let parsed = parse_filter(request.filters[i].as_str());
        match parsed {
            Ok((k, v)) => {
                let enc = encode_filter(k.as_str(), v.as_str());
                let ghost before = pairs@;
                pairs.push((String::from_str("filters"), enc));
                proof {
                    assert(fs[i as int] == request.filters@[i as int]@);
                    assert(fs.take(i + 1) =~= fs.take(i as int).push(fs[i as int]));
                    assert(pairs_view(pairs@) =~= pairs_view(before).push(filter_pair(fs[i as int])));
                    assert(fs.take(i + 1).map_values(|f: Seq<char>| filter_pair(f)) =~= fs.take(
                        i as int,
                    ).map_values(|f: Seq<char>| filter_pair(f)).push(filter_pair(fs[i as int])));
                }
            },
            Err(e) => {
                proof {
                    assert(fs[i as int] == request.filters@[i as int]@);
                    assert(is_first_invalid(fs, i as int));
                    assert(e->InvalidFilter_0@ == invalid_filter_text(fs[i as int]));
                }
                return Err(e);
            },
        }
        i = i + 1;
    }
    proof {
        assert(fs.take(i as int) =~= fs);
    }
    Ok(pairs)
}

/// What `url::Url::parse_with_params` gives for a base URL and query pairs:
/// the serialized URL, or `None` where the base does not parse.
pub uninterp spec fn url_with_query(base: Seq<char>, pairs: Seq<(Seq<char>, Seq<char>)>) -> Option<
    Seq<char>,
>;

/// Relies on `url::Url::parse_with_params`: it parses `base` as an absolute
/// URL and appends the pairs, form-urlencoded, to its query. Returns the
/// serialized URL, or the text of the parse error.
#[verifier::external_body]
fn url_with_params(base: &str, pairs: &Vec<(String, String)>) -> (r: Result<String, String>)
    ensures
        r is Ok <==> url_with_query(base@, pairs_view(pairs@)) is Some,
        r matches Ok(u) ==> url_with_query(base@, pairs_view(pairs@)) == Some(u@),
{
    match url::Url::parse_with_params(base, pairs.iter().map(|p| (p.0.as_str(), p.1.as_str()))) {
        Ok(u) => Ok(u.to_string()),
        Err(e) => Err(e.to_string()),
    }
}

/// The full URL of a search against the endpoint `base`.
pub fn search_url(base: &str, request: &SearchRequest) -> (r: Result<String, DatenoError>)
    ensures
        r is Ok <==> limit_ok(request.limit as int) && filters_valid(strs(request.filters@))
            && url_with_query(
            base@,
            query_pairs_spec(request.query@, strs(request.filters@), request.limit as int),
        ) is Some,
        r matches Ok(u) ==> url_with_query(
            base@,
            query_pairs_spec(request.query@, strs(request.filters@), request.limit as int),
        ) == Some(u@),
        r matches Err(e) ==> (request_error(strs(request.filters@), request.limit, e) || (
        limit_ok(request.limit as int) && filters_valid(strs(request.filters@))
            && e is Url)),
{
    let pairs = query_pairs(request)?;
    match url_with_params(base, &pairs) {
        Ok(u) => Ok(u),
        Err(m) => Err(DatenoError::Url(m)),
    }
}

/// The `Authorization` header value for a configured credential.
pub open spec fn bearer_text(key: Seq<char>) -> Seq<char> {
    "Bearer "@ + key
}

/// The `Authorization` header of a search: present exactly when a credential
/// is configured, and then a bearer token carrying it.
pub fn authorization_header(api_key: &Option<String>) -> (r: Option<String>)
    ensures
        r is Some <==> api_key is Some,
        r matches Some(h) ==> h@ == bearer_text(api_key->Some_0@),
{
    match api_key {
        Some(k) => Some(String::from_str("Bearer ").concat(k.as_str())),
        None => None,
    }
}

/// The status codes of a successful response.
pub open spec fn status_ok(code: u16) -> bool {
    200 <= code <= 299
}

/// Accepts a success status; any other becomes an API error that carries the
/// status and the response body.
pub fn check_status(code: u16, status: &str, body: &str) -> (r: Result<(), DatenoError>)
    ensures
        r is Ok <==> status_ok(code),
        r matches Err(e) ==> e matches DatenoError::Api(m) && m@ == "API returned status "@
            + status@ + ": "@ + body@,
{
    if 200 <= code && code <= 299 {
        Ok(())
    } else {
        Err(
            DatenoError::Api(
                String::from_str("API returned status ").concat(status).concat(": ").concat(body),
            ),
        )
    }
}

/// What `chrono::DateTime::parse_from_rfc3339` gives for a text, as
/// microseconds since the Unix epoch; `None` where the text is no RFC 3339
/// date-time.
pub uninterp spec fn rfc3339_micros(s: Seq<char>) -> Option<int>;

/// Relies on `chrono::DateTime::parse_from_rfc3339`, read through
/// `DateTime::timestamp_micros`: the instant the text names, in microseconds
/// since the Unix epoch, or the text of the parse error.
#[verifier::external_body]
fn parse_rfc3339(s: &str) -> (r: Result<i64, String>)
    ensures
        r is Ok <==> rfc3339_micros(s@) is Some,
        r matches Ok(m) ==> rfc3339_micros(s@) == Some(m as int),
{
    match chrono::DateTime::parse_from_rfc3339(s) {
        Ok(dt) => Ok(dt.timestamp_micros()),
        Err(e) => Err(e.to_string()),
    }
}

/// An optional timestamp field as decoded: absent stays absent, present text
/// becomes its instant; `None` where the text does not parse.
pub open spec fn timestamp_of(s: Option<String>) -> Option<Option<int>> {
    match s {
        None => Some(None),
        Some(t) => match rfc3339_micros(t@) {
            Some(m) => Some(Some(m)),
            None => None,
        },
    }
}

pub open spec fn opt_int(o: Option<i64>) -> Option<int> {
    match o {
        Some(m) => Some(m as int),
        None => None,
    }
}

/// Reads an optional RFC 3339 timestamp field.
pub fn parse_timestamp(s: &Option<String>) -> (r: Result<Option<i64>, DatenoError>)
    ensures
        r is Ok <==> timestamp_of(*s) is Some,
        r matches Ok(t) ==> timestamp_of(*s) == Some(opt_int(t)),
        r matches Err(e) ==> e is Json,
{
    match s {
        None => Ok(None),
        Some(t) => match parse_rfc3339(t.as_str()) {
            Ok(m) => Ok(Some(m)),
            Err(msg) => Err(DatenoError::Json(msg)),
        },
    }
}

/// One search hit as it arrives: absent text fields are already empty, the
/// timestamps are still text.
#[derive(Debug)]
pub struct RawDataset {
    pub id: String,
    pub title: String,
    pub description: String,
    pub format: String,
    pub source: String,
    pub url: String,
    pub created_at: Option<String>,
    pub updated_at: Option<String>,
    pub formats: Vec<String>,
}

/// One search hit, with its timestamps in microseconds since the Unix epoch.
#[derive(Debug)]
pub struct Dataset {
    pub id: String,
    pub title: String,
    pub description: String,
    pub format: String,
    pub source: String,
    pub url: String,
    pub created_at: Option<i64>,
    pub updated_at: Option<i64>,
    pub formats: Vec<String>,
}

impl RawDataset {
    /// Both timestamps of the record parse.
    pub open spec fn decodes(&self) -> bool {
        timestamp_of(self.created_at) is Some && timestamp_of(self.updated_at) is Some
    }
}

impl Dataset {
    /// `self` holds what `raw` holds, with its timestamps read.
    pub open spec fn decoded_from(&self, raw: RawDataset) -> bool {
        &&& self.id@ == raw.id@
        &&& self.title@ == raw.title@
        &&& self.description@ == raw.description@
        &&& self.format@ == raw.format@
        &&& self.source@ == raw.source@
        &&& self.url@ == raw.url@
        &&& timestamp_of(raw.created_at) == Some(opt_int(self.created_at))
        &&& timestamp_of(raw.updated_at) == Some(opt_int(self.updated_at))
        &&& strs(self.formats@) == strs(raw.formats@)
    }

    /// Reads the timestamps of a record as it arrived.
    pub fn from_raw(raw: &RawDataset) -> (r: Result<Dataset, DatenoError>)
        ensures
            r is Ok <==> raw.decodes(),
            r matches Ok(d) ==> d.decoded_from(*raw),
            r matches Err(e) ==> e is Json,
    {
        let created_at = parse_timestamp(&raw.created_at)?;
        let updated_at = parse_timestamp(&raw.updated_at)?;
        let formats = clone_strings(&raw.formats);
        Ok(
            Dataset {
                id: raw.id.clone(),
                title: raw.title.clone(),
                description: raw.description.clone(),
                format: raw.format.clone(),
                source: raw.source.clone(),
                url: raw.url.clone(),
                created_at,
                updated_at,
                formats,
            },
        )
    }
}

/// A copy of a list of strings.
pub fn clone_strings(v: &Vec<String>) -> (r: Vec<String>)
    ensures
        strs(r@) == strs(v@),
{
    let mut out: Vec<String> = Vec::new();
    let mut i: usize = 0;
    while i < v.len()
        invariant
            i <= v@.len(),
            strs(out@) == strs(v@).take(i as int),
        decreases v@.len() - i,
    {
        out.push(v[i].clone());
        proof {
            assert(strs(v@).take(i + 1) =~= strs(v@).take(i as int).push(v@[i as int]@));
            assert(strs(out@) =~= strs(v@).take(i + 1));
        }
        i = i + 1;
    }
    proof {
        assert(strs(v@).take(i as int) =~= strs(v@));
    }
    out
}

/// A search response: the reported total and the hits.
#[derive(Debug)]
pub struct SearchResponse {
    pub total: usize,
    pub results: Vec<Dataset>,
}

impl SearchResponse {
    /// Builds a response from the decoded body: fails when any hit carries a
    /// timestamp that does not parse, and then no hit is kept.
    pub fn from_raw(total: usize, results: &Vec<RawDataset>) -> (r: Result<
        SearchResponse,
        DatenoError,
    >)
        ensures
            r is Ok <==> forall|i: int| 0 <= i < results@.len() ==> (#[trigger] results@[i]).decodes(),
            r matches Ok(s) ==> s.total == total && s.results@.len() == results@.len() && forall|
                i: int,
            | 0 <= i < results@.len() ==> (#[trigger] s.results@[i]).decoded_from(results@[i]),
            r matches Err(e) ==> e is Json,
    {
        let mut out: Vec<Dataset> = Vec::new();
        let mut i: usize = 0;
        while i < results.len()
            invariant
                i <= results@.len(),
                out@.len() == i,
                forall|j: int| 0 <= j < i ==> (#[trigger] results@[j]).decodes(),
                forall|j: int| 0 <= j < i ==> (#[trigger] out@[j]).decoded_from(results@[j]),
            decreases results@.len() - i,
        {
            let d = Dataset::from_raw(&results[i])?;
            out.push(d);
            i = i + 1;
        }
        Ok(SearchResponse { total, results: out })
    }
}

} // verus!
