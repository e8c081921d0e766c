//! Table-record search: the typed request, its builder, and its wire form.
//!
//! A search request carries the table coordinates in its path, paging and
//! identity options as query parameters, and the search conditions as a JSON
//! body. The body bytes are produced here, field for field, against an exact
//! byte-level specification; delivery goes through the transport.

use vstd::prelude::*;
use vstd::string::StringExecFns;
use vstd::string::StringSliceAdditionalSpecFns;
use vstd::utf8::encode_utf8;

use crate::credential::AccessTokenType;
use crate::json::json_string;
use crate::json::push_json_string;
use crate::json::push_lit;
use crate::strutil::dec_chars_signed;
use crate::strutil::format_i64_str;
use crate::transport::ApiRequest;
use crate::transport::Config;
use crate::transport::HttpMethod;

verus! {

/// Searches records of one table through the transport.
pub struct AppTableRecordService {
    pub config: Config,
}

impl AppTableRecordService {
    pub fn new(config: Config) -> (r: AppTableRecordService)
        ensures
            r.config == config,
    {
        Self { config }
    }

    /// Prepares the API call for one search: the records-search path under
    /// the request's table coordinates, method POST, and both credential
    /// kinds accepted. Query parameters and body carry over unchanged.
    pub fn search_request(&self, request: SearchAppTableRecordRequest) -> (r: ApiRequest)
        ensures
            r.http_method == HttpMethod::Post,
            r.api_path@ == "/open-apis/bitable/v1/apps/"@ + request.app_token@ + "/tables/"@
                + request.table_id@ + "/records/search"@,
            r.query_params == request.api_request.query_params,
            r.body == request.api_request.body,
            r.supported_access_token_types@ == seq![AccessTokenType::Tenant, AccessTokenType::User],
    {
        let mut api_req = request.api_request;
        api_req.http_method = HttpMethod::Post;
        let mut path = "/open-apis/bitable/v1/apps/".to_owned();
        path.append(request.app_token.as_str());
        path.append("/tables/");
        path.append(request.table_id.as_str());
        path.append("/records/search");
        proof {
            assert(path@ =~= "/open-apis/bitable/v1/apps/"@ + request.app_token@ + "/tables/"@
                + request.table_id@ + "/records/search"@);
        }
        api_req.api_path = path;
        let mut kinds: Vec<AccessTokenType> = Vec::new();
        kinds.push(AccessTokenType::Tenant);
        kinds.push(AccessTokenType::User);
        proof {
            assert(kinds@ =~= seq![AccessTokenType::Tenant, AccessTokenType::User]);
        }
        api_req.supported_access_token_types = kinds;
        api_req
    }
}

/// A search over the records of one table.
pub struct SearchAppTableRecordRequest {
    pub api_request: ApiRequest,
    pub app_token: String,
    pub table_id: String,
    pub view_id: Option<String>,
    pub field_names: Option<Vec<String>>,
    pub sort: Option<SearchSort>,
    pub filter: Option<SearchFilterInfo>,
    pub automatic: Option<bool>,
}

/// One sort criterion: a field and a direction.
pub struct SearchSort {
    pub field_name: Option<String>,
    pub desc: Option<bool>,
}

/// The filter: a conjunction word over a list of conditions.
pub struct SearchFilterInfo {
    pub conjunction: Option<String>,
    pub conditions: Option<Vec<SearchCondition>>,
}

/// One filter condition: field, operator, and target values.
pub struct SearchCondition {
    pub field_name: String,
    pub operator: String,
    pub value: Option<Vec<String>>,
}

/// An absent option is written as JSON `null`; a string is quoted.
pub open spec fn opt_string_bytes(o: Option<String>) -> Seq<u8> {
    match o {
        Option::None => "null".spec_bytes(),
        Option::Some(s) => json_string(encode_utf8(s@)),
    }
}

/// The members of a JSON array of strings, comma separated.
pub open spec fn string_members_bytes(v: Seq<String>) -> Seq<u8>
    decreases v.len(),
{
    if v.len() == 0 {
        Seq::empty()
    } else if v.len() == 1 {
        json_string(encode_utf8(v[0]@))
    } else {
        string_members_bytes(v.drop_last()) + ",".spec_bytes() + json_string(
            encode_utf8(v.last()@),
        )
    }
}

/// An absent list is `null`; a present one is a JSON array of strings.
pub open spec fn opt_string_array_bytes(o: Option<Vec<String>>) -> Seq<u8> {
    match o {
        Option::None => "null".spec_bytes(),
        Option::Some(v) => "[".spec_bytes() + string_members_bytes(v@) + "]".spec_bytes(),
    }
}

/// An absent flag is `null`; a present one is a JSON boolean.
pub open spec fn opt_bool_bytes(o: Option<bool>) -> Seq<u8> {
    match o {
        Option::None => "null".spec_bytes(),
        Option::Some(b) => if b {
            "true".spec_bytes()
        } else {
            "false".spec_bytes()
        },
    }
}

/// The JSON object of one sort criterion.
pub open spec fn sort_bytes(s: SearchSort) -> Seq<u8> {
    "{\"field_name\":".spec_bytes() + opt_string_bytes(s.field_name) + ",\"desc\":".spec_bytes()
        + opt_bool_bytes(s.desc) + "}".spec_bytes()
}

/// The JSON object of one filter condition.
pub open spec fn condition_bytes(c: SearchCondition) -> Seq<u8> {
    "{\"field_name\":".spec_bytes() + json_string(encode_utf8(c.field_name@))
        + ",\"operator\":".spec_bytes() + json_string(encode_utf8(c.operator@))
        + ",\"value\":".spec_bytes() + opt_string_array_bytes(c.value) + "}".spec_bytes()
}

/// The members of the conditions array, comma separated.
pub open spec fn condition_members_bytes(v: Seq<SearchCondition>) -> Seq<u8>
    decreases v.len(),
{
    if v.len() == 0 {
        Seq::empty()
    } else if v.len() == 1 {
        condition_bytes(v[0])
    } else {
        condition_members_bytes(v.drop_last()) + ",".spec_bytes() + condition_bytes(v.last())
    }
}

/// The JSON object of the filter.
pub open spec fn filter_bytes(f: SearchFilterInfo) -> Seq<u8> {
    "{\"conjunction\":".spec_bytes() + opt_string_bytes(f.conjunction)
        + ",\"conditions\":".spec_bytes() + (match f.conditions {
        Option::None => "null".spec_bytes(),
        Option::Some(cs) => "[".spec_bytes() + condition_members_bytes(cs@) + "]".spec_bytes(),
    }) + "}".spec_bytes()
}

/// The whole request body: every field in declaration order, absent options
/// as `null`.
pub open spec fn search_body_bytes(r: SearchAppTableRecordRequest) -> Seq<u8> {
    "{\"app_token\":".spec_bytes() + json_string(encode_utf8(r.app_token@))
        + ",\"table_id\":".spec_bytes() + json_string(encode_utf8(r.table_id@))
        + ",\"view_id\":".spec_bytes() + opt_string_bytes(r.view_id)
        + ",\"field_names\":".spec_bytes() + opt_string_array_bytes(r.field_names)
        + ",\"sort\":".spec_bytes() + (match r.sort {
        Option::None => "null".spec_bytes(),
        Option::Some(s) => sort_bytes(s),
    }) + ",\"filter\":".spec_bytes() + (match r.filter {
        Option::None => "null".spec_bytes(),
        Option::Some(f) => filter_bytes(f),
    }) + ",\"automatic\":".spec_bytes() + opt_bool_bytes(r.automatic) + "}".spec_bytes()
}

fn push_opt_string(out: &mut Vec<u8>, o: &Option<String>)
    ensures
        final(out)@ == old(out)@ + opt_string_bytes(*o),
{
    match o {
        Option::None => push_lit(out, "null"),
        Option::Some(s) => push_json_string(out, s.as_str()),
    }
}

fn push_opt_bool(out: &mut Vec<u8>, o: &Option<bool>)
    ensures
        final(out)@ == old(out)@ + opt_bool_bytes(*o),
{
    match o {
        Option::None => push_lit(out, "null"),
        Option::Some(b) => {
            if *b {
                push_lit(out, "true")
            } else {
                push_lit(out, "false")
            }
        },
    }
}

#[verifier::rlimit(50)]
fn push_opt_string_array(out: &mut Vec<u8>, o: &Option<Vec<String>>)
    ensures
        final(out)@ == old(out)@ + opt_string_array_bytes(*o),
{
    match o {
        Option::None => push_lit(out, "null"),
        Option::Some(v) => {
            push_lit(out, "[");
            let ghost start = out@;
            let mut i: usize = 0;
            while i < v.len()
                invariant
                    i <= v@.len(),
                    out@ == start + string_members_bytes(v@.take(i as int)),
                decreases v@.len() - i,
            {
                if i > 0 {
                    push_lit(out, ",");
                }
                push_json_string(out, v[i].as_str());
                proof {
                    assert(v@.take(i + 1 as int).drop_last() =~= v@.take(i as int));
                    assert(v@.take(i + 1 as int).last() == v@[i as int]);
                    if i == 0 {
                        assert(v@.take(1).len() == 1);
                    }
                    assert(out@ =~= start + string_members_bytes(v@.take(i + 1 as int)));
                }
                i = i + 1;
            }
            proof {
                assert(v@.take(v@.len() as int) =~= v@);
            }
            push_lit(out, "]");
            proof {
                assert(out@ =~= old(out)@ + opt_string_array_bytes(*o));
            }
        },
    }
}

fn push_sort(out: &mut Vec<u8>, s: &SearchSort)
    ensures
        final(out)@ == old(out)@ + sort_bytes(*s),
{
    push_lit(out, "{\"field_name\":");
    push_opt_string(out, &s.field_name);
    push_lit(out, ",\"desc\":");
    push_opt_bool(out, &s.desc);
    push_lit(out, "}");
    proof {
        assert(out@ =~= old(out)@ + sort_bytes(*s));
    }
}

fn push_condition(out: &mut Vec<u8>, c: &SearchCondition)
    ensures
        final(out)@ == old(out)@ + condition_bytes(*c),
{
    push_lit(out, "{\"field_name\":");
    push_json_string(out, c.field_name.as_str());
    push_lit(out, ",\"operator\":");
    push_json_string(out, c.operator.as_str());
    push_lit(out, ",\"value\":");
    push_opt_string_array(out, &c.value);
    push_lit(out, "}");
    proof {
        assert(out@ =~= old(out)@ + condition_bytes(*c));
    }
}

fn push_conditions(out: &mut Vec<u8>, cs: &Vec<SearchCondition>)
    ensures
        final(out)@ == old(out)@ + "[".spec_bytes() + condition_members_bytes(cs@)
            + "]".spec_bytes(),
{
    push_lit(out, "[");
    let ghost start = out@;
    let mut i: usize = 0;
    while i < cs.len()
        invariant
            i <= cs@.len(),
            out@ == start + condition_members_bytes(cs@.take(i as int)),
        decreases cs@.len() - i,
    {
        if i > 0 {
            push_lit(out, ",");
        }
        push_condition(out, &cs[i]);
        proof {
            assert(cs@.take(i + 1 as int).drop_last() =~= cs@.take(i as int));
            assert(cs@.take(i + 1 as int).last() == cs@[i as int]);
            if i == 0 {
                assert(cs@.take(1).len() == 1);
            }
            assert(out@ =~= start + condition_members_bytes(cs@.take(i + 1 as int)));
        }
        i = i + 1;
    }
    proof {
        assert(cs@.take(cs@.len() as int) =~= cs@);
    }
    push_lit(out, "]");
    proof {
        assert(out@ =~= old(out)@ + "[".spec_bytes() + condition_members_bytes(cs@)
            + "]".spec_bytes());
    }
}

fn push_filter(out: &mut Vec<u8>, f: &SearchFilterInfo)
    ensures
        final(out)@ == old(out)@ + filter_bytes(*f),
{
    push_lit(out, "{\"conjunction\":");
    push_opt_string(out, &f.conjunction);
    push_lit(out, ",\"conditions\":");
    match &f.conditions {
        Option::None => push_lit(out, "null"),
        Option::Some(cs) => push_conditions(out, cs),
    }
    push_lit(out, "}");
    proof {
        assert(out@ =~= old(out)@ + filter_bytes(*f));
    }
}

/// Serializes the search request to the exact JSON body that is posted.
#[verifier::rlimit(50)]
pub fn serialize_search_body(r: &SearchAppTableRecordRequest) -> (out: Vec<u8>)
    ensures
        out@ == search_body_bytes(*r),
{
    let mut out: Vec<u8> = Vec::new();
    push_lit(&mut out, "{\"app_token\":");
    push_json_string(&mut out, r.app_token.as_str());
    push_lit(&mut out, ",\"table_id\":");
    push_json_string(&mut out, r.table_id.as_str());
    push_lit(&mut out, ",\"view_id\":");
    push_opt_string(&mut out, &r.view_id);
    push_lit(&mut out, ",\"field_names\":");
    push_opt_string_array(&mut out, &r.field_names);
    push_lit(&mut out, ",\"sort\":");
    match &r.sort {
        Option::None => push_lit(&mut out, "null"),
        Option::Some(s) => push_sort(&mut out, s),
    }
    push_lit(&mut out, ",\"filter\":");
    match &r.filter {
        Option::None => push_lit(&mut out, "null"),
        Option::Some(f) => push_filter(&mut out, f),
    }
    push_lit(&mut out, ",\"automatic\":");
    push_opt_bool(&mut out, &r.automatic);
    push_lit(&mut out, "}");
    proof {
        assert(out@ =~= search_body_bytes(*r));
    }
    out
}

impl SearchAppTableRecordRequest {
    /// An empty request, to be filled by the builder.
    pub fn builder() -> (r: AppTableRecordSearchRequestBuilder)
        ensures
            r.request.api_request.params_wf(),
            r.request.api_request.query_params@ == Seq::<(String, String)>::empty(),
            r.request.api_request.body@ == Seq::<u8>::empty(),
            r.request.app_token@ == Seq::<char>::empty(),
            r.request.table_id@ == Seq::<char>::empty(),
            r.request.view_id is None,
            r.request.field_names is None,
            r.request.sort is None,
            r.request.filter is None,
            r.request.automatic is None,
    {
        AppTableRecordSearchRequestBuilder {
            request: SearchAppTableRecordRequest {
                api_request: ApiRequest::new(),
                app_token: String::new(),
                table_id: String::new(),
                view_id: None,
                field_names: None,
                sort: None,
                filter: None,
                automatic: None,
            },
        }
    }
}

/// Builds a search request field by field.
pub struct AppTableRecordSearchRequestBuilder {
    pub request: SearchAppTableRecordRequest,
}

impl AppTableRecordSearchRequestBuilder {
    /// The token of the spreadsheet-like app the table belongs to.
    pub fn app_token(self, app_token: String) -> (r: AppTableRecordSearchRequestBuilder)
        ensures
            r.request == (SearchAppTableRecordRequest { app_token, ..self.request }),
    {
        AppTableRecordSearchRequestBuilder {
            request: SearchAppTableRecordRequest { app_token, ..self.request },
        }
    }

    /// The table to search.
    pub fn table_id(self, table_id: String) -> (r: AppTableRecordSearchRequestBuilder)
        ensures
            r.request == (SearchAppTableRecordRequest { table_id, ..self.request }),
    {
        AppTableRecordSearchRequestBuilder {
            request: SearchAppTableRecordRequest { table_id, ..self.request },
        }
    }

    /// Which user-id flavour the response shall use; sent as a query
    /// parameter.
    pub fn user_id_type(self, user_id_type: String) -> (r: AppTableRecordSearchRequestBuilder)
        requires
            self.request.api_request.params_wf(),
        ensures
            r.request.api_request.params_wf(),
            r.request.api_request.param_of("user_id_type"@) == Some(user_id_type@),
            forall|k: Seq<char>|
                k != "user_id_type"@ ==> #[trigger] r.request.api_request.param_of(k)
                    == self.request.api_request.param_of(k),
            r.request.api_request.http_method == self.request.api_request.http_method,
            r.request.api_request.api_path == self.request.api_request.api_path,
            r.request.api_request.body == self.request.api_request.body,
            r.request.app_token == self.request.app_token,
            r.request.table_id == self.request.table_id,
            r.request.view_id == self.request.view_id,
            r.request.field_names == self.request.field_names,
            r.request.sort == self.request.sort,
            r.request.filter == self.request.filter,
            r.request.automatic == self.request.automatic,
    {
        let mut b = self;
        b.request.api_request.set_query_param("user_id_type".to_owned(), user_id_type);
        b
    }

    /// The paging cursor returned by an earlier search; sent as a query
    /// parameter.
    pub fn page_token(self, page_token: String) -> (r: AppTableRecordSearchRequestBuilder)
        requires
            self.request.api_request.params_wf(),
        ensures
            r.request.api_request.params_wf(),
            r.request.api_request.param_of("page_token"@) == Some(page_token@),
            forall|k: Seq<char>|
                k != "page_token"@ ==> #[trigger] r.request.api_request.param_of(k)
                    == self.request.api_request.param_of(k),
            r.request.api_request.http_method == self.request.api_request.http_method,
            r.request.api_request.api_path == self.request.api_request.api_path,
            r.request.api_request.body == self.request.api_request.body,
            r.request.app_token == self.request.app_token,
            r.request.table_id == self.request.table_id,
            r.request.view_id == self.request.view_id,
            r.request.field_names == self.request.field_names,
            r.request.sort == self.request.sort,
            r.request.filter == self.request.filter,
            r.request.automatic == self.request.automatic,
    {
        let mut b = self;
        b.request.api_request.set_query_param("page_token".to_owned(), page_token);
        b
    }

    /// The page size, rendered in decimal; sent as a query parameter.
    pub fn page_size(self, page_size: i32) -> (r: AppTableRecordSearchRequestBuilder)
        requires
            self.request.api_request.params_wf(),
        ensures
            r.request.api_request.params_wf(),
            r.request.api_request.param_of("page_size"@) == Some(
                dec_chars_signed(page_size as int),
            ),
            forall|k: Seq<char>|
                k != "page_size"@ ==> #[trigger] r.request.api_request.param_of(k)
                    == self.request.api_request.param_of(k),
            r.request.api_request.http_method == self.request.api_request.http_method,
            r.request.api_request.api_path == self.request.api_request.api_path,
            r.request.api_request.body == self.request.api_request.body,
            r.request.app_token == self.request.app_token,
            r.request.table_id == self.request.table_id,
            r.request.view_id == self.request.view_id,
            r.request.field_names == self.request.field_names,
            r.request.sort == self.request.sort,
            r.request.filter == self.request.filter,
            r.request.automatic == self.request.automatic,
    {
        let mut b = self;
        let rendered = format_i64_str(page_size as i64);
        b.request.api_request.set_query_param("page_size".to_owned(), rendered);
        b
    }

    /// The view to read from; ignored by the platform when a filter or a
    /// sort is set.
    pub fn view_id(self, view_id: String) -> (r: AppTableRecordSearchRequestBuilder)
        ensures
            r.request == (SearchAppTableRecordRequest {
                view_id: Some(view_id),
                ..self.request
            }),
    {
        AppTableRecordSearchRequestBuilder {
            request: SearchAppTableRecordRequest { view_id: Some(view_id), ..self.request },
        }
    }

    /// The fields each returned record shall contain.
    pub fn field_names(self, field_names: Vec<String>) -> (r: AppTableRecordSearchRequestBuilder)
        ensures
            r.request == (SearchAppTableRecordRequest {
                field_names: Some(field_names),
                ..self.request
            }),
    {
        AppTableRecordSearchRequestBuilder {
            request: SearchAppTableRecordRequest { field_names: Some(field_names), ..self.request },
        }
    }

    /// The sort criterion.
    pub fn sort(self, sort: SearchSort) -> (r: AppTableRecordSearchRequestBuilder)
        ensures
            r.request == (SearchAppTableRecordRequest { sort: Some(sort), ..self.request }),
    {
        AppTableRecordSearchRequestBuilder {
            request: SearchAppTableRecordRequest { sort: Some(sort), ..self.request },
        }
    }

    /// The filter.
    pub fn filter(self, filter: SearchFilterInfo) -> (r: AppTableRecordSearchRequestBuilder)
        ensures
            r.request == (SearchAppTableRecordRequest { filter: Some(filter), ..self.request }),
    {
        AppTableRecordSearchRequestBuilder {
            request: SearchAppTableRecordRequest { filter: Some(filter), ..self.request },
        }
    }

    /// Whether computed fields are returned.
    pub fn automatic(self, automatic: bool) -> (r: AppTableRecordSearchRequestBuilder)
        ensures
            r.request == (SearchAppTableRecordRequest {
                automatic: Some(automatic),
                ..self.request
            }),
    {
        AppTableRecordSearchRequestBuilder {
            request: SearchAppTableRecordRequest { automatic: Some(automatic), ..self.request },
        }
    }

    /// Serializes the collected fields into the request's body and hands the
    /// request over.
    pub fn build(self) -> (r: SearchAppTableRecordRequest)
        ensures
            r.api_request.body@ == search_body_bytes(self.request),
            r.api_request.http_method == self.request.api_request.http_method,
            r.api_request.api_path == self.request.api_request.api_path,
            r.api_request.query_params == self.request.api_request.query_params,
            r.api_request.supported_access_token_types
                == self.request.api_request.supported_access_token_types,
            r.app_token == self.request.app_token,
            r.table_id == self.request.table_id,
            r.view_id == self.request.view_id,
            r.field_names == self.request.field_names,
            r.sort == self.request.sort,
            r.filter == self.request.filter,
            r.automatic == self.request.automatic,
    {
        let mut request = self.request;
        let body = serialize_search_body(&request);
        request.api_request.body = body;
        request
    }
}

} // verus!
