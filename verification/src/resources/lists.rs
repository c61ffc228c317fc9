//! Find-all ("lists"): build entity lists from a query, then enrich or extend them.
use vstd::prelude::*;

use crate::client::{ApiRequest, Client, HttpMethod};
use crate::json::{
    members_view,
    object,
    opt_json_member,
    opt_strs_member,
    opt_u32_member,
    push_member,
    push_opt_json,
    push_opt_strs,
    push_opt_u32,
    Json,
    JsonView,
};
use super::{bare, id_path, list_page, page_query, path_with_id, post, request_is, Pager};

verus! {

/// Inputs to [`Lists::create`] and [`Lists::run`].
#[derive(Debug, Clone, Default)]
pub struct ListsParams {
    pub query: String,
    pub fields: Option<Vec<String>>,
    pub output_schema: Option<Json>,
    pub limit: Option<u32>,
}

impl ListsParams {
    /// The JSON body these inputs are sent as: each field under its name, absent
    /// optional fields left out.
    pub open spec fn serialized(self) -> JsonView {
        JsonView::Object(
            seq![("query"@, JsonView::Str(self.query@))]
                + opt_strs_member("fields"@, self.fields)
                + opt_json_member("output_schema"@, self.output_schema)
                + opt_u32_member("limit"@, self.limit),
        )
    }

    /// The JSON body these inputs are sent as.
    pub fn to_json(self) -> (j: Json)
        ensures
            j@ == self.serialized(),
    {
        let mut m: Vec<(String, Json)> = Vec::new();
        let ghost v = self;
        push_member(&mut m, "query", Json::Str(self.query));
        push_opt_strs(&mut m, "fields", self.fields);
        push_opt_json(&mut m, "output_schema", self.output_schema);
        push_opt_u32(&mut m, "limit", self.limit);
        assert(members_view(m@) =~= seq![("query"@, JsonView::Str(v.query@))] + opt_strs_member("fields"@, v.fields) + opt_json_member("output_schema"@, v.output_schema) + opt_u32_member("limit"@, v.limit));
        object(m)
    }
}

/// Find-all ("lists"): build a list of entities matching a query, then enrich
/// or extend the run.
pub struct Lists<'a> {
    pub(crate) client: &'a Client,
}

impl<'a> Lists<'a> {
    /// The client this handle sends through.
    pub closed spec fn client_ref(self) -> &'a Client {
        self.client
    }
}

impl Client {
    /// Find-all ("lists").
    pub fn lists(&self) -> (r: Lists<'_>)
        ensures
            r.client_ref() == self,
    {
        Lists { client: self }
    }
}

impl<'a> Lists<'a> {
    /// Run a find-all synchronously.
    pub fn create(&self, params: ListsParams) -> (r: ApiRequest)
        ensures
            request_is(r, HttpMethod::Post, "/v1/lists"@, Seq::empty(), Some(params.serialized())),
    {
        post("/v1/lists".to_owned(), params.to_json())
    }

    /// Start an async find-all run; poll `runs().get(id)` for progress.
    pub fn run(&self, params: ListsParams) -> (r: ApiRequest)
        ensures
            request_is(r, HttpMethod::Post, "/v1/lists/runs"@, Seq::empty(), Some(params.serialized())),
    {
        post("/v1/lists/runs".to_owned(), params.to_json())
    }
}

/// Operations on async find-all runs.
pub struct ListRuns<'a> {
    pub(crate) client: &'a Client,
}

impl<'a> ListRuns<'a> {
    /// The client this handle sends through.
    pub closed spec fn client_ref(self) -> &'a Client {
        self.client
    }
}

impl<'a> Lists<'a> {
    /// Operations on async find-all runs.
    pub fn runs(&self) -> (r: ListRuns<'a>)
        ensures
            r.client_ref() == self.client_ref(),
    {
        ListRuns { client: self.client }
    }
}

impl<'a> ListRuns<'a> {
    /// List find-all runs.
    pub fn list(&self, limit: u32, offset: u32) -> (r: ApiRequest)
        ensures
            request_is(r, HttpMethod::Get, "/v1/lists/runs"@, page_query(limit as nat, offset as nat), None),
    {
        list_page("/v1/lists/runs", limit, offset)
    }

    /// Collect every find-all run across all pages.
    pub fn list_all(&self) -> (p: Pager)
        ensures
            p@.path == "/v1/lists/runs"@,
            p@.items == Seq::<Json>::empty(),
            !p@.done,
    {
        Pager::new("/v1/lists/runs")
    }

    /// Fetch a find-all run by id.
    pub fn get(&self, findall_id: &str) -> (r: ApiRequest)
        ensures
            request_is(r, HttpMethod::Get, id_path("/v1/lists/runs/"@, findall_id, ""@), Seq::empty(), None),
    {
        bare(HttpMethod::Get, path_with_id("/v1/lists/runs/", findall_id, ""))
    }

    /// Cancel a find-all run.
    pub fn cancel(&self, findall_id: &str) -> (r: ApiRequest)
        ensures
            request_is(r, HttpMethod::Post, id_path("/v1/lists/runs/"@, findall_id, "/cancel"@), Seq::empty(), None),
    {
        bare(HttpMethod::Post, path_with_id("/v1/lists/runs/", findall_id, "/cancel"))
    }

    /// Enrich the run's entities with additional fields.
    pub fn enrich(&self, findall_id: &str, body: Json) -> (r: ApiRequest)
        ensures
            request_is(r, HttpMethod::Post, id_path("/v1/lists/runs/"@, findall_id, "/enrich"@), Seq::empty(), Some(body@)),
    {
        post(path_with_id("/v1/lists/runs/", findall_id, "/enrich"), body)
    }

    /// Extend the run with more matching entities.
    pub fn extend(&self, findall_id: &str, body: Json) -> (r: ApiRequest)
        ensures
            request_is(r, HttpMethod::Post, id_path("/v1/lists/runs/"@, findall_id, "/extend"@), Seq::empty(), Some(body@)),
    {
        post(path_with_id("/v1/lists/runs/", findall_id, "/extend"), body)
    }

    /// Fetch a find-all run's events.
    pub fn events(&self, findall_id: &str) -> (r: ApiRequest)
        ensures
            request_is(r, HttpMethod::Get, id_path("/v1/lists/runs/"@, findall_id, "/events"@), Seq::empty(), None),
    {
        bare(HttpMethod::Get, path_with_id("/v1/lists/runs/", findall_id, "/events"))
    }

    /// Stream a find-all run's progress events live (SSE): the call that opens the stream.
    pub fn stream_events(&self, findall_id: &str) -> (r: ApiRequest)
        ensures
            request_is(r, HttpMethod::Get, id_path("/v1/lists/runs/"@, findall_id, "/events"@), Seq::empty(), None),
    {
        bare(HttpMethod::Get, path_with_id("/v1/lists/runs/", findall_id, "/events"))
    }
}


} // verus!

verus! {

use crate::json::{
    bool_field, document_field, field_of, group_field_lookup, member_count, number_field, present,
    str_field, string_array, strings_field,
};

/// Law: the body of `ListsParams` holds each field under its own name with its value,
/// each optional field only when it is set, and no other member.
pub proof fn lists_params_are_sent_under_their_names(p: ListsParams)
    ensures
        field_of(p.serialized(), "query"@) == Some(JsonView::Str(p.query@)),
        field_of(p.serialized(), "fields"@) == strings_field(p.fields),
        field_of(p.serialized(), "output_schema"@) == document_field(p.output_schema),
        field_of(p.serialized(), "limit"@) == number_field(p.limit),
        member_count(p.serialized()) == 1 + present(p.fields) + present(p.output_schema) + present(p.limit),
{
    broadcast use group_field_lookup;

    reveal_strlit("query");
    reveal_strlit("fields");
    reveal_strlit("output_schema");
    reveal_strlit("limit");
    assert("query"@.len() != "fields"@.len());
    assert("query"@.len() != "output_schema"@.len());
    assert("query"@[0] != "limit"@[0]);
    assert("fields"@.len() != "output_schema"@.len());
    assert("fields"@.len() != "limit"@.len());
    assert("output_schema"@.len() != "limit"@.len());
}

} // verus!
