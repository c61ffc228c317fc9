//! Async tasks ("jobs"): submit a task, then poll or stream events.
use vstd::prelude::*;

use crate::client::{ApiRequest, Client, HttpMethod};
use crate::json::{
    members_view,
    object,
    opt_json_member,
    opt_str_member,
    push_member,
    push_opt_json,
    push_opt_str,
    Json,
    JsonView,
};
use super::{bare, id_path, list_page, page_query, path_with_id, post, request_is, Pager};

verus! {

/// Inputs to [`Jobs::create`].
#[derive(Debug, Clone, Default)]
pub struct JobCreateParams {
    pub task: String,
    pub output_schema: Option<Json>,
    pub processor: Option<String>,
    pub metadata: Option<Json>,
    pub webhook: Option<String>,
}

impl JobCreateParams {
    /// The JSON body these inputs are sent as: each field under its name, absent
    /// optional fields left out.
    pub open spec fn serialized(self) -> JsonView {
        JsonView::Object(
            seq![("task"@, JsonView::Str(self.task@))]
                + opt_json_member("output_schema"@, self.output_schema)
                + opt_str_member("processor"@, self.processor)
                + opt_json_member("metadata"@, self.metadata)
                + opt_str_member("webhook"@, self.webhook),
        )
    }

    /// The JSON body these inputs are sent as.
    pub fn to_json(self) -> (j: Json)
        ensures
            j@ == self.serialized(),
    {
        let mut m: Vec<(String, Json)> = Vec::new();
        let ghost v = self;
        push_member(&mut m, "task", Json::Str(self.task));
        push_opt_json(&mut m, "output_schema", self.output_schema);
        push_opt_str(&mut m, "processor", self.processor);
        push_opt_json(&mut m, "metadata", self.metadata);
        push_opt_str(&mut m, "webhook", self.webhook);
        assert(members_view(m@) =~= seq![("task"@, JsonView::Str(v.task@))] + opt_json_member("output_schema"@, v.output_schema) + opt_str_member("processor"@, v.processor) + opt_json_member("metadata"@, v.metadata) + opt_str_member("webhook"@, v.webhook));
        object(m)
    }
}

/// Async tasks ("jobs"): submit a task, then poll or stream events.
pub struct Jobs<'a> {
    pub(crate) client: &'a Client,
}

impl<'a> Jobs<'a> {
    /// The client this handle sends through.
    pub closed spec fn client_ref(self) -> &'a Client {
        self.client
    }
}

impl Client {
    /// Async tasks ("jobs").
    pub fn jobs(&self) -> (r: Jobs<'_>)
        ensures
            r.client_ref() == self,
    {
        Jobs { client: self }
    }
}

impl<'a> Jobs<'a> {
    /// Submit a job. The result includes a task id to poll with `get`.
    pub fn create(&self, params: JobCreateParams) -> (r: ApiRequest)
        ensures
            request_is(r, HttpMethod::Post, "/v1/jobs"@, Seq::empty(), Some(params.serialized())),
    {
        post("/v1/jobs".to_owned(), params.to_json())
    }

    /// List jobs.
    pub fn list(&self, limit: u32, offset: u32) -> (r: ApiRequest)
        ensures
            request_is(r, HttpMethod::Get, "/v1/jobs"@, page_query(limit as nat, offset as nat), None),
    {
        list_page("/v1/jobs", limit, offset)
    }

    /// Collect every job across all pages.
    pub fn list_all(&self) -> (p: Pager)
        ensures
            p@.path == "/v1/jobs"@,
            p@.items == Seq::<Json>::empty(),
            !p@.done,
    {
        Pager::new("/v1/jobs")
    }

    /// Fetch a job by task id.
    pub fn get(&self, task_id: &str) -> (r: ApiRequest)
        ensures
            request_is(r, HttpMethod::Get, id_path("/v1/jobs/"@, task_id, ""@), Seq::empty(), None),
    {
        bare(HttpMethod::Get, path_with_id("/v1/jobs/", task_id, ""))
    }

    /// Cancel a running job.
    pub fn cancel(&self, task_id: &str) -> (r: ApiRequest)
        ensures
            request_is(r, HttpMethod::Post, id_path("/v1/jobs/"@, task_id, "/cancel"@), Seq::empty(), None),
    {
        bare(HttpMethod::Post, path_with_id("/v1/jobs/", task_id, "/cancel"))
    }

    /// Fetch a job's events.
    pub fn events(&self, task_id: &str) -> (r: ApiRequest)
        ensures
            request_is(r, HttpMethod::Get, id_path("/v1/jobs/"@, task_id, "/events"@), Seq::empty(), None),
    {
        bare(HttpMethod::Get, path_with_id("/v1/jobs/", task_id, "/events"))
    }

    /// Start a run for a job.
    pub fn start_run(&self, body: Json) -> (r: ApiRequest)
        ensures
            request_is(r, HttpMethod::Post, "/v1/jobs/runs"@, Seq::empty(), Some(body@)),
    {
        post("/v1/jobs/runs".to_owned(), body)
    }

    /// Fetch the result of a completed run.
    pub fn run_result(&self, run_id: &str) -> (r: ApiRequest)
        ensures
            request_is(r, HttpMethod::Get, id_path("/v1/jobs/runs/"@, run_id, ""@), Seq::empty(), None),
    {
        bare(HttpMethod::Get, path_with_id("/v1/jobs/runs/", run_id, ""))
    }

    /// Fetch a run's events.
    pub fn run_events(&self, run_id: &str) -> (r: ApiRequest)
        ensures
            request_is(r, HttpMethod::Get, id_path("/v1/jobs/runs/"@, run_id, "/events"@), Seq::empty(), None),
    {
        bare(HttpMethod::Get, path_with_id("/v1/jobs/runs/", run_id, "/events"))
    }
}


} // verus!

verus! {

use crate::json::{
    bool_field, document_field, field_of, group_field_lookup, member_count, number_field, present,
    str_field, string_array, strings_field,
};

/// Law: the body of `JobCreateParams` holds each field under its own name with its value,
/// each optional field only when it is set, and no other member.
pub proof fn job_create_params_are_sent_under_their_names(p: JobCreateParams)
    ensures
        field_of(p.serialized(), "task"@) == Some(JsonView::Str(p.task@)),
        field_of(p.serialized(), "output_schema"@) == document_field(p.output_schema),
        field_of(p.serialized(), "processor"@) == str_field(p.processor),
        field_of(p.serialized(), "metadata"@) == document_field(p.metadata),
        field_of(p.serialized(), "webhook"@) == str_field(p.webhook),
        member_count(p.serialized()) == 1 + present(p.output_schema) + present(p.processor) + present(p.metadata) + present(p.webhook),
{
    broadcast use group_field_lookup;

    reveal_strlit("task");
    reveal_strlit("output_schema");
    reveal_strlit("processor");
    reveal_strlit("metadata");
    reveal_strlit("webhook");
    assert("task"@.len() != "output_schema"@.len());
    assert("task"@.len() != "processor"@.len());
    assert("task"@.len() != "metadata"@.len());
    assert("task"@.len() != "webhook"@.len());
    assert("output_schema"@.len() != "processor"@.len());
    assert("output_schema"@.len() != "metadata"@.len());
    assert("output_schema"@.len() != "webhook"@.len());
    assert("processor"@.len() != "metadata"@.len());
    assert("processor"@.len() != "webhook"@.len());
    assert("metadata"@.len() != "webhook"@.len());
}

} // verus!
