//! Scheduled searches ("monitors"): run a query on a cadence, deliver via webhook.
use vstd::prelude::*;

use crate::client::{ApiRequest, Client, HttpMethod};
use crate::json::{
    members_view,
    object,
    opt_json_member,
    opt_str_member,
    push_member,
    push_opt_json,
    push_opt_str,
    Json,
    JsonView,
};
use super::{bare, id_path, list_page, page_query, path_with_id, post, request_is, with_body, Pager};

verus! {

/// Inputs to [`Monitors::create`].
#[derive(Debug, Clone, Default)]
pub struct MonitorCreateParams {
    pub query: String,
    pub webhook: Option<String>,
    pub cadence: Option<String>,
    pub cron: Option<String>,
    pub mode: Option<String>,
    pub filter_prompt: Option<String>,
    pub country: Option<String>,
    pub language: Option<String>,
    pub metadata: Option<Json>,
}

impl MonitorCreateParams {
    /// The JSON body these inputs are sent as: each field under its name, absent
    /// optional fields left out.
    pub open spec fn serialized(self) -> JsonView {
        JsonView::Object(
            seq![("query"@, JsonView::Str(self.query@))]
                + opt_str_member("webhook"@, self.webhook)
                + opt_str_member("cadence"@, self.cadence)
                + opt_str_member("cron"@, self.cron)
                + opt_str_member("mode"@, self.mode)
                + opt_str_member("filter_prompt"@, self.filter_prompt)
                + opt_str_member("country"@, self.country)
                + opt_str_member("language"@, self.language)
                + opt_json_member("metadata"@, self.metadata),
        )
    }

    /// The JSON body these inputs are sent as.
    pub fn to_json(self) -> (j: Json)
        ensures
            j@ == self.serialized(),
    {
        let mut m: Vec<(String, Json)> = Vec::new();
        let ghost v = self;
        push_member(&mut m, "query", Json::Str(self.query));
        push_opt_str(&mut m, "webhook", self.webhook);
        push_opt_str(&mut m, "cadence", self.cadence);
        push_opt_str(&mut m, "cron", self.cron);
        push_opt_str(&mut m, "mode", self.mode);
        push_opt_str(&mut m, "filter_prompt", self.filter_prompt);
        push_opt_str(&mut m, "country", self.country);
        push_opt_str(&mut m, "language", self.language);
        push_opt_json(&mut m, "metadata", self.metadata);
        assert(members_view(m@) =~= seq![("query"@, JsonView::Str(v.query@))] + opt_str_member("webhook"@, v.webhook) + opt_str_member("cadence"@, v.cadence) + opt_str_member("cron"@, v.cron) + opt_str_member("mode"@, v.mode) + opt_str_member("filter_prompt"@, v.filter_prompt) + opt_str_member("country"@, v.country) + opt_str_member("language"@, v.language) + opt_json_member("metadata"@, v.metadata));
        object(m)
    }
}

/// Inputs to [`Monitors::update`].
#[derive(Debug, Clone, Default)]
pub struct MonitorUpdateParams {
    pub query: Option<String>,
    pub webhook: Option<String>,
    pub cadence: Option<String>,
    pub cron: Option<String>,
    pub filter_prompt: Option<String>,
}

impl MonitorUpdateParams {
    /// The JSON body these inputs are sent as: each field under its name, absent
    /// optional fields left out.
    pub open spec fn serialized(self) -> JsonView {
        JsonView::Object(
            opt_str_member("query"@, self.query)
                + opt_str_member("webhook"@, self.webhook)
                + opt_str_member("cadence"@, self.cadence)
                + opt_str_member("cron"@, self.cron)
                + opt_str_member("filter_prompt"@, self.filter_prompt),
        )
    }

    /// The JSON body these inputs are sent as.
    pub fn to_json(self) -> (j: Json)
        ensures
            j@ == self.serialized(),
    {
        let mut m: Vec<(String, Json)> = Vec::new();
        let ghost v = self;
        push_opt_str(&mut m, "query", self.query);
        push_opt_str(&mut m, "webhook", self.webhook);
        push_opt_str(&mut m, "cadence", self.cadence);
        push_opt_str(&mut m, "cron", self.cron);
        push_opt_str(&mut m, "filter_prompt", self.filter_prompt);
        assert(members_view(m@) =~= opt_str_member("query"@, v.query) + opt_str_member("webhook"@, v.webhook) + opt_str_member("cadence"@, v.cadence) + opt_str_member("cron"@, v.cron) + opt_str_member("filter_prompt"@, v.filter_prompt));
        object(m)
    }
}

/// Scheduled searches ("monitors"): run a query on a cadence, deliver via webhook.
pub struct Monitors<'a> {
    pub(crate) client: &'a Client,
}

impl<'a> Monitors<'a> {
    /// The client this handle sends through.
    pub closed spec fn client_ref(self) -> &'a Client {
        self.client
    }
}

impl Client {
    /// Scheduled searches ("monitors").
    pub fn monitors(&self) -> (r: Monitors<'_>)
        ensures
            r.client_ref() == self,
    {
        Monitors { client: self }
    }
}

impl<'a> Monitors<'a> {
    /// Create a monitor with a query and a cadence or cron schedule.
    pub fn create(&self, params: MonitorCreateParams) -> (r: ApiRequest)
        ensures
            request_is(r, HttpMethod::Post, "/v1/monitors"@, Seq::empty(), Some(params.serialized())),
    {
        post("/v1/monitors".to_owned(), params.to_json())
    }

    /// List monitors.
    pub fn list(&self, limit: u32, offset: u32) -> (r: ApiRequest)
        ensures
            request_is(r, HttpMethod::Get, "/v1/monitors"@, page_query(limit as nat, offset as nat), None),
    {
        list_page("/v1/monitors", limit, offset)
    }

    /// Collect every monitor across all pages.
    pub fn list_all(&self) -> (p: Pager)
        ensures
            p@.path == "/v1/monitors"@,
            p@.items == Seq::<Json>::empty(),
            !p@.done,
    {
        Pager::new("/v1/monitors")
    }

    /// Fetch a monitor by id.
    pub fn get(&self, monitor_id: &str) -> (r: ApiRequest)
        ensures
            request_is(r, HttpMethod::Get, id_path("/v1/monitors/"@, monitor_id, ""@), Seq::empty(), None),
    {
        bare(HttpMethod::Get, path_with_id("/v1/monitors/", monitor_id, ""))
    }

    /// Update a monitor's query, schedule, or webhook.
    pub fn update(&self, monitor_id: &str, params: MonitorUpdateParams) -> (r: ApiRequest)
        ensures
            request_is(r, HttpMethod::Patch, id_path("/v1/monitors/"@, monitor_id, ""@), Seq::empty(), Some(params.serialized())),
    {
        with_body(HttpMethod::Patch, path_with_id("/v1/monitors/", monitor_id, ""), params.to_json())
    }

    /// Delete a monitor.
    pub fn delete(&self, monitor_id: &str) -> (r: ApiRequest)
        ensures
            request_is(r, HttpMethod::Delete, id_path("/v1/monitors/"@, monitor_id, ""@), Seq::empty(), None),
    {
        bare(HttpMethod::Delete, path_with_id("/v1/monitors/", monitor_id, ""))
    }

    /// Pause a monitor.
    pub fn pause(&self, monitor_id: &str) -> (r: ApiRequest)
        ensures
            request_is(r, HttpMethod::Post, id_path("/v1/monitors/"@, monitor_id, "/pause"@), Seq::empty(), None),
    {
        bare(HttpMethod::Post, path_with_id("/v1/monitors/", monitor_id, "/pause"))
    }

    /// Resume a paused monitor.
    pub fn resume(&self, monitor_id: &str) -> (r: ApiRequest)
        ensures
            request_is(r, HttpMethod::Post, id_path("/v1/monitors/"@, monitor_id, "/resume"@), Seq::empty(), None),
    {
        bare(HttpMethod::Post, path_with_id("/v1/monitors/", monitor_id, "/resume"))
    }

    /// Trigger a monitor run immediately.
    pub fn run(&self, monitor_id: &str) -> (r: ApiRequest)
        ensures
            request_is(r, HttpMethod::Post, id_path("/v1/monitors/"@, monitor_id, "/run"@), Seq::empty(), None),
    {
        bare(HttpMethod::Post, path_with_id("/v1/monitors/", monitor_id, "/run"))
    }

    /// Fetch a monitor's events.
    pub fn events(&self, monitor_id: &str) -> (r: ApiRequest)
        ensures
            request_is(r, HttpMethod::Get, id_path("/v1/monitors/"@, monitor_id, "/events"@), Seq::empty(), None),
    {
        bare(HttpMethod::Get, path_with_id("/v1/monitors/", monitor_id, "/events"))
    }

    /// Stream a monitor's events live (SSE): the call that opens the stream.
    pub fn stream_events(&self, monitor_id: &str) -> (r: ApiRequest)
        ensures
            request_is(r, HttpMethod::Get, id_path("/v1/monitors/"@, monitor_id, "/events"@), Seq::empty(), None),
    {
        bare(HttpMethod::Get, path_with_id("/v1/monitors/", monitor_id, "/events"))
    }
}


} // verus!

verus! {

use crate::json::{
    bool_field, document_field, field_of, group_field_lookup, member_count, number_field, present,
    str_field, string_array, strings_field,
};

/// Law: the body of `MonitorCreateParams` holds each field under its own name with its value,
/// each optional field only when it is set, and no other member.
pub proof fn monitor_create_params_are_sent_under_their_names(p: MonitorCreateParams)
    ensures
        field_of(p.serialized(), "query"@) == Some(JsonView::Str(p.query@)),
        field_of(p.serialized(), "webhook"@) == str_field(p.webhook),
        field_of(p.serialized(), "cadence"@) == str_field(p.cadence),
        field_of(p.serialized(), "cron"@) == str_field(p.cron),
        field_of(p.serialized(), "mode"@) == str_field(p.mode),
        field_of(p.serialized(), "filter_prompt"@) == str_field(p.filter_prompt),
        field_of(p.serialized(), "country"@) == str_field(p.country),
        field_of(p.serialized(), "language"@) == str_field(p.language),
        field_of(p.serialized(), "metadata"@) == document_field(p.metadata),
        member_count(p.serialized()) == 1 + present(p.webhook) + present(p.cadence) + present(p.cron) + present(p.mode) + present(p.filter_prompt) + present(p.country) + present(p.language) + present(p.metadata),
{
    broadcast use group_field_lookup;

    reveal_strlit("query");
    reveal_strlit("webhook");
    reveal_strlit("cadence");
    reveal_strlit("cron");
    reveal_strlit("mode");
    reveal_strlit("filter_prompt");
    reveal_strlit("country");
    reveal_strlit("language");
    reveal_strlit("metadata");
    assert("query"@.len() != "webhook"@.len());
    assert("query"@.len() != "cadence"@.len());
    assert("query"@.len() != "cron"@.len());
    assert("query"@.len() != "mode"@.len());
    assert("query"@.len() != "filter_prompt"@.len());
    assert("query"@.len() != "country"@.len());
    assert("query"@.len() != "language"@.len());
    assert("query"@.len() != "metadata"@.len());
    assert("webhook"@[0] != "cadence"@[0]);
    assert("webhook"@.len() != "cron"@.len());
    assert("webhook"@.len() != "mode"@.len());
    assert("webhook"@.len() != "filter_prompt"@.len());
    assert("webhook"@[0] != "country"@[0]);
    assert("webhook"@.len() != "language"@.len());
    assert("webhook"@.len() != "metadata"@.len());
    assert("cadence"@.len() != "cron"@.len());
    assert("cadence"@.len() != "mode"@.len());
    assert("cadence"@.len() != "filter_prompt"@.len());
    assert("cadence"@[1] != "country"@[1]);
    assert("cadence"@.len() != "language"@.len());
    assert("cadence"@.len() != "metadata"@.len());
    assert("cron"@[0] != "mode"@[0]);
    assert("cron"@.len() != "filter_prompt"@.len());
    assert("cron"@.len() != "country"@.len());
    assert("cron"@.len() != "language"@.len());
    assert("cron"@.len() != "metadata"@.len());
    assert("mode"@.len() != "filter_prompt"@.len());
    assert("mode"@.len() != "country"@.len());
    assert("mode"@.len() != "language"@.len());
    assert("mode"@.len() != "metadata"@.len());
    assert("filter_prompt"@.len() != "country"@.len());
    assert("filter_prompt"@.len() != "language"@.len());
    assert("filter_prompt"@.len() != "metadata"@.len());
    assert("country"@.len() != "language"@.len());
    assert("country"@.len() != "metadata"@.len());
    assert("language"@[0] != "metadata"@[0]);
}

/// Law: the body of `MonitorUpdateParams` holds each field under its own name with its value,
/// each optional field only when it is set, and no other member.
pub proof fn monitor_update_params_are_sent_under_their_names(p: MonitorUpdateParams)
    ensures
        field_of(p.serialized(), "query"@) == str_field(p.query),
        field_of(p.serialized(), "webhook"@) == str_field(p.webhook),
        field_of(p.serialized(), "cadence"@) == str_field(p.cadence),
        field_of(p.serialized(), "cron"@) == str_field(p.cron),
        field_of(p.serialized(), "filter_prompt"@) == str_field(p.filter_prompt),
        member_count(p.serialized()) == present(p.query) + present(p.webhook) + present(p.cadence) + present(p.cron) + present(p.filter_prompt),
{
    broadcast use group_field_lookup;

    reveal_strlit("query");
    reveal_strlit("webhook");
    reveal_strlit("cadence");
    reveal_strlit("cron");
    reveal_strlit("filter_prompt");
    assert("query"@.len() != "webhook"@.len());
    assert("query"@.len() != "cadence"@.len());
    assert("query"@.len() != "cron"@.len());
    assert("query"@.len() != "filter_prompt"@.len());
    assert("webhook"@[0] != "cadence"@[0]);
    assert("webhook"@.len() != "cron"@.len());
    assert("webhook"@.len() != "filter_prompt"@.len());
    assert("cadence"@.len() != "cron"@.len());
    assert("cadence"@.len() != "filter_prompt"@.len());
    assert("cron"@.len() != "filter_prompt"@.len());
}

} // verus!
