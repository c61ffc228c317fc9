//! Multi-URL structured extraction.
use vstd::prelude::*;

use crate::client::{ApiRequest, Client, HttpMethod};
use crate::json::{
    members_view,
    object,
    opt_bool_member,
    opt_json_member,
    opt_str_member,
    opt_strs_member,
    opt_u32_member,
    push_member,
    push_opt_bool,
    push_opt_json,
    push_opt_str,
    push_opt_strs,
    push_opt_u32,
    strings_json,
    strings_view,
    Json,
    JsonView,
};
use super::{post, request_is};

verus! {

/// Inputs to [`Extract::create`].
#[derive(Debug, Clone, Default)]
pub struct ExtractParams {
    pub urls: Vec<String>,
    pub objective: Option<String>,
    pub search_queries: Option<Vec<String>>,
    pub find_via_search: Option<bool>,
    pub max_chars_total: Option<u32>,
    pub max_chars: Option<u32>,
    pub output_schema: Option<Json>,
}

impl ExtractParams {
    /// The JSON body these inputs are sent as: each field under its name, absent
    /// optional fields left out.
    pub open spec fn serialized(self) -> JsonView {
        JsonView::Object(
            seq![("urls"@, JsonView::Array(strings_view(self.urls@)))]
                + opt_str_member("objective"@, self.objective)
                + opt_strs_member("search_queries"@, self.search_queries)
                + opt_bool_member("find_via_search"@, self.find_via_search)
                + opt_u32_member("max_chars_total"@, self.max_chars_total)
                + opt_u32_member("max_chars"@, self.max_chars)
                + opt_json_member("output_schema"@, self.output_schema),
        )
    }

    /// The JSON body these inputs are sent as.
    pub fn to_json(self) -> (j: Json)
        ensures
            j@ == self.serialized(),
    {
        let mut m: Vec<(String, Json)> = Vec::new();
        let ghost v = self;
        push_member(&mut m, "urls", strings_json(self.urls));
        push_opt_str(&mut m, "objective", self.objective);
        push_opt_strs(&mut m, "search_queries", self.search_queries);
        push_opt_bool(&mut m, "find_via_search", self.find_via_search);
        push_opt_u32(&mut m, "max_chars_total", self.max_chars_total);
        push_opt_u32(&mut m, "max_chars", self.max_chars);
        push_opt_json(&mut m, "output_schema", self.output_schema);
        assert(members_view(m@) =~= seq![("urls"@, JsonView::Array(strings_view(v.urls@)))] + opt_str_member("objective"@, v.objective) + opt_strs_member("search_queries"@, v.search_queries) + opt_bool_member("find_via_search"@, v.find_via_search) + opt_u32_member("max_chars_total"@, v.max_chars_total) + opt_u32_member("max_chars"@, v.max_chars) + opt_json_member("output_schema"@, v.output_schema));
        object(m)
    }
}

/// Multi-URL structured extraction.
pub struct Extract<'a> {
    pub(crate) client: &'a Client,
}

impl<'a> Extract<'a> {
    /// The client this handle sends through.
    pub closed spec fn client_ref(self) -> &'a Client {
        self.client
    }
}

impl Client {
    /// Multi-URL structured extraction.
    pub fn extract(&self) -> (r: Extract<'_>)
        ensures
            r.client_ref() == self,
    {
        Extract { client: self }
    }
}

impl<'a> Extract<'a> {
    /// Extract structured data from one or more URLs.
    pub fn create(&self, params: ExtractParams) -> (r: ApiRequest)
        ensures
            request_is(r, HttpMethod::Post, "/v1/extract"@, Seq::empty(), Some(params.serialized())),
    {
        post("/v1/extract".to_owned(), params.to_json())
    }
}


} // verus!

verus! {

use crate::json::{
    bool_field, document_field, field_of, group_field_lookup, member_count, number_field, present,
    str_field, string_array, strings_field,
};

/// Law: the body of `ExtractParams` holds each field under its own name with its value,
/// each optional field only when it is set, and no other member.
pub proof fn extract_params_are_sent_under_their_names(p: ExtractParams)
    ensures
        field_of(p.serialized(), "urls"@) == Some(string_array(p.urls@)),
        field_of(p.serialized(), "objective"@) == str_field(p.objective),
        field_of(p.serialized(), "search_queries"@) == strings_field(p.search_queries),
        field_of(p.serialized(), "find_via_search"@) == bool_field(p.find_via_search),
        field_of(p.serialized(), "max_chars_total"@) == number_field(p.max_chars_total),
        field_of(p.serialized(), "max_chars"@) == number_field(p.max_chars),
        field_of(p.serialized(), "output_schema"@) == document_field(p.output_schema),
        member_count(p.serialized()) == 1 + present(p.objective) + present(p.search_queries) + present(p.find_via_search) + present(p.max_chars_total) + present(p.max_chars) + present(p.output_schema),
{
    broadcast use group_field_lookup;

    reveal_strlit("urls");
    reveal_strlit("objective");
    reveal_strlit("search_queries");
    reveal_strlit("find_via_search");
    reveal_strlit("max_chars_total");
    reveal_strlit("max_chars");
    reveal_strlit("output_schema");
    assert("urls"@.len() != "objective"@.len());
    assert("urls"@.len() != "search_queries"@.len());
    assert("urls"@.len() != "find_via_search"@.len());
    assert("urls"@.len() != "max_chars_total"@.len());
    assert("urls"@.len() != "max_chars"@.len());
    assert("urls"@.len() != "output_schema"@.len());
    assert("objective"@.len() != "search_queries"@.len());
    assert("objective"@.len() != "find_via_search"@.len());
    assert("objective"@.len() != "max_chars_total"@.len());
    assert("objective"@[0] != "max_chars"@[0]);
    assert("objective"@.len() != "output_schema"@.len());
    assert("search_queries"@.len() != "find_via_search"@.len());
    assert("search_queries"@.len() != "max_chars_total"@.len());
    assert("search_queries"@.len() != "max_chars"@.len());
    assert("search_queries"@.len() != "output_schema"@.len());
    assert("find_via_search"@[0] != "max_chars_total"@[0]);
    assert("find_via_search"@.len() != "max_chars"@.len());
    assert("find_via_search"@.len() != "output_schema"@.len());
    assert("max_chars_total"@.len() != "max_chars"@.len());
    assert("max_chars_total"@.len() != "output_schema"@.len());
    assert("max_chars"@.len() != "output_schema"@.len());
}

} // verus!
