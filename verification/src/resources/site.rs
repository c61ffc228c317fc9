//! Whole-site operations: crawl and sitemap discovery.
use vstd::prelude::*;

use crate::client::{ApiRequest, Client, HttpMethod};
use crate::json::{
    members_view,
    object,
    opt_bool_member,
    opt_strs_member,
    opt_u32_member,
    push_member,
    push_opt_bool,
    push_opt_strs,
    push_opt_u32,
    Json,
    JsonView,
};
use super::{post, request_is};

verus! {

/// Inputs to [`Site::crawl`].
#[derive(Debug, Clone, Default)]
pub struct SiteCrawlParams {
    pub start_url: String,
    pub max_pages: Option<u32>,
    pub max_depth: Option<u32>,
    pub same_host_only: Option<bool>,
    pub include_patterns: Option<Vec<String>>,
    pub exclude_patterns: Option<Vec<String>>,
    /// Sent as `followSubdomains`.
    pub follow_subdomains: Option<bool>,
}

impl SiteCrawlParams {
    /// The JSON body these inputs are sent as: each field under its name, absent
    /// optional fields left out.
    pub open spec fn serialized(self) -> JsonView {
        JsonView::Object(
            seq![("start_url"@, JsonView::Str(self.start_url@))]
                + opt_u32_member("max_pages"@, self.max_pages)
                + opt_u32_member("max_depth"@, self.max_depth)
                + opt_bool_member("same_host_only"@, self.same_host_only)
                + opt_strs_member("include_patterns"@, self.include_patterns)
                + opt_strs_member("exclude_patterns"@, self.exclude_patterns)
                + opt_bool_member("followSubdomains"@, self.follow_subdomains),
        )
    }

    /// The JSON body these inputs are sent as.
    pub fn to_json(self) -> (j: Json)
        ensures
            j@ == self.serialized(),
    {
        let mut m: Vec<(String, Json)> = Vec::new();
        let ghost v = self;
        push_member(&mut m, "start_url", Json::Str(self.start_url));
        push_opt_u32(&mut m, "max_pages", self.max_pages);
        push_opt_u32(&mut m, "max_depth", self.max_depth);
        push_opt_bool(&mut m, "same_host_only", self.same_host_only);
        push_opt_strs(&mut m, "include_patterns", self.include_patterns);
        push_opt_strs(&mut m, "exclude_patterns", self.exclude_patterns);
        push_opt_bool(&mut m, "followSubdomains", self.follow_subdomains);
        assert(members_view(m@) =~= seq![("start_url"@, JsonView::Str(v.start_url@))] + opt_u32_member("max_pages"@, v.max_pages) + opt_u32_member("max_depth"@, v.max_depth) + opt_bool_member("same_host_only"@, v.same_host_only) + opt_strs_member("include_patterns"@, v.include_patterns) + opt_strs_member("exclude_patterns"@, v.exclude_patterns) + opt_bool_member("followSubdomains"@, v.follow_subdomains));
        object(m)
    }
}

/// Inputs to [`Site::map`].
#[derive(Debug, Clone, Default)]
pub struct SiteMapParams {
    pub start_url: String,
    pub max_pages: Option<u32>,
}

impl SiteMapParams {
    /// The JSON body these inputs are sent as: each field under its name, absent
    /// optional fields left out.
    pub open spec fn serialized(self) -> JsonView {
        JsonView::Object(
            seq![("start_url"@, JsonView::Str(self.start_url@))]
                + opt_u32_member("max_pages"@, self.max_pages),
        )
    }

    /// The JSON body these inputs are sent as.
    pub fn to_json(self) -> (j: Json)
        ensures
            j@ == self.serialized(),
    {
        let mut m: Vec<(String, Json)> = Vec::new();
        let ghost v = self;
        push_member(&mut m, "start_url", Json::Str(self.start_url));
        push_opt_u32(&mut m, "max_pages", self.max_pages);
        assert(members_view(m@) =~= seq![("start_url"@, JsonView::Str(v.start_url@))] + opt_u32_member("max_pages"@, v.max_pages));
        object(m)
    }
}

/// Whole-site operations: crawl and sitemap discovery.
pub struct Site<'a> {
    pub(crate) client: &'a Client,
}

impl<'a> Site<'a> {
    /// The client this handle sends through.
    pub closed spec fn client_ref(self) -> &'a Client {
        self.client
    }
}

impl Client {
    /// Whole-site operations: crawl and sitemap discovery.
    pub fn site(&self) -> (r: Site<'_>)
        ensures
            r.client_ref() == self,
    {
        Site { client: self }
    }
}

impl<'a> Site<'a> {
    /// Crawl a site from `start_url`.
    pub fn crawl(&self, params: SiteCrawlParams) -> (r: ApiRequest)
        ensures
            request_is(r, HttpMethod::Post, "/v1/site/crawl"@, Seq::empty(), Some(params.serialized())),
    {
        post("/v1/site/crawl".to_owned(), params.to_json())
    }

    /// Discover a site's URLs (sitemap) from `start_url`.
    pub fn map(&self, params: SiteMapParams) -> (r: ApiRequest)
        ensures
            request_is(r, HttpMethod::Post, "/v1/site/map"@, Seq::empty(), Some(params.serialized())),
    {
        post("/v1/site/map".to_owned(), params.to_json())
    }
}


} // verus!

verus! {

use crate::json::{
    bool_field, document_field, field_of, group_field_lookup, member_count, number_field, present,
    str_field, string_array, strings_field,
};

/// Law: the body of `SiteCrawlParams` holds each field under its own name with its value,
/// each optional field only when it is set, and no other member.
pub proof fn site_crawl_params_are_sent_under_their_names(p: SiteCrawlParams)
    ensures
        field_of(p.serialized(), "start_url"@) == Some(JsonView::Str(p.start_url@)),
        field_of(p.serialized(), "max_pages"@) == number_field(p.max_pages),
        field_of(p.serialized(), "max_depth"@) == number_field(p.max_depth),
        field_of(p.serialized(), "same_host_only"@) == bool_field(p.same_host_only),
        field_of(p.serialized(), "include_patterns"@) == strings_field(p.include_patterns),
        field_of(p.serialized(), "exclude_patterns"@) == strings_field(p.exclude_patterns),
        field_of(p.serialized(), "followSubdomains"@) == bool_field(p.follow_subdomains),
        member_count(p.serialized()) == 1 + present(p.max_pages) + present(p.max_depth) + present(p.same_host_only) + present(p.include_patterns) + present(p.exclude_patterns) + present(p.follow_subdomains),
{
    broadcast use group_field_lookup;

    reveal_strlit("start_url");
    reveal_strlit("max_pages");
    reveal_strlit("max_depth");
    reveal_strlit("same_host_only");
    reveal_strlit("include_patterns");
    reveal_strlit("exclude_patterns");
    reveal_strlit("followSubdomains");
    assert("start_url"@[0] != "max_pages"@[0]);
    assert("start_url"@[0] != "max_depth"@[0]);
    assert("start_url"@.len() != "same_host_only"@.len());
    assert("start_url"@.len() != "include_patterns"@.len());
    assert("start_url"@.len() != "exclude_patterns"@.len());
    assert("start_url"@.len() != "followSubdomains"@.len());
    assert("max_pages"@[4] != "max_depth"@[4]);
    assert("max_pages"@.len() != "same_host_only"@.len());
    assert("max_pages"@.len() != "include_patterns"@.len());
    assert("max_pages"@.len() != "exclude_patterns"@.len());
    assert("max_pages"@.len() != "followSubdomains"@.len());
    assert("max_depth"@.len() != "same_host_only"@.len());
    assert("max_depth"@.len() != "include_patterns"@.len());
    assert("max_depth"@.len() != "exclude_patterns"@.len());
    assert("max_depth"@.len() != "followSubdomains"@.len());
    assert("same_host_only"@.len() != "include_patterns"@.len());
    assert("same_host_only"@.len() != "exclude_patterns"@.len());
    assert("same_host_only"@.len() != "followSubdomains"@.len());
    assert("include_patterns"@[0] != "exclude_patterns"@[0]);
    assert("include_patterns"@[0] != "followSubdomains"@[0]);
    assert("exclude_patterns"@[0] != "followSubdomains"@[0]);
}

/// Law: the body of `SiteMapParams` holds each field under its own name with its value,
/// each optional field only when it is set, and no other member.
pub proof fn site_map_params_are_sent_under_their_names(p: SiteMapParams)
    ensures
        field_of(p.serialized(), "start_url"@) == Some(JsonView::Str(p.start_url@)),
        field_of(p.serialized(), "max_pages"@) == number_field(p.max_pages),
        member_count(p.serialized()) == 1 + present(p.max_pages),
{
    broadcast use group_field_lookup;

    reveal_strlit("start_url");
    reveal_strlit("max_pages");
    assert("start_url"@[0] != "max_pages"@[0]);
}

} // verus!
