//! Product extraction from storefronts.
use vstd::prelude::*;

use crate::client::{ApiRequest, Client, HttpMethod};
use crate::json::{
    members_view,
    object,
    opt_bool_member,
    opt_str_member,
    opt_u32_member,
    push_member,
    push_opt_bool,
    push_opt_str,
    push_opt_u32,
    Json,
    JsonView,
};
use super::{post, request_is};

verus! {

/// Inputs to [`Products::extract`].
#[derive(Debug, Clone, Default)]
pub struct ProductsParams {
    pub url: String,
    pub max_pages: Option<u32>,
    pub max_depth: Option<u32>,
    pub instructions: Option<String>,
    /// Sent as `followSubdomains`.
    pub follow_subdomains: Option<bool>,
}

impl ProductsParams {
    /// The JSON body these inputs are sent as: each field under its name, absent
    /// optional fields left out.
    pub open spec fn serialized(self) -> JsonView {
        JsonView::Object(
            seq![("url"@, JsonView::Str(self.url@))]
                + opt_u32_member("max_pages"@, self.max_pages)
                + opt_u32_member("max_depth"@, self.max_depth)
                + opt_str_member("instructions"@, self.instructions)
                + opt_bool_member("followSubdomains"@, self.follow_subdomains),
        )
    }

    /// The JSON body these inputs are sent as.
    pub fn to_json(self) -> (j: Json)
        ensures
            j@ == self.serialized(),
    {
        let mut m: Vec<(String, Json)> = Vec::new();
        let ghost v = self;
        push_member(&mut m, "url", Json::Str(self.url));
        push_opt_u32(&mut m, "max_pages", self.max_pages);
        push_opt_u32(&mut m, "max_depth", self.max_depth);
        push_opt_str(&mut m, "instructions", self.instructions);
        push_opt_bool(&mut m, "followSubdomains", self.follow_subdomains);
        assert(members_view(m@) =~= seq![("url"@, JsonView::Str(v.url@))] + opt_u32_member("max_pages"@, v.max_pages) + opt_u32_member("max_depth"@, v.max_depth) + opt_str_member("instructions"@, v.instructions) + opt_bool_member("followSubdomains"@, v.follow_subdomains));
        object(m)
    }
}

/// Inputs to [`Products::one`].
#[derive(Debug, Clone, Default)]
pub struct ProductOneParams {
    pub url: String,
}

impl ProductOneParams {
    /// The JSON body these inputs are sent as: each field under its name, absent
    /// optional fields left out.
    pub open spec fn serialized(self) -> JsonView {
        JsonView::Object(
            seq![("url"@, JsonView::Str(self.url@))],
        )
    }

    /// The JSON body these inputs are sent as.
    pub fn to_json(self) -> (j: Json)
        ensures
            j@ == self.serialized(),
    {
        let mut m: Vec<(String, Json)> = Vec::new();
        let ghost v = self;
        push_member(&mut m, "url", Json::Str(self.url));
        assert(members_view(m@) =~= seq![("url"@, JsonView::Str(v.url@))]);
        object(m)
    }
}

/// Product extraction from storefronts.
pub struct Products<'a> {
    pub(crate) client: &'a Client,
}

impl<'a> Products<'a> {
    /// The client this handle sends through.
    pub closed spec fn client_ref(self) -> &'a Client {
        self.client
    }
}

impl Client {
    /// Product extraction from storefronts.
    pub fn products(&self) -> (r: Products<'_>)
        ensures
            r.client_ref() == self,
    {
        Products { client: self }
    }
}

impl<'a> Products<'a> {
    /// Crawl a store and extract its products.
    pub fn extract(&self, params: ProductsParams) -> (r: ApiRequest)
        ensures
            request_is(r, HttpMethod::Post, "/v1/products"@, Seq::empty(), Some(params.serialized())),
    {
        post("/v1/products".to_owned(), params.to_json())
    }

    /// Extract a single product from one product-detail URL.
    pub fn one(&self, params: ProductOneParams) -> (r: ApiRequest)
        ensures
            request_is(r, HttpMethod::Post, "/v1/products/one"@, Seq::empty(), Some(params.serialized())),
    {
        post("/v1/products/one".to_owned(), params.to_json())
    }
}


} // verus!

verus! {

use crate::json::{
    bool_field, document_field, field_of, group_field_lookup, member_count, number_field, present,
    str_field, string_array, strings_field,
};

/// Law: the body of `ProductsParams` holds each field under its own name with its value,
/// each optional field only when it is set, and no other member.
pub proof fn products_params_are_sent_under_their_names(p: ProductsParams)
    ensures
        field_of(p.serialized(), "url"@) == Some(JsonView::Str(p.url@)),
        field_of(p.serialized(), "max_pages"@) == number_field(p.max_pages),
        field_of(p.serialized(), "max_depth"@) == number_field(p.max_depth),
        field_of(p.serialized(), "instructions"@) == str_field(p.instructions),
        field_of(p.serialized(), "followSubdomains"@) == bool_field(p.follow_subdomains),
        member_count(p.serialized()) == 1 + present(p.max_pages) + present(p.max_depth) + present(p.instructions) + present(p.follow_subdomains),
{
    broadcast use group_field_lookup;

    reveal_strlit("url");
    reveal_strlit("max_pages");
    reveal_strlit("max_depth");
    reveal_strlit("instructions");
    reveal_strlit("followSubdomains");
    assert("url"@.len() != "max_pages"@.len());
    assert("url"@.len() != "max_depth"@.len());
    assert("url"@.len() != "instructions"@.len());
    assert("url"@.len() != "followSubdomains"@.len());
    assert("max_pages"@[4] != "max_depth"@[4]);
    assert("max_pages"@.len() != "instructions"@.len());
    assert("max_pages"@.len() != "followSubdomains"@.len());
    assert("max_depth"@.len() != "instructions"@.len());
    assert("max_depth"@.len() != "followSubdomains"@.len());
    assert("instructions"@.len() != "followSubdomains"@.len());
}

/// Law: the body of `ProductOneParams` holds each field under its own name with its value,
/// each optional field only when it is set, and no other member.
pub proof fn product_one_params_are_sent_under_their_names(p: ProductOneParams)
    ensures
        field_of(p.serialized(), "url"@) == Some(JsonView::Str(p.url@)),
        member_count(p.serialized()) == 1,
{
    broadcast use group_field_lookup;

    reveal_strlit("url");
}

} // verus!
