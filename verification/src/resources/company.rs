//! Company enrichment: profiles, logos, fonts, industry codes, styleguide.
use vstd::prelude::*;

use crate::client::{ApiRequest, Client, HttpMethod};
use crate::json::{members_view, object, opt_str_member, push_member, push_opt_str, Json, JsonView};
use super::{post, request_is};

verus! {

/// Inputs to the domain-based company endpoints.
#[derive(Debug, Clone, Default)]
pub struct DomainParams {
    pub domain: String,
}

impl DomainParams {
    /// The JSON body these inputs are sent as: each field under its name, absent
    /// optional fields left out.
    pub open spec fn serialized(self) -> JsonView {
        JsonView::Object(
            seq![("domain"@, JsonView::Str(self.domain@))],
        )
    }

    /// The JSON body these inputs are sent as.
    pub fn to_json(self) -> (j: Json)
        ensures
            j@ == self.serialized(),
    {
        let mut m: Vec<(String, Json)> = Vec::new();
        let ghost v = self;
        push_member(&mut m, "domain", Json::Str(self.domain));
        assert(members_view(m@) =~= seq![("domain"@, JsonView::Str(v.domain@))]);
        object(m)
    }
}

/// Inputs to [`Company::by_email`].
#[derive(Debug, Clone, Default)]
pub struct ByEmailParams {
    pub email: String,
}

impl ByEmailParams {
    /// The JSON body these inputs are sent as: each field under its name, absent
    /// optional fields left out.
    pub open spec fn serialized(self) -> JsonView {
        JsonView::Object(
            seq![("email"@, JsonView::Str(self.email@))],
        )
    }

    /// The JSON body these inputs are sent as.
    pub fn to_json(self) -> (j: Json)
        ensures
            j@ == self.serialized(),
    {
        let mut m: Vec<(String, Json)> = Vec::new();
        let ghost v = self;
        push_member(&mut m, "email", Json::Str(self.email));
        assert(members_view(m@) =~= seq![("email"@, JsonView::Str(v.email@))]);
        object(m)
    }
}

/// Inputs to [`Company::by_name`].
#[derive(Debug, Clone, Default)]
pub struct ByNameParams {
    pub name: String,
}

impl ByNameParams {
    /// The JSON body these inputs are sent as: each field under its name, absent
    /// optional fields left out.
    pub open spec fn serialized(self) -> JsonView {
        JsonView::Object(
            seq![("name"@, JsonView::Str(self.name@))],
        )
    }

    /// The JSON body these inputs are sent as.
    pub fn to_json(self) -> (j: Json)
        ensures
            j@ == self.serialized(),
    {
        let mut m: Vec<(String, Json)> = Vec::new();
        let ghost v = self;
        push_member(&mut m, "name", Json::Str(self.name));
        assert(members_view(m@) =~= seq![("name"@, JsonView::Str(v.name@))]);
        object(m)
    }
}

/// Inputs to [`Company::by_ticker`].
#[derive(Debug, Clone, Default)]
pub struct ByTickerParams {
    pub ticker: String,
}

impl ByTickerParams {
    /// The JSON body these inputs are sent as: each field under its name, absent
    /// optional fields left out.
    pub open spec fn serialized(self) -> JsonView {
        JsonView::Object(
            seq![("ticker"@, JsonView::Str(self.ticker@))],
        )
    }

    /// The JSON body these inputs are sent as.
    pub fn to_json(self) -> (j: Json)
        ensures
            j@ == self.serialized(),
    {
        let mut m: Vec<(String, Json)> = Vec::new();
        let ghost v = self;
        push_member(&mut m, "ticker", Json::Str(self.ticker));
        assert(members_view(m@) =~= seq![("ticker"@, JsonView::Str(v.ticker@))]);
        object(m)
    }
}

/// Inputs to [`Company::logo`].
#[derive(Debug, Clone, Default)]
pub struct LogoParams {
    pub domain: String,
    pub mode: Option<String>,
    pub format: Option<String>,
    pub variant: Option<String>,
}

impl LogoParams {
    /// The JSON body these inputs are sent as: each field under its name, absent
    /// optional fields left out.
    pub open spec fn serialized(self) -> JsonView {
        JsonView::Object(
            seq![("domain"@, JsonView::Str(self.domain@))]
                + opt_str_member("mode"@, self.mode)
                + opt_str_member("format"@, self.format)
                + opt_str_member("variant"@, self.variant),
        )
    }

    /// The JSON body these inputs are sent as.
    pub fn to_json(self) -> (j: Json)
        ensures
            j@ == self.serialized(),
    {
        let mut m: Vec<(String, Json)> = Vec::new();
        let ghost v = self;
        push_member(&mut m, "domain", Json::Str(self.domain));
        push_opt_str(&mut m, "mode", self.mode);
        push_opt_str(&mut m, "format", self.format);
        push_opt_str(&mut m, "variant", self.variant);
        assert(members_view(m@) =~= seq![("domain"@, JsonView::Str(v.domain@))] + opt_str_member("mode"@, v.mode) + opt_str_member("format"@, v.format) + opt_str_member("variant"@, v.variant));
        object(m)
    }
}

/// Company enrichment: profiles, logos, fonts, industry codes, styleguide.
pub struct Company<'a> {
    pub(crate) client: &'a Client,
}

impl<'a> Company<'a> {
    /// The client this handle sends through.
    pub closed spec fn client_ref(self) -> &'a Client {
        self.client
    }
}

impl Client {
    /// Company enrichment: profiles, logos, fonts, industry codes, styleguide.
    pub fn company(&self) -> (r: Company<'_>)
        ensures
            r.client_ref() == self,
    {
        Company { client: self }
    }
}

impl<'a> Company<'a> {
    /// Full company profile from a domain.
    pub fn enrich(&self, params: DomainParams) -> (r: ApiRequest)
        ensures
            request_is(r, HttpMethod::Post, "/v1/company"@, Seq::empty(), Some(params.serialized())),
    {
        post("/v1/company".to_owned(), params.to_json())
    }

    /// Resolve a company from a work email address.
    pub fn by_email(&self, params: ByEmailParams) -> (r: ApiRequest)
        ensures
            request_is(r, HttpMethod::Post, "/v1/company/by-email"@, Seq::empty(), Some(params.serialized())),
    {
        post("/v1/company/by-email".to_owned(), params.to_json())
    }

    /// Resolve a company from its name.
    pub fn by_name(&self, params: ByNameParams) -> (r: ApiRequest)
        ensures
            request_is(r, HttpMethod::Post, "/v1/company/by-name"@, Seq::empty(), Some(params.serialized())),
    {
        post("/v1/company/by-name".to_owned(), params.to_json())
    }

    /// Resolve a company from a stock ticker.
    pub fn by_ticker(&self, params: ByTickerParams) -> (r: ApiRequest)
        ensures
            request_is(r, HttpMethod::Post, "/v1/company/by-ticker"@, Seq::empty(), Some(params.serialized())),
    {
        post("/v1/company/by-ticker".to_owned(), params.to_json())
    }

    /// A condensed company profile (faster, fewer fields).
    pub fn simple(&self, params: DomainParams) -> (r: ApiRequest)
        ensures
            request_is(r, HttpMethod::Post, "/v1/company/simple"@, Seq::empty(), Some(params.serialized())),
    {
        post("/v1/company/simple".to_owned(), params.to_json())
    }

    /// Brand fonts detected on the company's site.
    pub fn fonts(&self, params: DomainParams) -> (r: ApiRequest)
        ensures
            request_is(r, HttpMethod::Post, "/v1/company/fonts"@, Seq::empty(), Some(params.serialized())),
    {
        post("/v1/company/fonts".to_owned(), params.to_json())
    }

    /// Brand styleguide (colors, typography, logos) for a company.
    pub fn styleguide(&self, params: DomainParams) -> (r: ApiRequest)
        ensures
            request_is(r, HttpMethod::Post, "/v1/company/styleguide"@, Seq::empty(), Some(params.serialized())),
    {
        post("/v1/company/styleguide".to_owned(), params.to_json())
    }

    /// Company logo metadata.
    pub fn logo(&self, params: LogoParams) -> (r: ApiRequest)
        ensures
            request_is(r, HttpMethod::Post, "/v1/company/logo"@, Seq::empty(), Some(params.serialized())),
    {
        post("/v1/company/logo".to_owned(), params.to_json())
    }
}


} // verus!

verus! {

use crate::json::{
    bool_field, document_field, field_of, group_field_lookup, member_count, number_field, present,
    str_field, string_array, strings_field,
};

/// Law: the body of `DomainParams` holds each field under its own name with its value,
/// each optional field only when it is set, and no other member.
pub proof fn domain_params_are_sent_under_their_names(p: DomainParams)
    ensures
        field_of(p.serialized(), "domain"@) == Some(JsonView::Str(p.domain@)),
        member_count(p.serialized()) == 1,
{
    broadcast use group_field_lookup;

    reveal_strlit("domain");
}

/// Law: the body of `ByEmailParams` holds each field under its own name with its value,
/// each optional field only when it is set, and no other member.
pub proof fn by_email_params_are_sent_under_their_names(p: ByEmailParams)
    ensures
        field_of(p.serialized(), "email"@) == Some(JsonView::Str(p.email@)),
        member_count(p.serialized()) == 1,
{
    broadcast use group_field_lookup;

    reveal_strlit("email");
}

/// Law: the body of `ByNameParams` holds each field under its own name with its value,
/// each optional field only when it is set, and no other member.
pub proof fn by_name_params_are_sent_under_their_names(p: ByNameParams)
    ensures
        field_of(p.serialized(), "name"@) == Some(JsonView::Str(p.name@)),
        member_count(p.serialized()) == 1,
{
    broadcast use group_field_lookup;

    reveal_strlit("name");
}

/// Law: the body of `ByTickerParams` holds each field under its own name with its value,
/// each optional field only when it is set, and no other member.
pub proof fn by_ticker_params_are_sent_under_their_names(p: ByTickerParams)
    ensures
        field_of(p.serialized(), "ticker"@) == Some(JsonView::Str(p.ticker@)),
        member_count(p.serialized()) == 1,
{
    broadcast use group_field_lookup;

    reveal_strlit("ticker");
}

/// Law: the body of `LogoParams` holds each field under its own name with its value,
/// each optional field only when it is set, and no other member.
pub proof fn logo_params_are_sent_under_their_names(p: LogoParams)
    ensures
        field_of(p.serialized(), "domain"@) == Some(JsonView::Str(p.domain@)),
        field_of(p.serialized(), "mode"@) == str_field(p.mode),
        field_of(p.serialized(), "format"@) == str_field(p.format),
        field_of(p.serialized(), "variant"@) == str_field(p.variant),
        member_count(p.serialized()) == 1 + present(p.mode) + present(p.format) + present(p.variant),
{
    broadcast use group_field_lookup;

    reveal_strlit("domain");
    reveal_strlit("mode");
    reveal_strlit("format");
    reveal_strlit("variant");
    assert("domain"@.len() != "mode"@.len());
    assert("domain"@[0] != "format"@[0]);
    assert("domain"@.len() != "variant"@.len());
    assert("mode"@.len() != "format"@.len());
    assert("mode"@.len() != "variant"@.len());
    assert("format"@.len() != "variant"@.len());
}

} // verus!
