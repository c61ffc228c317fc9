//! Single-page operations: markdown, html, screenshot, images, extract.
use vstd::prelude::*;

use crate::client::{ApiRequest, Client, HttpMethod};
use crate::json::{
    members_view,
    object,
    opt_bool_member,
    opt_str_member,
    opt_u32_member,
    push_member,
    push_opt_bool,
    push_opt_str,
    push_opt_u32,
    Json,
    JsonView,
};
use super::{post, request_is};

verus! {

/// Inputs to [`Page::markdown`].
#[derive(Debug, Clone, Default)]
pub struct PageMarkdownParams {
    pub url: String,
    pub max_chars: Option<u32>,
}

impl PageMarkdownParams {
    /// The JSON body these inputs are sent as: each field under its name, absent
    /// optional fields left out.
    pub open spec fn serialized(self) -> JsonView {
        JsonView::Object(
            seq![("url"@, JsonView::Str(self.url@))]
                + opt_u32_member("max_chars"@, self.max_chars),
        )
    }

    /// The JSON body these inputs are sent as.
    pub fn to_json(self) -> (j: Json)
        ensures
            j@ == self.serialized(),
    {
        let mut m: Vec<(String, Json)> = Vec::new();
        let ghost v = self;
        push_member(&mut m, "url", Json::Str(self.url));
        push_opt_u32(&mut m, "max_chars", self.max_chars);
        assert(members_view(m@) =~= seq![("url"@, JsonView::Str(v.url@))] + opt_u32_member("max_chars"@, v.max_chars));
        object(m)
    }
}

/// Inputs to [`Page::html`].
#[derive(Debug, Clone, Default)]
pub struct PageHtmlParams {
    pub url: String,
}

impl PageHtmlParams {
    /// The JSON body these inputs are sent as: each field under its name, absent
    /// optional fields left out.
    pub open spec fn serialized(self) -> JsonView {
        JsonView::Object(
            seq![("url"@, JsonView::Str(self.url@))],
        )
    }

    /// The JSON body these inputs are sent as.
    pub fn to_json(self) -> (j: Json)
        ensures
            j@ == self.serialized(),
    {
        let mut m: Vec<(String, Json)> = Vec::new();
        let ghost v = self;
        push_member(&mut m, "url", Json::Str(self.url));
        assert(members_view(m@) =~= seq![("url"@, JsonView::Str(v.url@))]);
        object(m)
    }
}

/// Inputs to [`Page::screenshot`].
#[derive(Debug, Clone, Default)]
pub struct PageScreenshotParams {
    pub url: String,
    pub viewport_width: Option<u32>,
    pub viewport_height: Option<u32>,
    pub full_page: Option<bool>,
    pub format: Option<String>,
    pub wait_ms: Option<u32>,
    pub inline: Option<bool>,
    pub element_selector: Option<String>,
    pub dismiss_overlays: Option<bool>,
}

impl PageScreenshotParams {
    /// The JSON body these inputs are sent as: each field under its name, absent
    /// optional fields left out.
    pub open spec fn serialized(self) -> JsonView {
        JsonView::Object(
            seq![("url"@, JsonView::Str(self.url@))]
                + opt_u32_member("viewport_width"@, self.viewport_width)
                + opt_u32_member("viewport_height"@, self.viewport_height)
                + opt_bool_member("full_page"@, self.full_page)
                + opt_str_member("format"@, self.format)
                + opt_u32_member("wait_ms"@, self.wait_ms)
                + opt_bool_member("inline"@, self.inline)
                + opt_str_member("element_selector"@, self.element_selector)
                + opt_bool_member("dismiss_overlays"@, self.dismiss_overlays),
        )
    }

    /// The JSON body these inputs are sent as.
    pub fn to_json(self) -> (j: Json)
        ensures
            j@ == self.serialized(),
    {
        let mut m: Vec<(String, Json)> = Vec::new();
        let ghost v = self;
        push_member(&mut m, "url", Json::Str(self.url));
        push_opt_u32(&mut m, "viewport_width", self.viewport_width);
        push_opt_u32(&mut m, "viewport_height", self.viewport_height);
        push_opt_bool(&mut m, "full_page", self.full_page);
        push_opt_str(&mut m, "format", self.format);
        push_opt_u32(&mut m, "wait_ms", self.wait_ms);
        push_opt_bool(&mut m, "inline", self.inline);
        push_opt_str(&mut m, "element_selector", self.element_selector);
        push_opt_bool(&mut m, "dismiss_overlays", self.dismiss_overlays);
        assert(members_view(m@) =~= seq![("url"@, JsonView::Str(v.url@))] + opt_u32_member("viewport_width"@, v.viewport_width) + opt_u32_member("viewport_height"@, v.viewport_height) + opt_bool_member("full_page"@, v.full_page) + opt_str_member("format"@, v.format) + opt_u32_member("wait_ms"@, v.wait_ms) + opt_bool_member("inline"@, v.inline) + opt_str_member("element_selector"@, v.element_selector) + opt_bool_member("dismiss_overlays"@, v.dismiss_overlays));
        object(m)
    }
}

/// Inputs to [`Page::images`].
#[derive(Debug, Clone, Default)]
pub struct PageImagesParams {
    pub url: String,
    pub max_images: Option<u32>,
    pub include_data_uris: Option<bool>,
    pub mode: Option<String>,
}

impl PageImagesParams {
    /// The JSON body these inputs are sent as: each field under its name, absent
    /// optional fields left out.
    pub open spec fn serialized(self) -> JsonView {
        JsonView::Object(
            seq![("url"@, JsonView::Str(self.url@))]
                + opt_u32_member("max_images"@, self.max_images)
                + opt_bool_member("include_data_uris"@, self.include_data_uris)
                + opt_str_member("mode"@, self.mode),
        )
    }

    /// The JSON body these inputs are sent as.
    pub fn to_json(self) -> (j: Json)
        ensures
            j@ == self.serialized(),
    {
        let mut m: Vec<(String, Json)> = Vec::new();
        let ghost v = self;
        push_member(&mut m, "url", Json::Str(self.url));
        push_opt_u32(&mut m, "max_images", self.max_images);
        push_opt_bool(&mut m, "include_data_uris", self.include_data_uris);
        push_opt_str(&mut m, "mode", self.mode);
        assert(members_view(m@) =~= seq![("url"@, JsonView::Str(v.url@))] + opt_u32_member("max_images"@, v.max_images) + opt_bool_member("include_data_uris"@, v.include_data_uris) + opt_str_member("mode"@, v.mode));
        object(m)
    }
}

/// Inputs to [`Page::extract`].
#[derive(Debug, Clone, Default)]
pub struct PageExtractParams {
    pub url: String,
}

impl PageExtractParams {
    /// The JSON body these inputs are sent as: each field under its name, absent
    /// optional fields left out.
    pub open spec fn serialized(self) -> JsonView {
        JsonView::Object(
            seq![("url"@, JsonView::Str(self.url@))],
        )
    }

    /// The JSON body these inputs are sent as.
    pub fn to_json(self) -> (j: Json)
        ensures
            j@ == self.serialized(),
    {
        let mut m: Vec<(String, Json)> = Vec::new();
        let ghost v = self;
        push_member(&mut m, "url", Json::Str(self.url));
        assert(members_view(m@) =~= seq![("url"@, JsonView::Str(v.url@))]);
        object(m)
    }
}

/// Single-page operations: markdown, html, screenshot, images, extract.
pub struct Page<'a> {
    pub(crate) client: &'a Client,
}

impl<'a> Page<'a> {
    /// The client this handle sends through.
    pub closed spec fn client_ref(self) -> &'a Client {
        self.client
    }
}

impl Client {
    /// Single-page operations: markdown, html, screenshot, images, extract.
    pub fn page(&self) -> (r: Page<'_>)
        ensures
            r.client_ref() == self,
    {
        Page { client: self }
    }
}

impl<'a> Page<'a> {
    /// Fetch a page rendered to clean Markdown.
    pub fn markdown(&self, params: PageMarkdownParams) -> (r: ApiRequest)
        ensures
            request_is(r, HttpMethod::Post, "/v1/page/markdown"@, Seq::empty(), Some(params.serialized())),
    {
        post("/v1/page/markdown".to_owned(), params.to_json())
    }

    /// Fetch a page's HTML.
    pub fn html(&self, params: PageHtmlParams) -> (r: ApiRequest)
        ensures
            request_is(r, HttpMethod::Post, "/v1/page/html"@, Seq::empty(), Some(params.serialized())),
    {
        post("/v1/page/html".to_owned(), params.to_json())
    }

    /// Capture a screenshot of a page.
    pub fn screenshot(&self, params: PageScreenshotParams) -> (r: ApiRequest)
        ensures
            request_is(r, HttpMethod::Post, "/v1/page/screenshot"@, Seq::empty(), Some(params.serialized())),
    {
        post("/v1/page/screenshot".to_owned(), params.to_json())
    }

    /// Extract the images on a page.
    pub fn images(&self, params: PageImagesParams) -> (r: ApiRequest)
        ensures
            request_is(r, HttpMethod::Post, "/v1/page/images"@, Seq::empty(), Some(params.serialized())),
    {
        post("/v1/page/images".to_owned(), params.to_json())
    }

    /// Structured extraction scoped to a single page.
    pub fn extract(&self, params: PageExtractParams) -> (r: ApiRequest)
        ensures
            request_is(r, HttpMethod::Post, "/v1/page/extract"@, Seq::empty(), Some(params.serialized())),
    {
        post("/v1/page/extract".to_owned(), params.to_json())
    }
}


} // verus!

verus! {

use crate::json::{
    bool_field, document_field, field_of, group_field_lookup, member_count, number_field, present,
    str_field, string_array, strings_field,
};

/// Law: the body of `PageMarkdownParams` holds each field under its own name with its value,
/// each optional field only when it is set, and no other member.
pub proof fn page_markdown_params_are_sent_under_their_names(p: PageMarkdownParams)
    ensures
        field_of(p.serialized(), "url"@) == Some(JsonView::Str(p.url@)),
        field_of(p.serialized(), "max_chars"@) == number_field(p.max_chars),
        member_count(p.serialized()) == 1 + present(p.max_chars),
{
    broadcast use group_field_lookup;

    reveal_strlit("url");
    reveal_strlit("max_chars");
    assert("url"@.len() != "max_chars"@.len());
}

/// Law: the body of `PageHtmlParams` holds each field under its own name with its value,
/// each optional field only when it is set, and no other member.
pub proof fn page_html_params_are_sent_under_their_names(p: PageHtmlParams)
    ensures
        field_of(p.serialized(), "url"@) == Some(JsonView::Str(p.url@)),
        member_count(p.serialized()) == 1,
{
    broadcast use group_field_lookup;

    reveal_strlit("url");
}

/// Law: the body of `PageScreenshotParams` holds each field under its own name with its value,
/// each optional field only when it is set, and no other member.
pub proof fn page_screenshot_params_are_sent_under_their_names(p: PageScreenshotParams)
    ensures
        field_of(p.serialized(), "url"@) == Some(JsonView::Str(p.url@)),
        field_of(p.serialized(), "viewport_width"@) == number_field(p.viewport_width),
        field_of(p.serialized(), "viewport_height"@) == number_field(p.viewport_height),
        field_of(p.serialized(), "full_page"@) == bool_field(p.full_page),
        field_of(p.serialized(), "format"@) == str_field(p.format),
        field_of(p.serialized(), "wait_ms"@) == number_field(p.wait_ms),
        field_of(p.serialized(), "inline"@) == bool_field(p.inline),
        field_of(p.serialized(), "element_selector"@) == str_field(p.element_selector),
        field_of(p.serialized(), "dismiss_overlays"@) == bool_field(p.dismiss_overlays),
        member_count(p.serialized()) == 1 + present(p.viewport_width) + present(p.viewport_height) + present(p.full_page) + present(p.format) + present(p.wait_ms) + present(p.inline) + present(p.element_selector) + present(p.dismiss_overlays),
{
    broadcast use group_field_lookup;

    reveal_strlit("url");
    reveal_strlit("viewport_width");
    reveal_strlit("viewport_height");
    reveal_strlit("full_page");
    reveal_strlit("format");
    reveal_strlit("wait_ms");
    reveal_strlit("inline");
    reveal_strlit("element_selector");
    reveal_strlit("dismiss_overlays");
    assert("url"@.len() != "viewport_width"@.len());
    assert("url"@.len() != "viewport_height"@.len());
    assert("url"@.len() != "full_page"@.len());
    assert("url"@.len() != "format"@.len());
    assert("url"@.len() != "wait_ms"@.len());
    assert("url"@.len() != "inline"@.len());
    assert("url"@.len() != "element_selector"@.len());
    assert("url"@.len() != "dismiss_overlays"@.len());
    assert("viewport_width"@.len() != "viewport_height"@.len());
    assert("viewport_width"@.len() != "full_page"@.len());
    assert("viewport_width"@.len() != "format"@.len());
    assert("viewport_width"@.len() != "wait_ms"@.len());
    assert("viewport_width"@.len() != "inline"@.len());
    assert("viewport_width"@.len() != "element_selector"@.len());
    assert("viewport_width"@.len() != "dismiss_overlays"@.len());
    assert("viewport_height"@.len() != "full_page"@.len());
    assert("viewport_height"@.len() != "format"@.len());
    assert("viewport_height"@.len() != "wait_ms"@.len());
    assert("viewport_height"@.len() != "inline"@.len());
    assert("viewport_height"@.len() != "element_selector"@.len());
    assert("viewport_height"@.len() != "dismiss_overlays"@.len());
    assert("full_page"@.len() != "format"@.len());
    assert("full_page"@.len() != "wait_ms"@.len());
    assert("full_page"@.len() != "inline"@.len());
    assert("full_page"@.len() != "element_selector"@.len());
    assert("full_page"@.len() != "dismiss_overlays"@.len());
    assert("format"@.len() != "wait_ms"@.len());
    assert("format"@[0] != "inline"@[0]);
    assert("format"@.len() != "element_selector"@.len());
    assert("format"@.len() != "dismiss_overlays"@.len());
    assert("wait_ms"@.len() != "inline"@.len());
    assert("wait_ms"@.len() != "element_selector"@.len());
    assert("wait_ms"@.len() != "dismiss_overlays"@.len());
    assert("inline"@.len() != "element_selector"@.len());
    assert("inline"@.len() != "dismiss_overlays"@.len());
    assert("element_selector"@[0] != "dismiss_overlays"@[0]);
}

/// Law: the body of `PageImagesParams` holds each field under its own name with its value,
/// each optional field only when it is set, and no other member.
pub proof fn page_images_params_are_sent_under_their_names(p: PageImagesParams)
    ensures
        field_of(p.serialized(), "url"@) == Some(JsonView::Str(p.url@)),
        field_of(p.serialized(), "max_images"@) == number_field(p.max_images),
        field_of(p.serialized(), "include_data_uris"@) == bool_field(p.include_data_uris),
        field_of(p.serialized(), "mode"@) == str_field(p.mode),
        member_count(p.serialized()) == 1 + present(p.max_images) + present(p.include_data_uris) + present(p.mode),
{
    broadcast use group_field_lookup;

    reveal_strlit("url");
    reveal_strlit("max_images");
    reveal_strlit("include_data_uris");
    reveal_strlit("mode");
    assert("url"@.len() != "max_images"@.len());
    assert("url"@.len() != "include_data_uris"@.len());
    assert("url"@.len() != "mode"@.len());
    assert("max_images"@.len() != "include_data_uris"@.len());
    assert("max_images"@.len() != "mode"@.len());
    assert("include_data_uris"@.len() != "mode"@.len());
}

/// Law: the body of `PageExtractParams` holds each field under its own name with its value,
/// each optional field only when it is set, and no other member.
pub proof fn page_extract_params_are_sent_under_their_names(p: PageExtractParams)
    ensures
        field_of(p.serialized(), "url"@) == Some(JsonView::Str(p.url@)),
        member_count(p.serialized()) == 1,
{
    broadcast use group_field_lookup;

    reveal_strlit("url");
}

} // verus!
