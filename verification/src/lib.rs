//! Scout web-intelligence API client library.
pub mod client;
pub mod error;
pub mod json;
pub mod resources;
pub mod retry_after;
pub mod stream;
pub mod text;

pub use client::{
    backoff, backoff_base, interpret_response, new_id, ApiRequest, Backoff, Call, Client,
    ClientBuilder, HttpMethod, PreparedRequest, RetryLoop, DEFAULT_BASE_URL, VERSION,
};
pub use error::{api_error, ConnectionError, Error, API_VERSION};
pub use json::{Json, JsonView};
pub use resources::{
    extract_items, urlencode, AiQueryParams, ByEmailParams, ByNameParams, ByTickerParams, Chat,
    ChatCompletions, ChatMessage, ChatParams, Company, DomainParams, Extract, ExtractParams,
    JobCreateParams, Jobs, ListRuns, Lists, ListsParams, LogoParams, MonitorCreateParams,
    MonitorUpdateParams, Monitors, Page, PageExtractParams, PageHtmlParams, PageImagesParams,
    PageMarkdownParams, PageScreenshotParams, Pager, PagerView, ProductOneParams, Products,
    ProductsParams, Search, SearchParams, Site, SiteCrawlParams, SiteMapParams, PAGE_LIMIT,
};
pub use retry_after::retry_after_value;
pub use stream::{parse_block, SseStep, Stream, StreamView};
