//! Contains structs, enums and implementations for the main Bunny.net API

use crate::error::Error;
use crate::header::{default_headers_of, header_safe, AccessKey, ACCEPT, JSON};
use crate::query::{url_with_query, with_query};
use crate::request::{pair_views, Method, Operation, Pair, Request, RequestView};
use crate::text::{decimal, decimal_text, flag, flag_text};
use crate::web_url::Url;
use vstd::prelude::*;
use vstd::utf8::is_ascii_chars;

mod api_key;
pub use api_key::ApiKey;
mod pagination;
pub use pagination::Pagination;

verus! {

/// Where the countries are listed.
pub const COUNTRY_URL: &'static str = "https://api.bunny.net/country";

/// Where the API keys are listed.
pub const API_KEY_URL: &'static str = "https://api.bunny.net/apikey";

/// Where the regions are listed.
pub const REGION_URL: &'static str = "https://api.bunny.net/region";

/// Where a purge is asked for.
pub const PURGE_URL: &'static str = "https://api.bunny.net/purge";

/// The query parameters of a request for one page of API keys.
pub open spec fn page_query(page: i32, per_page: i32) -> Seq<(Seq<char>, Seq<char>)> {
    seq![
        ("page"@, decimal_text(page as int)),
        ("perPage"@, decimal_text(per_page as int)),
    ]
}

/// The query parameters of a purge request.
pub open spec fn purge_query(url: Seq<char>, asynchronous: bool) -> Seq<(Seq<char>, Seq<char>)> {
    seq![("url"@, url), ("async"@, flag_text(asynchronous))]
}

/// API Client for bunny.net
#[derive(Debug, Clone)]
pub struct BunnyClient {
    key: AccessKey,
}

impl View for BunnyClient {
    type V = Seq<char>;

    /// The API key that the client was made with.
    closed spec fn view(&self) -> Seq<char> {
        self.key@
    }
}

impl BunnyClient {
    /// Creates a new Bunny.net API Client using the supplied `api_key`
    ///
    /// Succeeds exactly where the key can be sent as a header value; any
    /// other key, and so any key with a character outside ASCII, is
    /// refused as an invalid header.
    pub fn new(api_key: &str) -> (r: Result<BunnyClient, Error>)
        ensures
            match r {
                Ok(client) => header_safe(api_key@) && client@ == api_key@,
                Err(e) => !header_safe(api_key@) && e is InvalidHeader,
            },
            !is_ascii_chars(api_key@) ==> (r matches Err(e) && e is InvalidHeader),
    {
        match AccessKey::new(api_key) {
            Ok(key) => Ok(BunnyClient { key }),
            Err(e) => Err(e),
        }
    }

    /// The headers that the transport sends with every request of this
    /// client. Each value can be sent as a header value.
    pub fn default_headers(&self) -> (r: Vec<Pair>)
        ensures
            pair_views(r@) == default_headers_of(self@),
            header_safe(self@),
    {
        self.key.headers()
    }

    /// Returns the request for the list of countries and tax rates
    pub fn get_country_list(&self) -> (r: Request)
        ensures
            r@ == (RequestView {
                operation: Operation::CountryList,
                method: Method::Get,
                url: COUNTRY_URL@,
                headers: seq![(ACCEPT@, JSON@)],
                body: None,
            }),
    {
        let mut headers: Vec<Pair> = Vec::new();
        headers.push(Pair::new(ACCEPT, JSON));
        assert(pair_views(headers@) =~= seq![(ACCEPT@, JSON@)]);
        Request {
            operation: Operation::CountryList,
            method: Method::Get,
            url: String::from_str(COUNTRY_URL),
            headers,
            body: None,
        }
    }

    /// Returns the request for one page of the list of API Keys
    ///
    /// `page` and `per_page` go into the query string as they are given.
    pub fn list_api_keys(&self, page: i32, per_page: i32) -> (r: Request)
        ensures
            r@ == (RequestView {
                operation: Operation::ApiKeyList,
                method: Method::Get,
                url: url_with_query(API_KEY_URL@, page_query(page, per_page)),
                headers: Seq::empty(),
                body: None,
            }),
    {
        let mut query: Vec<Pair> = Vec::new();
        query.push(Pair { name: String::from_str("page"), value: decimal(page) });
        query.push(Pair { name: String::from_str("perPage"), value: decimal(per_page) });
        assert(pair_views(query@) =~= page_query(page, per_page));
        let headers: Vec<Pair> = Vec::new();
        assert(pair_views(headers@) =~= Seq::empty());
        Request {
            operation: Operation::ApiKeyList,
            method: Method::Get,
            url: with_query(API_KEY_URL, &query),
            headers,
            body: None,
        }
    }

    /// Returns the request for the list of Regions
    pub fn region_list(&self) -> (r: Request)
        ensures
            r@ == (RequestView {
                operation: Operation::RegionList,
                method: Method::Get,
                url: REGION_URL@,
                headers: Seq::empty(),
                body: None,
            }),
    {
        let headers: Vec<Pair> = Vec::new();
        assert(pair_views(headers@) =~= Seq::empty());
        Request {
            operation: Operation::RegionList,
            method: Method::Get,
            url: String::from_str(REGION_URL),
            headers,
            body: None,
        }
    }

    /// Returns the request that purges a URL from the cache
    ///
    /// The URL to purge and the flag travel as the query parameters `url`
    /// and `async`, form-encoded; the flag reads `true` or `false`.
    pub fn purge_url(&self, url: &Url, asynchronous: bool) -> (r: Request)
        ensures
            r@ == (RequestView {
                operation: Operation::Purge,
                method: Method::Post,
                url: url_with_query(PURGE_URL@, purge_query(url@, asynchronous)),
                headers: Seq::empty(),
                body: None,
            }),
    {
        let mut query: Vec<Pair> = Vec::new();
        query.push(Pair::new("url", url.as_str()));
        query.push(Pair::new("async", flag(asynchronous)));
        assert(pair_views(query@) =~= purge_query(url@, asynchronous));
        let headers: Vec<Pair> = Vec::new();
        assert(pair_views(headers@) =~= Seq::empty());
        Request {
            operation: Operation::Purge,
            method: Method::Post,
            url: with_query(PURGE_URL, &query),
            headers,
            body: None,
        }
    }
}

} // verus!
