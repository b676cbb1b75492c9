use crate::error::Error;
use crate::web_url::{has_scheme, parsed, Url};
use vstd::prelude::*;

verus! {

/// The address of the Frankfurt endpoint.
pub const FRANKFURT: &'static str = "https://storage.bunnycdn.com";

/// The address of the London endpoint.
pub const LONDON: &'static str = "https://uk.storage.bunnycdn.com";

/// The address of the New York endpoint.
pub const NEW_YORK: &'static str = "https://ny.storage.bunnycdn.com";

/// The address of the Los Angeles endpoint.
pub const LOS_ANGELES: &'static str = "https://la.storage.bunnycdn.com";

/// The address of the Singapore endpoint.
pub const SINGAPORE: &'static str = "https://sg.storage.bunnycdn.com";

/// The address of the Stockholm endpoint.
pub const STOCKHOLM: &'static str = "https://se.storage.bunnycdn.com";

/// The address of the Sao Paulo endpoint.
pub const SAO_PAULO: &'static str = "https://br.storage.bunnycdn.com";

/// The address of the Johannesburg endpoint.
pub const JOHANNESBURG: &'static str = "https://jh.storage.bunnycdn.com";

/// The address of the Sydney endpoint.
pub const SYDNEY: &'static str = "https://syd.storage.bunnycdn.com";

/// Endpoints for Edge Storage API
#[derive(Debug, Clone, PartialEq, Eq)]
pub enum Endpoint {
    /// Uses https://storage.bunnycdn.com as endpoint
    Frankfurt,
    /// Uses https://uk.storage.bunnycdn.com as endpoint
    London,
    /// Uses https://ny.storage.bunnycdn.com as endpoint
    NewYork,
    /// Uses https://la.storage.bunnycdn.com as endpoint
    LosAngeles,
    /// Uses https://sg.storage.bunnycdn.com as endpoint
    Singapore,
    /// Uses https://se.storage.bunnycdn.com as endpoint
    Stockholm,
    /// Uses https://br.storage.bunnycdn.com as endpoint
    SaoPaulo,
    /// Uses https://jh.storage.bunnycdn.com as endpoint
    Johannesburg,
    /// Uses https://syd.storage.bunnycdn.com as endpoint
    Sydney,
    /// Lets you input a custom endpoint, in case bunny adds a new one and this crate isnt up-to-date, has to be a valid URL with http(s) in front
    Custom(String),
}

impl Endpoint {
    /// The address that the endpoint stands for: one of the nine fixed
    /// addresses, or the text of a custom endpoint as it was given.
    pub open spec fn address(self) -> Seq<char> {
        match self {
            Endpoint::Frankfurt => FRANKFURT@,
            Endpoint::London => LONDON@,
            Endpoint::NewYork => NEW_YORK@,
            Endpoint::LosAngeles => LOS_ANGELES@,
            Endpoint::Singapore => SINGAPORE@,
            Endpoint::Stockholm => STOCKHOLM@,
            Endpoint::SaoPaulo => SAO_PAULO@,
            Endpoint::Johannesburg => JOHANNESBURG@,
            Endpoint::Sydney => SYDNEY@,
            Endpoint::Custom(text) => text@,
        }
    }

    /// The base URL that the endpoint resolves to: what the URL parser
    /// makes of its address, and `None` where the parser refuses it.
    pub open spec fn resolution(self) -> Option<Seq<char>> {
        parsed(self.address())
    }

    /// The address that the endpoint stands for.
    pub fn as_str(&self) -> (r: &str)
        ensures
            r@ == self.address(),
    {
        match self {
            Endpoint::Frankfurt => FRANKFURT,
            Endpoint::London => LONDON,
            Endpoint::NewYork => NEW_YORK,
            Endpoint::LosAngeles => LOS_ANGELES,
            Endpoint::Singapore => SINGAPORE,
            Endpoint::Stockholm => STOCKHOLM,
            Endpoint::SaoPaulo => SAO_PAULO,
            Endpoint::Johannesburg => JOHANNESBURG,
            Endpoint::Sydney => SYDNEY,
            Endpoint::Custom(text) => text.as_str(),
        }
    }

    /// Resolves the endpoint to its base URL.
    ///
    /// The result is what the URL parser makes of the endpoint's address,
    /// and of nothing else. A custom address without a scheme is refused.
    pub fn try_into(self) -> (r: Result<Url, Error>)
        ensures
            match r {
                Ok(url) => self.resolution() == Some(url@),
                Err(e) => self.resolution() is None && e.is_parser_refusal(),
            },
            !has_scheme(self.address()) ==> r is Err,
    {
        Url::parse(self.as_str())
    }
}

/// A custom endpoint whose text is a URL in the form that the parser
/// writes resolves to that URL, unchanged.
pub proof fn lemma_custom_passes_through(text: String)
    requires
        parsed(text@) == Some(text@),
    ensures
        Endpoint::Custom(text).resolution() == Some(text@),
{
}

} // verus!
