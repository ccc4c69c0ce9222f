//! The style upstream: its URL and its errors.
use crate::endpoint::{join_path, joined_path, parse_url, url_serialization};
use crate::request_error::RequestError;
use vstd::prelude::*;

verus! {

/// The rewrite path under the upstream's base URL; the text goes in the
/// `text` query parameter.
pub const TRANSLATE_PATH: &'static str = "translate/shakespeare.json";

/// Client of the style upstream, rooted at its serialised base URL.
#[derive(Clone)]
pub struct FunTranslationsClient {
    pub endpoint: String,
}

impl View for FunTranslationsClient {
    type V = Seq<char>;

    open spec fn view(&self) -> Seq<char> {
        self.endpoint@
    }
}

/// A failed call to the style upstream.
#[derive(Debug)]
pub struct FunTranslationsClientError(pub RequestError);

impl FunTranslationsClient {
    /// A client for the upstream at `endpoint`; `None` where `endpoint` is no
    /// absolute URL.
    pub fn new(endpoint: &str) -> (r: Option<Self>)
        ensures
            match r {
                Some(c) => url_serialization(endpoint@) == Some(c@),
                None => url_serialization(endpoint@) is None,
            },
    {
        match parse_url(endpoint) {
            Some(u) => Some(FunTranslationsClient { endpoint: u }),
            None => None,
        }
    }

    /// The URL of the rewrite service, before its query.
    pub fn translate_url(&self) -> (r: String)
        ensures
            r@ == joined_path(self@, TRANSLATE_PATH@),
    {
        join_path(self.endpoint.as_str(), TRANSLATE_PATH)
    }
}

impl FunTranslationsClientError {
    pub open spec fn spec_message(&self) -> Seq<char> {
        self.0.message@
    }

    /// The diagnostic shown to the gateway's caller.
    pub fn message(&self) -> (r: String)
        ensures
            r@ == self.spec_message(),
    {
        self.0.message.clone()
    }
}

} // verus!
