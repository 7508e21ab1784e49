//! The address that a client dials.

use vstd::prelude::*;
use vstd::string::*;

use crate::metadata::{GovalMetadata, MetadataView};

verus! {

/// The outcome of `url::Url::parse` on a text: the URL, serialised, or the
/// text of the error.
pub uninterp spec fn url_parsed(text: Seq<char>) -> Result<Seq<char>, Seq<char>>;

/// The outcome of `url::Url::set_path` on the URL that `text` denotes,
/// serialised.
pub uninterp spec fn url_with_path(text: Seq<char>, path: Seq<char>) -> Seq<char>;

/// The most characters that a URL and its new path may have together. It
/// keeps the positions in a URL, in which one character may take over a
/// hundred bytes, below the four gigabytes at which `url::Url::set_path`, and
/// with overflow checks `url::Url::parse`, panics.
pub const URL_LIMIT: usize = 0x100_0000;

/// The mathematical content of a text or an error text.
pub open spec fn texts_view(result: Result<String, String>) -> Result<Seq<char>, Seq<char>> {
    match result {
        Ok(text) => Ok(text@),
        Err(text) => Err(text@),
    }
}

/// `url::Url::parse`: the serialisation of the URL that `text` denotes, or
/// the text of the error. The outcome depends on `text` alone.
#[verifier::external_body]
fn parse_url(text: &str) -> (parsed: Result<String, String>)
    requires
        text@.len() <= URL_LIMIT,
    ensures
        texts_view(parsed) == url_parsed(text@),
{
    match url::Url::parse(text) {
        Ok(url) => Ok(url.to_string()),
        Err(error) => Err(error.to_string()),
    }
}

/// `url::Url::set_path` on the URL that `text` denotes: the serialisation of
/// the URL with its path replaced. The outcome depends on the two texts
/// alone.
#[verifier::external_body]
fn set_url_path(text: &str, path: &str) -> (changed: String)
    requires
        url_parsed(text@) is Ok,
        text@.len() + path@.len() <= URL_LIMIT,
    ensures
        changed@ == url_with_path(text@, path@),
{
    let mut url = url::Url::parse(text).unwrap();
    url.set_path(path);
    url.to_string()
}

/// The path of the websocket that `token` opens.
pub open spec fn websocket_path(token: Seq<char>) -> Seq<char> {
    "/wsv2/"@ + token
}

/// The address to dial: `gurl` with the path of the websocket; or the text of
/// the error if `gurl` is no URL.
pub open spec fn endpoint_of(metadata: MetadataView) -> Result<Seq<char>, Seq<char>> {
    match url_parsed(metadata.gurl) {
        Ok(_) => Ok(url_with_path(metadata.gurl, websocket_path(metadata.token))),
        Err(text) => Err(text),
    }
}

/// The address is short enough to be computed.
pub open spec fn within_url_limit(metadata: MetadataView) -> bool {
    metadata.gurl.len() + websocket_path(metadata.token).len() <= URL_LIMIT
}

impl GovalMetadata {
    /// The path of the websocket.
    pub fn websocket_path(&self) -> (path: String)
        ensures
            path@ == websocket_path(self.token@),
            path@ == "/wsv2/"@ + self.token@,
    {
        "/wsv2/".to_string().concat(self.token.as_str())
    }

    /// Whether the address is short enough to be computed.
    pub fn within_url_limit(&self) -> (within: bool)
        ensures
            within == within_url_limit(self@),
            within <==> self.gurl@.len() + "/wsv2/"@.len() + self.token@.len() <= 0x100_0000,
    {
        let path = self.websocket_path();
        let gurl_len: usize = self.gurl.as_str().unicode_len();
        let path_len: usize = path.as_str().unicode_len();
        gurl_len <= URL_LIMIT && path_len <= URL_LIMIT - gurl_len
    }

    /// The address to dial, or the text of the error if `gurl` is no URL.
    pub fn endpoint(&self) -> (endpoint: Result<String, String>)
        requires
            within_url_limit(self@),
        ensures
            texts_view(endpoint) == endpoint_of(self@),
            match url_parsed(self.gurl@) {
                Ok(_) => endpoint matches Ok(address) && address@ == url_with_path(
                    self.gurl@,
                    "/wsv2/"@ + self.token@,
                ),
                Err(cause) => endpoint matches Err(text) && text@ == cause,
            },
    {
        match parse_url(self.gurl.as_str()) {
            Ok(_) => {
                let path = self.websocket_path();
                Ok(set_url_path(self.gurl.as_str(), path.as_str()))
            },
            Err(text) => Err(text),
        }
    }
}

} // verus!
