//! The exchange with replit.com that yields the connection metadata.

use vstd::prelude::*;
use vstd::string::*;

use crate::metadata::{
    fetch_result_view, FetchConnectionMetadataError, FetchConnectionMetadataResult, FetchErrorView,
    GovalMetadata, MetadataView,
};

verus! {

/// Fetches the metadata of a repl in the name of a logged-in user.
pub struct DefaultConnectionMetadataFetcher {
    pub connect_sid: String,
    pub replid: String,
}

/// An HTTP POST request.
#[derive(Debug, PartialEq, Eq)]
pub struct MetadataRequest {
    pub url: String,
    pub headers: Vec<(String, String)>,
    pub body: String,
}

/// What happened last in the exchange.
#[derive(Debug)]
pub enum FetchEvent {
    /// Nothing yet.
    Start,
    /// No response came.
    SendFailed,
    /// A response came, with this status code.
    Responded(u16),
    /// The body of the response holds metadata.
    BodyParsed(GovalMetadata),
    /// The body of the response could not be read, or holds something else.
    BodyUnreadable,
}

/// What to do next in the exchange.
#[derive(Debug)]
pub enum FetchAction {
    /// Send this request.
    Post(MetadataRequest),
    /// Read metadata from the body of the response.
    ReadBody,
    /// The exchange is over.
    Finish(FetchConnectionMetadataResult),
}

/// The mathematical content of a [`MetadataRequest`].
#[verifier::ext_equal]
pub struct RequestView {
    pub url: Seq<char>,
    pub headers: Seq<(Seq<char>, Seq<char>)>,
    pub body: Seq<char>,
}

/// The mathematical content of a [`FetchAction`].
#[verifier::ext_equal]
pub enum FetchActionView {
    Post(RequestView),
    ReadBody,
    Finish(Result<MetadataView, FetchErrorView>),
}

impl View for MetadataRequest {
    type V = RequestView;

    open spec fn view(&self) -> RequestView {
        RequestView {
            url: self.url@,
            headers: self.headers@.map_values(|header: (String, String)| (header.0@, header.1@)),
            body: self.body@,
        }
    }
}

impl View for FetchAction {
    type V = FetchActionView;

    open spec fn view(&self) -> FetchActionView {
        match *self {
            FetchAction::Post(request) => FetchActionView::Post(request@),
            FetchAction::ReadBody => FetchActionView::ReadBody,
            FetchAction::Finish(result) => FetchActionView::Finish(fetch_result_view(result)),
        }
    }
}

/// The request for the metadata of a repl.
pub open spec fn metadata_request(replid: Seq<char>, connect_sid: Seq<char>) -> RequestView {
    RequestView {
        url: "https://replit.com/data/repls/"@ + replid + "/get_connection_metadata"@,
        headers: seq![
            ("X-Requested-With"@, "XMLHttpRequest"@),
            ("Referer"@, "https://replit.com"@),
            ("User-Agent"@, "Mozilla/5.0 (Rust Crosis)"@),
            ("Cookie"@, "connect.sid="@ + connect_sid),
        ],
        body: "{}"@,
    }
}

/// What a status code other than 200 means: the server may recover from one
/// above 500.
pub open spec fn refused(status: u16) -> FetchErrorView {
    if status > 500 {
        FetchErrorView::Retriable
    } else {
        FetchErrorView::Abort
    }
}

impl DefaultConnectionMetadataFetcher {
    /// What the exchange does after `event`.
    pub open spec fn fetch_step(&self, event: FetchEvent) -> FetchActionView {
        match event {
            FetchEvent::Start => FetchActionView::Post(
                metadata_request(self.replid@, self.connect_sid@),
            ),
            FetchEvent::Responded(200) => FetchActionView::ReadBody,
            FetchEvent::Responded(status) => FetchActionView::Finish(Err(refused(status))),
            FetchEvent::BodyParsed(metadata) => FetchActionView::Finish(Ok(metadata@)),
            FetchEvent::SendFailed | FetchEvent::BodyUnreadable => FetchActionView::Finish(
                Err(FetchErrorView::Abort),
            ),
        }
    }

    /// Decides what to do after `event`.
    pub fn fetch(&self, event: FetchEvent) -> (action: FetchAction)
        ensures
            action@ == self.fetch_step(event),
            match event {
                FetchEvent::Start => action matches FetchAction::Post(request) && {
                    &&& request.url@ == "https://replit.com/data/repls/"@ + self.replid@
                        + "/get_connection_metadata"@
                    &&& request.body@ == "{}"@
                    &&& request.headers@.len() == 4
                    &&& request.headers@[0].0@ == "X-Requested-With"@
                    &&& request.headers@[0].1@ == "XMLHttpRequest"@
                    &&& request.headers@[1].0@ == "Referer"@
                    &&& request.headers@[1].1@ == "https://replit.com"@
                    &&& request.headers@[2].0@ == "User-Agent"@
                    &&& request.headers@[2].1@ == "Mozilla/5.0 (Rust Crosis)"@
                    &&& request.headers@[3].0@ == "Cookie"@
                    &&& request.headers@[3].1@ == "connect.sid="@ + self.connect_sid@
                },
                FetchEvent::Responded(status) => if status == 200 {
                    action is ReadBody
                } else if status > 500 {
                    action matches FetchAction::Finish(Err(FetchConnectionMetadataError::Retriable))
                } else {
                    action matches FetchAction::Finish(Err(FetchConnectionMetadataError::Abort))
                },
                FetchEvent::BodyParsed(metadata) => action matches FetchAction::Finish(
                    Ok(fetched),
                ) && {
                    &&& fetched.conman_url@ == metadata.conman_url@
                    &&& fetched.gurl@ == metadata.gurl@
                    &&& fetched.token@ == metadata.token@
                },
                FetchEvent::SendFailed | FetchEvent::BodyUnreadable => action
                    matches FetchAction::Finish(Err(FetchConnectionMetadataError::Abort)),
            },
    {
        match event {
            FetchEvent::Start => {
                let request = self.request();
                FetchAction::Post(request)
            },
            FetchEvent::SendFailed => FetchAction::Finish(
                Err(FetchConnectionMetadataError::Abort),
            ),
            FetchEvent::Responded(status) => {
                if status != 200 {
                    if status > 500 {
                        FetchAction::Finish(Err(FetchConnectionMetadataError::Retriable))
                    } else {
                        FetchAction::Finish(Err(FetchConnectionMetadataError::Abort))
                    }
                } else {
                    FetchAction::ReadBody
                }
            },
            FetchEvent::BodyParsed(metadata) => FetchAction::Finish(Ok(metadata)),
            FetchEvent::BodyUnreadable => FetchAction::Finish(
                Err(FetchConnectionMetadataError::Abort),
            ),
        }
    }

    /// The request for the metadata.
    fn request(&self) -> (request: MetadataRequest)
        ensures
            request@ == metadata_request(self.replid@, self.connect_sid@),
            request.headers@.len() == 4,
            request.headers@[0].0@ == "X-Requested-With"@,
            request.headers@[0].1@ == "XMLHttpRequest"@,
            request.headers@[1].0@ == "Referer"@,
            request.headers@[1].1@ == "https://replit.com"@,
            request.headers@[2].0@ == "User-Agent"@,
            request.headers@[2].1@ == "Mozilla/5.0 (Rust Crosis)"@,
            request.headers@[3].0@ == "Cookie"@,
            request.headers@[3].1@ == "connect.sid="@ + self.connect_sid@,
    {
        let url = "https://replit.com/data/repls/".to_string().concat(self.replid.as_str()).concat(
            "/get_connection_metadata",
        );
        let mut headers: Vec<(String, String)> = Vec::new();
        headers.push(("X-Requested-With".to_string(), "XMLHttpRequest".to_string()));
        headers.push(("Referer".to_string(), "https://replit.com".to_string()));
        headers.push(("User-Agent".to_string(), "Mozilla/5.0 (Rust Crosis)".to_string()));
        headers.push(
            ("Cookie".to_string(), "connect.sid=".to_string().concat(self.connect_sid.as_str())),
        );
        let request = MetadataRequest { url, headers, body: "{}".to_string() };
        proof {
            assert(request@.headers =~= metadata_request(self.replid@, self.connect_sid@).headers);
        }
        request
    }
}

} // verus!
