//! What a client has to know before it can connect.

use vstd::prelude::*;

use crate::error::{CrosisError, ErrorView};

verus! {

/// Where a container is reached, and with which token.
#[derive(Debug)]
pub struct GovalMetadata {
    pub conman_url: String,
    pub gurl: String,
    pub token: String,
}

/// Why the metadata could not be fetched.
#[derive(Debug)]
pub enum FetchConnectionMetadataError {
    /// It is of no use to try again.
    Abort,
    /// It may work later.
    Retriable,
    Other(CrosisError),
}

pub type FetchConnectionMetadataResult = Result<GovalMetadata, FetchConnectionMetadataError>;

/// The mathematical content of a [`GovalMetadata`].
pub struct MetadataView {
    pub conman_url: Seq<char>,
    pub gurl: Seq<char>,
    pub token: Seq<char>,
}

/// The mathematical content of a [`FetchConnectionMetadataError`].
pub enum FetchErrorView {
    Abort,
    Retriable,
    Other(ErrorView),
}

impl View for GovalMetadata {
    type V = MetadataView;

    open spec fn view(&self) -> MetadataView {
        MetadataView { conman_url: self.conman_url@, gurl: self.gurl@, token: self.token@ }
    }
}

impl View for FetchConnectionMetadataError {
    type V = FetchErrorView;

    open spec fn view(&self) -> FetchErrorView {
        match *self {
            FetchConnectionMetadataError::Abort => FetchErrorView::Abort,
            FetchConnectionMetadataError::Retriable => FetchErrorView::Retriable,
            FetchConnectionMetadataError::Other(error) => FetchErrorView::Other(error@),
        }
    }
}

/// The mathematical content of a [`FetchConnectionMetadataResult`].
pub open spec fn fetch_result_view(result: FetchConnectionMetadataResult) -> Result<
    MetadataView,
    FetchErrorView,
> {
    match result {
        Ok(metadata) => Ok(metadata@),
        Err(error) => Err(error@),
    }
}

} // verus!
