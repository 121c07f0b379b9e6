//! The response that the middleware itself gives on the scrape route.

use vstd::prelude::*;

verus! {

/// The status of a successful scrape.
pub const STATUS_OK: u16 = 200;

/// The status of a scrape whose rendering failed.
pub const STATUS_INTERNAL_SERVER_ERROR: u16 = 500;

/// The content type of the exposition, as a header value.
pub open spec fn plain_text() -> Seq<char> {
    "text/plain;charset=utf-8"@
}

/// Why a snapshot of the metrics could not be rendered.
#[derive(Debug, Clone, Copy, PartialEq, Eq, Structural)]
pub enum ScrapeError {
    /// The encoder rejected what the registry gathered.
    Encoding,
}

/// An HTTP response in plain values: the status code, the content type if there is
/// one, and the body.
#[derive(Debug, Clone)]
pub struct Response {
    pub status: u16,
    pub content_type: Option<String>,
    pub body: Vec<u8>,
}

/// What a [`Response`] is, mathematically.
pub struct ResponseView {
    pub status: int,
    pub content_type: Option<Seq<char>>,
    pub body: Seq<u8>,
}

impl View for Response {
    type V = ResponseView;

    open spec fn view(&self) -> ResponseView {
        ResponseView {
            status: self.status as int,
            content_type: match self.content_type {
                Some(text) => Some(text@),
                None => None,
            },
            body: self.body@,
        }
    }
}

/// The response owed to a scrape, given how the rendering of the snapshot ended.
pub open spec fn scrape_response_of(rendered: Result<Seq<u8>, ScrapeError>) -> ResponseView {
    match rendered {
        Ok(text) => ResponseView {
            status: 200,
            content_type: Some(plain_text()),
            body: text,
        },
        Err(_) => ResponseView { status: 500, content_type: None, body: Seq::empty() },
    }
}

/// The view of a rendering result.
pub open spec fn rendered_view(rendered: Result<Vec<u8>, ScrapeError>) -> Result<Seq<u8>, ScrapeError> {
    match rendered {
        Ok(text) => Ok(text@),
        Err(error) => Err(error),
    }
}

/// Builds the response to a scrape: 200 with the rendered snapshot as plain text, or
/// 500 with an empty body where the rendering failed.
pub fn scrape_response(rendered: Result<Vec<u8>, ScrapeError>) -> (response: Response)
    ensures
        response@ == scrape_response_of(rendered_view(rendered)),
{
    match rendered {
        Ok(text) => Response {
            status: STATUS_OK,
            content_type: Some("text/plain;charset=utf-8".to_owned()),
            body: text,
        },
        Err(_) => Response {
            status: STATUS_INTERNAL_SERVER_ERROR,
            content_type: None,
            body: Vec::new(),
        },
    }
}

} // verus!
