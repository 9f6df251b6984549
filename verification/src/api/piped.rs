//! The Piped API: the streams request and the reading of its answer.
use vstd::prelude::*;
use crate::api::http::{is_success, HttpStatus, TransportError};
use crate::text::{chars_of, concat, owned, string_of, strip_trailing, strip_trailing_char};

verus! {

pub enum PipedError {
    NotFound(String),
    RequestFailed(String),
    Parse(String),
}

impl PipedError {
    pub open spec fn text(&self) -> Seq<char> {
        match self {
            PipedError::NotFound(s) => "Video not found: "@ + s@,
            PipedError::RequestFailed(s) => "Request failed: "@ + s@,
            PipedError::Parse(s) => "Parse error: "@ + s@,
        }
    }

    pub fn message(&self) -> (r: String)
        ensures
            r@ == self.text(),
    {
        match self {
            PipedError::NotFound(s) => concat("Video not found: ", s.as_str()),
            PipedError::RequestFailed(s) => concat("Request failed: ", s.as_str()),
            PipedError::Parse(s) => concat("Parse error: ", s.as_str()),
        }
    }

    /// Any transport failure is a failed request with the error's text.
    pub fn from_transport(e: &TransportError) -> (r: PipedError)
        ensures
            r == PipedError::RequestFailed(e.message),
    {
        PipedError::RequestFailed(e.message.clone())
    }
}

pub struct PipedVideoStream {
    pub url: String,
    pub quality: Option<String>,
    pub mime_type: String,
}

pub struct PipedStreams {
    pub video_streams: Vec<PipedVideoStream>,
    pub audio_streams: Vec<PipedVideoStream>,
    pub hls: Option<String>,
    pub dash: Option<String>,
}

pub struct PipedClient {
    pub base_url: String,
}

impl PipedClient {
    /// A client of the instance at `base_url`, kept without its trailing
    /// slashes.
    pub fn new(base_url: &str) -> (r: PipedClient)
        ensures
            r.base_url@ == strip_trailing(base_url@, '/'),
    {
        let v = chars_of(base_url);
        let b = strip_trailing_char(&v, '/');
        PipedClient { base_url: string_of(&b) }
    }

    pub fn streams_url(&self, video_id: &str) -> (r: String)
        ensures
            r@ == self.base_url@ + "/streams/"@ + video_id@,
    {
        let mut u = concat(self.base_url.as_str(), "/streams/");
        u.push_str(video_id);
        u
    }

    /// Checks the status of a streams answer: a 404 means the video is not
    /// found, any other code out of the 2xx range a failed request.
    pub fn check_status(status: &HttpStatus, video_id: &str) -> (r: Result<(), PipedError>)
        ensures
            r is Ok <==> is_success(status.code),
            status.code == 404 ==> (r matches Err(PipedError::NotFound(id)) && id@ == video_id@),
            status.code != 404 && !is_success(status.code) ==> (r matches Err(
                PipedError::RequestFailed(m),
            ) && m@ == "HTTP "@ + status.text@),
    {
        if status.code == 404 {
            return Err(PipedError::NotFound(owned(video_id)));
        }
        if status.code < 200 || status.code > 299 {
            return Err(PipedError::RequestFailed(concat("HTTP ", status.text.as_str())));
        }
        Ok(())
    }
}

} // verus!
