//! The stream providers that playback falls back to, and how their errors
//! and answers become a stream URL.
use vstd::prelude::*;
use crate::api::invidious::{InvidiousClient, InvidiousError};
use crate::api::piped::{PipedClient, PipedError, PipedStreams};
use crate::api::ytdlp::YtdlpError;
use crate::text::{concat, owned};

verus! {

pub enum ProviderError {
    NotAvailable(String),
    NotFound(String),
    ApiError(String),
    Internal(String),
}

impl ProviderError {
    pub open spec fn text(&self) -> Seq<char> {
        match self {
            ProviderError::NotAvailable(s) => "Provider not available: "@ + s@,
            ProviderError::NotFound(s) => "Video not found: "@ + s@,
            ProviderError::ApiError(s) => "API error: "@ + s@,
            ProviderError::Internal(s) => "Internal error: "@ + s@,
        }
    }

    pub fn message(&self) -> (r: String)
        ensures
            r@ == self.text(),
    {
        match self {
            ProviderError::NotAvailable(s) => concat("Provider not available: ", s.as_str()),
            ProviderError::NotFound(s) => concat("Video not found: ", s.as_str()),
            ProviderError::ApiError(s) => concat("API error: ", s.as_str()),
            ProviderError::Internal(s) => concat("Internal error: ", s.as_str()),
        }
    }

    /// A yt-dlp error: not-found stays not-found, anything else is an API
    /// error with the yt-dlp error's text.
    pub fn from_ytdlp(e: YtdlpError) -> (r: ProviderError)
        ensures
            e matches YtdlpError::NotFound(s) ==> r == ProviderError::NotFound(s),
            !(e is NotFound) ==> (r matches ProviderError::ApiError(m) && m@ == e.text()),
    {
        match e {
            YtdlpError::NotFound(s) => ProviderError::NotFound(s),
            other => ProviderError::ApiError(other.message()),
        }
    }

    /// An Invidious error, mapped the same way.
    pub fn from_invidious(e: InvidiousError) -> (r: ProviderError)
        ensures
            e matches InvidiousError::NotFound(s) ==> r == ProviderError::NotFound(s),
            !(e is NotFound) ==> (r matches ProviderError::ApiError(m) && m@ == e.text()),
    {
        match e {
            InvidiousError::NotFound(s) => ProviderError::NotFound(s),
            other => ProviderError::ApiError(other.message()),
        }
    }

    /// A Piped error, mapped the same way.
    pub fn from_piped(e: PipedError) -> (r: ProviderError)
        ensures
            e matches PipedError::NotFound(s) ==> r == ProviderError::NotFound(s),
            !(e is NotFound) ==> (r matches ProviderError::ApiError(m) && m@ == e.text()),
    {
        match e {
            PipedError::NotFound(s) => ProviderError::NotFound(s),
            other => ProviderError::ApiError(other.message()),
        }
    }
}

/// The provider that asks yt-dlp.
pub struct YtdlpProvider;

/// The provider that asks an Invidious instance.
pub struct InvidiousProvider {
    pub client: InvidiousClient,
}

/// The provider that asks a Piped instance.
pub struct PipedProvider {
    pub client: PipedClient,
}

impl PipedProvider {
    /// The stream to play from Piped's answer: the first video stream, else
    /// the HLS manifest, else the DASH manifest.
    pub fn pick_stream(streams: PipedStreams) -> (r: Result<String, ProviderError>)
        ensures
            streams.video_streams@.len() > 0 ==> r == Ok::<String, ProviderError>(
                streams.video_streams@[0].url,
            ),
            streams.video_streams@.len() == 0 && streams.hls is Some ==> r == Ok::<
                String,
                ProviderError,
            >(streams.hls->0),
            streams.video_streams@.len() == 0 && streams.hls is None && streams.dash is Some ==> r
                == Ok::<String, ProviderError>(streams.dash->0),
            streams.video_streams@.len() == 0 && streams.hls is None && streams.dash is None ==> (
            r matches Err(ProviderError::ApiError(m)) && m@ == "No suitable stream found"@),
    {
        let mut streams = streams;
        if streams.video_streams.len() > 0 {
            let first = streams.video_streams.remove(0);
            return Ok(first.url);
        }
        if let Some(hls) = streams.hls {
            return Ok(hls);
        }
        if let Some(dash) = streams.dash {
            return Ok(dash);
        }
        Err(ProviderError::ApiError(owned("No suitable stream found")))
    }
}

} // verus!
