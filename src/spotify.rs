use vstd::prelude::*;
use vstd::string::*;

use crate::error::MissingScopeError;
use crate::scope::Scope;
use crate::Spotify;

verus! {

/// Where in a context playback starts: at a position, or at an item.
#[derive(Debug)]
pub enum Offset {
    Position { position: u64 },
    Uri { uri: String },
}

/// The parameters of resuming playback; each may be left out.
#[derive(Debug)]
pub struct ResumePlayback<'a> {
    pub device_id: Option<&'a str>,
    pub context_uri: Option<&'a str>,
    pub uris: Option<&'a [&'a str]>,
    pub offset: Option<Offset>,
    pub position_ms: Option<u64>,
}

/// The JSON body of resuming playback: the parameters but the device,
/// which goes in the query.
#[derive(Debug)]
pub struct ResumePlaybackBody<'a> {
    pub context_uri: Option<&'a str>,
    pub uris: Option<&'a [&'a str]>,
    pub offset: Option<Offset>,
    pub position_ms: Option<u64>,
}

/// Builds [`ResumePlayback`] one parameter at a time.
#[derive(Debug)]
pub struct ResumePlaybackBuilder<'a> {
    playback: ResumePlayback<'a>,
}

impl<'a> ResumePlayback<'a> {
    /// A builder with no parameter set.
    pub fn builder() -> (r: ResumePlaybackBuilder<'a>)
        ensures
            r.spec_playback() == (ResumePlayback::<'a> {
                device_id: None,
                context_uri: None,
                uris: None,
                offset: None,
                position_ms: None,
            }),
    {
        ResumePlaybackBuilder {
            playback: ResumePlayback {
                device_id: None,
                context_uri: None,
                uris: None,
                offset: None,
                position_ms: None,
            },
        }
    }

    /// The JSON body of these parameters.
    pub fn body(self) -> (r: ResumePlaybackBody<'a>)
        ensures
            r == (ResumePlaybackBody::<'a> {
                context_uri: self.context_uri,
                uris: self.uris,
                offset: self.offset,
                position_ms: self.position_ms,
            }),
    {
        ResumePlaybackBody {
            context_uri: self.context_uri,
            uris: self.uris,
            offset: self.offset,
            position_ms: self.position_ms,
        }
    }
}

impl<'a> ResumePlaybackBuilder<'a> {
    /// The parameters set so far.
    pub closed spec fn spec_playback(&self) -> ResumePlayback<'a> {
        self.playback
    }

    /// Sets the device to play on.
    pub fn device_id(self, device_id: &'a str) -> (r: ResumePlaybackBuilder<'a>)
        ensures
            r.spec_playback() == (ResumePlayback {
                device_id: Some(device_id),
                ..self.spec_playback()
            }),
    {
        ResumePlaybackBuilder { playback: ResumePlayback { device_id: Some(device_id), ..self.playback } }
    }

    /// Sets the context (album, artist, playlist) to play.
    pub fn context_uri(self, context_uri: &'a str) -> (r: ResumePlaybackBuilder<'a>)
        ensures
            r.spec_playback() == (ResumePlayback {
                context_uri: Some(context_uri),
                ..self.spec_playback()
            }),
    {
        ResumePlaybackBuilder {
            playback: ResumePlayback { context_uri: Some(context_uri), ..self.playback },
        }
    }

    /// Sets the tracks to play.
    pub fn uris(self, uris: &'a [&'a str]) -> (r: ResumePlaybackBuilder<'a>)
        ensures
            r.spec_playback() == (ResumePlayback { uris: Some(uris), ..self.spec_playback() }),
    {
        ResumePlaybackBuilder { playback: ResumePlayback { uris: Some(uris), ..self.playback } }
    }

    /// Sets where in the context playback starts.
    pub fn offset(self, offset: Offset) -> (r: ResumePlaybackBuilder<'a>)
        ensures
            r.spec_playback() == (ResumePlayback { offset: Some(offset), ..self.spec_playback() }),
    {
        ResumePlaybackBuilder { playback: ResumePlayback { offset: Some(offset), ..self.playback } }
    }

    /// Sets the position in the first track, in milliseconds.
    pub fn position_ms(self, position_ms: u64) -> (r: ResumePlaybackBuilder<'a>)
        ensures
            r.spec_playback() == (ResumePlayback {
                position_ms: Some(position_ms),
                ..self.spec_playback()
            }),
    {
        ResumePlaybackBuilder {
            playback: ResumePlayback { position_ms: Some(position_ms), ..self.playback },
        }
    }

    /// The parameters set, the others left out.
    pub fn build(self) -> (r: ResumePlayback<'a>)
        ensures
            r == self.spec_playback(),
    {
        self.playback
    }
}

/// The HTTP method of an API call.
#[derive(Debug, Clone, Copy, PartialEq, Eq, Structural)]
pub enum Method {
    Get,
    Put,
}

/// An API call ready to be sent: method, URL, `Authorization` header and
/// query parameters.
#[derive(Debug)]
pub struct ApiRequest {
    pub method: Method,
    pub url: String,
    pub authorization_header: String,
    pub query: Vec<(String, String)>,
}

/// The query of a call with one optional parameter `name`.
pub open spec fn optional_query(name: Seq<char>, value: Option<&str>) -> Seq<
    (Seq<char>, Seq<char>),
> {
    match value {
        Some(v) => seq![(name, v@)],
        None => Seq::empty(),
    }
}

/// Whether `q` is the call `method` on `url` with the query of one optional
/// parameter, on behalf of `session`.
pub open spec fn is_call(
    q: ApiRequest,
    session: Spotify,
    method: Method,
    url: Seq<char>,
    name: Seq<char>,
    value: Option<&str>,
) -> bool {
    &&& q.method == method
    &&& q.url@ == url
    &&& q.authorization_header@ == "Bearer "@ + session.spec_access_token()
    &&& crate::authorization::form_text(q.query@) == optional_query(name, value)
}

impl Spotify {
    fn gated_call(
        &self,
        scope: Scope,
        method: Method,
        url: &str,
        name: &str,
        value: Option<&str>,
    ) -> (r: Result<ApiRequest, MissingScopeError>)
        ensures
            r is Ok <==> self.spec_scopes().contains(scope),
            r matches Err(e) ==> e.scope == scope,
            r matches Ok(q) ==> is_call(q, *self, method, url@, name@, value),
    {
        self.require(scope)?;
        let mut query: Vec<(String, String)> = Vec::new();
        match value {
            Some(v) => {
                query.push((String::from_str(name), String::from_str(v)));
            },
            None => {},
        }
        assert(crate::authorization::form_text(query@) =~= optional_query(name@, value));
        Ok(
            ApiRequest {
                method,
                url: String::from_str(url),
                authorization_header: self.bearer_header(),
                query,
            },
        )
    }

    /// Pauses playback, on `device_id` or the active device; needs
    /// [`Scope::UserModifyPlaybackState`].
    pub fn pause_playback_request(&self, device_id: Option<&str>) -> (r: Result<
        ApiRequest,
        MissingScopeError,
    >)
        ensures
            r is Ok <==> self.spec_scopes().contains(Scope::UserModifyPlaybackState),
            r matches Err(e) ==> e.scope == Scope::UserModifyPlaybackState,
            r matches Ok(q) ==> is_call(
                q,
                *self,
                Method::Put,
                "https://api.spotify.com/v1/me/player/pause"@,
                "device_id"@,
                device_id,
            ),
    {
        self.gated_call(
            Scope::UserModifyPlaybackState,
            Method::Put,
            "https://api.spotify.com/v1/me/player/pause",
            "device_id",
            device_id,
        )
    }

    /// Resumes playback with `params`, whose device goes in the query and the
    /// rest in the body; needs [`Scope::UserModifyPlaybackState`].
    pub fn resume_playback_request(&self, params: &ResumePlayback) -> (r: Result<
        ApiRequest,
        MissingScopeError,
    >)
        ensures
            r is Ok <==> self.spec_scopes().contains(Scope::UserModifyPlaybackState),
            r matches Err(e) ==> e.scope == Scope::UserModifyPlaybackState,
            r matches Ok(q) ==> is_call(
                q,
                *self,
                Method::Put,
                "https://api.spotify.com/v1/me/player/play"@,
                "device_id"@,
                params.device_id,
            ),
    {
        self.gated_call(
            Scope::UserModifyPlaybackState,
            Method::Put,
            "https://api.spotify.com/v1/me/player/play",
            "device_id",
            params.device_id,
        )
    }

    /// Asks for the item that is playing, in `market`; needs
    /// [`Scope::UserReadCurrentlyPlaying`].
    pub fn currently_playing_request(&self, market: Option<&str>) -> (r: Result<
        ApiRequest,
        MissingScopeError,
    >)
        ensures
            r is Ok <==> self.spec_scopes().contains(Scope::UserReadCurrentlyPlaying),
            r matches Err(e) ==> e.scope == Scope::UserReadCurrentlyPlaying,
            r matches Ok(q) ==> is_call(
                q,
                *self,
                Method::Get,
                "https://api.spotify.com/v1/me/player/currently-playing"@,
                "market"@,
                market,
            ),
    {
        self.gated_call(
            Scope::UserReadCurrentlyPlaying,
            Method::Get,
            "https://api.spotify.com/v1/me/player/currently-playing",
            "market",
            market,
        )
    }

    /// Asks for the item that is playing, in `market`, under the playback
    /// state scope; needs [`Scope::UserReadPlaybackState`].
    pub fn currently_playing_state_request(&self, market: Option<&str>) -> (r: Result<
        ApiRequest,
        MissingScopeError,
    >)
        ensures
            r is Ok <==> self.spec_scopes().contains(Scope::UserReadPlaybackState),
            r matches Err(e) ==> e.scope == Scope::UserReadPlaybackState,
            r matches Ok(q) ==> is_call(
                q,
                *self,
                Method::Get,
                "https://api.spotify.com/v1/me/player/currently-playing"@,
                "market"@,
                market,
            ),
    {
        self.gated_call(
            Scope::UserReadPlaybackState,
            Method::Get,
            "https://api.spotify.com/v1/me/player/currently-playing",
            "market",
            market,
        )
    }
}

} // verus!
