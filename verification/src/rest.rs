//! Control-surface request builders. Every operation against a node's
//! request/response surface is described here as a plain request value with
//! an exact contract: the URL, query, headers and body it must carry, and —
//! for session-scoped operations — the guarantee that a missing session id
//! fails with `NoSessionId` before any request value exists at all. The shell
//! only transports these values; it decides nothing.

use vstd::prelude::*;
use vstd::string::StrSliceExecFns;
use vstd::string::StringExecFns;
use crate::error::LavalinkRestError;
use crate::model::LavalinkPlayerOptions;
use crate::model::SessionInfo;
use crate::text::format_u64;
use crate::text::spec_u64_digits;

verus! {

/// HTTP method of a control request.
#[derive(Clone, Debug)]
pub enum HttpMethod {
    Get,
    Patch,
    Delete,
    Post,
}

/// Body of a control request. Structured payloads are serialized by the
/// shell; `Raw` text is sent as it stands.
#[derive(Clone, Debug)]
pub enum RequestBody {
    PlayerOptions(LavalinkPlayerOptions),
    Session(SessionInfo),
    Raw(String),
}

/// A fully described control request.
#[derive(Clone, Debug)]
pub struct HttpRequest {
    pub method: HttpMethod,
    pub url: String,
    pub query: Vec<(String, String)>,
    pub headers: Vec<(String, String)>,
    pub body: Option<RequestBody>,
}

/// The headers every control request carries: the node's bearer token and
/// the library's user agent.
pub open spec fn spec_base_headers(h: Seq<(String, String)>, auth: Seq<char>, ua: Seq<char>) -> bool {
    &&& h.len() == 2
    &&& h[0].0@ == "Authorization"@
    &&& h[0].1@ == auth
    &&& h[1].0@ == "User-Agent"@
    &&& h[1].1@ == ua
}

/// `spec_base_headers` plus a JSON content-type header.
pub open spec fn spec_json_headers(h: Seq<(String, String)>, auth: Seq<char>, ua: Seq<char>) -> bool {
    &&& h.len() == 3
    &&& spec_base_headers(h.take(2), auth, ua)
    &&& h[2].0@ == "Content-Type"@
    &&& h[2].1@ == "application/json"@
}

/// Configuration of a node's control surface: base URL, bearer token and
/// user agent. The session id is not held here — it belongs to the node
/// manager and is passed into each session-scoped builder.
#[derive(Clone, Debug)]
pub struct Rest {
    pub url: String,
    pub auth: String,
    pub user_agent: String,
}

/// Options a control surface is created from.
#[derive(Clone, Debug)]
pub struct RestOptions {
    pub url: String,
    pub auth: String,
    pub user_agent: String,
}

impl Rest {
    /// Creates a control surface bound to one node.
    pub fn new(options: RestOptions) -> (r: Rest)
        ensures
            r.url == options.url,
            r.auth == options.auth,
            r.user_agent == options.user_agent,
    {
        Rest { url: options.url, auth: options.auth, user_agent: options.user_agent }
    }

    /// The session id required by session-scoped operations, or the
    /// dedicated error when none has been issued yet.
    pub fn get_session_id(&self, session: &Option<String>) -> (r: Result<
        String,
        LavalinkRestError,
    >)
        ensures
            match session {
                Some(s) => r == Result::<String, LavalinkRestError>::Ok(*s),
                None => r == Result::<String, LavalinkRestError>::Err(
                    LavalinkRestError::NoSessionId,
                ),
            },
    {
        match session {
            Some(s) => Ok(s.clone()),
            None => Err(LavalinkRestError::NoSessionId),
        }
    }

    /// Base headers of every request from this surface.
    fn base_headers(&self) -> (h: Vec<(String, String)>)
        ensures
            spec_base_headers(h@, self.auth@, self.user_agent@),
    {
        let mut h: Vec<(String, String)> = Vec::new();
        h.push((String::from_str("Authorization"), self.auth.clone()));
        h.push((String::from_str("User-Agent"), self.user_agent.clone()));
        h
    }

    /// Base headers plus a JSON content type.
    fn json_headers(&self) -> (h: Vec<(String, String)>)
        ensures
            spec_json_headers(h@, self.auth@, self.user_agent@),
    {
        let mut h = self.base_headers();
        let ghost base = h@;
        h.push((String::from_str("Content-Type"), String::from_str("application/json")));
        proof {
            assert(h@.take(2) =~= base);
        }
        h
    }

    /// URL of a fixed route below the node base.
    fn route_url(&self, route: &str) -> (u: String)
        ensures
            u@ == self.url@ + route@,
    {
        self.url.clone().concat(route)
    }

    /// URL of the session-scoped route collection for `sid`.
    fn session_url(&self, sid: &String) -> (u: String)
        ensures
            u@ == self.url@ + "/sessions/"@ + sid@,
    {
        let u = self.url.clone().concat("/sessions/").concat(sid.as_str());
        proof {
            assert(u@ =~= self.url@ + "/sessions/"@ + sid@);
        }
        u
    }

    /// URL of one tenant's player below the session `sid`.
    fn player_url(&self, sid: &String, guild_id: u64) -> (u: String)
        ensures
            u@ == self.url@ + "/sessions/"@ + sid@ + "/players/"@ + spec_u64_digits(
                guild_id as int,
            ),
    {
        let g = format_u64(guild_id);
        let u = self.session_url(sid).concat("/players/").concat(g.as_str());
        proof {
            assert(u@ =~= self.url@ + "/sessions/"@ + sid@ + "/players/"@ + spec_u64_digits(
                guild_id as int,
            ));
        }
        u
    }

    /// Request that resolves a link or search term into loadable tracks.
    pub fn resolve(&self, identifier: String) -> (r: HttpRequest)
        ensures
            r.method is Get,
            r.url@ == self.url@ + "/loadtracks"@,
            r.query@.len() == 1,
            r.query@[0].0@ == "identifier"@,
            r.query@[0].1 == identifier,
            spec_base_headers(r.headers@, self.auth@, self.user_agent@),
            r.body is None,
    {
        let mut query: Vec<(String, String)> = Vec::new();
        query.push((String::from_str("identifier"), identifier));
        HttpRequest {
            method: HttpMethod::Get,
            url: self.route_url("/loadtracks"),
            query,
            headers: self.base_headers(),
            body: None,
        }
    }

    /// Request that decodes an encoded track string.
    pub fn decode(&self, track: String) -> (r: HttpRequest)
        ensures
            r.method is Get,
            r.url@ == self.url@ + "/decodetrack"@,
            r.query@.len() == 1,
            r.query@[0].0@ == "track"@,
            r.query@[0].1 == track,
            spec_base_headers(r.headers@, self.auth@, self.user_agent@),
            r.body is None,
    {
        let mut query: Vec<(String, String)> = Vec::new();
        query.push((String::from_str("track"), track));
        HttpRequest {
            method: HttpMethod::Get,
            url: self.route_url("/decodetrack"),
            query,
            headers: self.base_headers(),
            body: None,
        }
    }

    /// Request that fetches one tenant's player snapshot. Session-scoped:
    /// with no session id it fails with `NoSessionId` and describes no
    /// request at all.
    pub fn get_player(&self, session: &Option<String>, guild_id: u64) -> (r: Result<
        HttpRequest,
        LavalinkRestError,
    >)
        ensures
            session is None <==> r == Result::<HttpRequest, LavalinkRestError>::Err(
                LavalinkRestError::NoSessionId,
            ),
            session matches Some(sid) ==> r matches Ok(req) && req.method is Get && req.url@
                == self.url@ + "/sessions/"@ + sid@ + "/players/"@ + spec_u64_digits(
                guild_id as int,
            ) && req.query@.len() == 0 && spec_base_headers(
                req.headers@,
                self.auth@,
                self.user_agent@,
            ) && req.body is None,
    {
        let sid = self.get_session_id(session)?;
        Ok(
            HttpRequest {
                method: HttpMethod::Get,
                url: self.player_url(&sid, guild_id),
                query: Vec::new(),
                headers: self.base_headers(),
                body: None,
            },
        )
    }

    /// Request that lists every player of this node's session.
    pub fn get_players(&self, session: &Option<String>) -> (r: Result<
        HttpRequest,
        LavalinkRestError,
    >)
        ensures
            session is None <==> r == Result::<HttpRequest, LavalinkRestError>::Err(
                LavalinkRestError::NoSessionId,
            ),
            session matches Some(sid) ==> r matches Ok(req) && req.method is Get && req.url@
                == self.url@ + "/sessions/"@ + sid@ + "/players"@ && req.query@.len() == 0
                && spec_base_headers(req.headers@, self.auth@, self.user_agent@) && req.body
                is None,
    {
        let sid = self.get_session_id(session)?;
        let url = self.session_url(&sid).concat("/players");
        proof {
            assert(url@ =~= self.url@ + "/sessions/"@ + sid@ + "/players"@);
        }
        Ok(
            HttpRequest {
                method: HttpMethod::Get,
                url,
                query: Vec::new(),
                headers: self.base_headers(),
                body: None,
            },
        )
    }

    /// Request that updates one tenant's player. Carries the update payload
    /// as its body and the `noReplace` flag as a query parameter.
    pub fn update_player(
        &self,
        session: &Option<String>,
        guild_id: u64,
        no_replace: bool,
        options: LavalinkPlayerOptions,
    ) -> (r: Result<HttpRequest, LavalinkRestError>)
        ensures
            session is None <==> r == Result::<HttpRequest, LavalinkRestError>::Err(
                LavalinkRestError::NoSessionId,
            ),
            session matches Some(sid) ==> r matches Ok(req) && req.method is Patch && req.url@
                == self.url@ + "/sessions/"@ + sid@ + "/players/"@ + spec_u64_digits(
                guild_id as int,
            ) && req.query@.len() == 1 && req.query@[0].0@ == "noReplace"@ && req.query@[0].1@
                == (if no_replace {
                "true"@
            } else {
                "false"@
            }) && spec_json_headers(req.headers@, self.auth@, self.user_agent@)
                && req.body == Some(RequestBody::PlayerOptions(options)),
    {
        let sid = self.get_session_id(session)?;
        let flag = if no_replace {
            String::from_str("true")
        } else {
            String::from_str("false")
        };
        let mut query: Vec<(String, String)> = Vec::new();
        query.push((String::from_str("noReplace"), flag));
        Ok(
            HttpRequest {
                method: HttpMethod::Patch,
                url: self.player_url(&sid, guild_id),
                query,
                headers: self.json_headers(),
                body: Some(RequestBody::PlayerOptions(options)),
            },
        )
    }

    /// Request that destroys one tenant's player on the node.
    pub fn destroy_player(&self, session: &Option<String>, guild_id: u64) -> (r: Result<
        HttpRequest,
        LavalinkRestError,
    >)
        ensures
            session is None <==> r == Result::<HttpRequest, LavalinkRestError>::Err(
                LavalinkRestError::NoSessionId,
            ),
            session matches Some(sid) ==> r matches Ok(req) && req.method is Delete && req.url@
                == self.url@ + "/sessions/"@ + sid@ + "/players/"@ + spec_u64_digits(
                guild_id as int,
            ) && req.query@.len() == 0 && spec_base_headers(
                req.headers@,
                self.auth@,
                self.user_agent@,
            ) && req.body is None,
    {
        let sid = self.get_session_id(session)?;
        Ok(
            HttpRequest {
                method: HttpMethod::Delete,
                url: self.player_url(&sid, guild_id),
                query: Vec::new(),
                headers: self.base_headers(),
                body: None,
            },
        )
    }

    /// Request that updates the node session's resume configuration.
    pub fn update_session(&self, session: &Option<String>, options: SessionInfo) -> (r: Result<
        HttpRequest,
        LavalinkRestError,
    >)
        ensures
            session is None <==> r == Result::<HttpRequest, LavalinkRestError>::Err(
                LavalinkRestError::NoSessionId,
            ),
            session matches Some(sid) ==> r matches Ok(req) && req.method is Patch && req.url@
                == self.url@ + "/sessions/"@ + sid@ && req.query@.len() == 0
                && spec_base_headers(req.headers@, self.auth@, self.user_agent@)
                && req.body == Some(RequestBody::Session(options)),
    {
        let sid = self.get_session_id(session)?;
        Ok(
            HttpRequest {
                method: HttpMethod::Patch,
                url: self.session_url(&sid),
                query: Vec::new(),
                headers: self.base_headers(),
                body: Some(RequestBody::Session(options)),
            },
        )
    }

    /// Request that fetches the node's statistics.
    pub fn stats(&self) -> (r: HttpRequest)
        ensures
            r.method is Get,
            r.url@ == self.url@ + "/stats"@,
            r.query@.len() == 0,
            spec_base_headers(r.headers@, self.auth@, self.user_agent@),
            r.body is None,
    {
        HttpRequest {
            method: HttpMethod::Get,
            url: self.route_url("/stats"),
            query: Vec::new(),
            headers: self.base_headers(),
            body: None,
        }
    }

    /// Request that fetches the node's route-planner status.
    pub fn route_planner_status(&self) -> (r: HttpRequest)
        ensures
            r.method is Get,
            r.url@ == self.url@ + "/routeplanner/status"@,
            r.query@.len() == 0,
            spec_base_headers(r.headers@, self.auth@, self.user_agent@),
            r.body is None,
    {
        HttpRequest {
            method: HttpMethod::Get,
            url: self.route_url("/routeplanner/status"),
            query: Vec::new(),
            headers: self.base_headers(),
            body: None,
        }
    }

    /// Request that unmarks a failed address. The body is the JSON object
    /// with the address under its `address` key; the address — an IP
    /// address, which needs no escaping — is embedded verbatim.
    pub fn unmark_failed_address(&self, address: String) -> (r: HttpRequest)
        ensures
            r.method is Post,
            r.url@ == self.url@ + "/routeplanner/free/address"@,
            r.query@.len() == 0,
            spec_json_headers(r.headers@, self.auth@, self.user_agent@),
            r.body matches Some(RequestBody::Raw(b)) && b@ == "{\"address\":\""@ + address@
                + "\"}"@,
    {
        let body = String::from_str("{\"address\":\"").concat(address.as_str()).concat(
            "\"}",
        );
        proof {
            assert(body@ =~= "{\"address\":\""@ + address@ + "\"}"@);
        }
        HttpRequest {
            method: HttpMethod::Post,
            url: self.route_url("/routeplanner/free/address"),
            query: Vec::new(),
            headers: self.json_headers(),
            body: Some(RequestBody::Raw(body)),
        }
    }

    /// Request that fetches the node's build and capability report.
    pub fn info(&self) -> (r: HttpRequest)
        ensures
            r.method is Get,
            r.url@ == self.url@ + "/info"@,
            r.query@.len() == 0,
            spec_base_headers(r.headers@, self.auth@, self.user_agent@),
            r.body is None,
    {
        HttpRequest {
            method: HttpMethod::Get,
            url: self.route_url("/info"),
            query: Vec::new(),
            headers: self.base_headers(),
            body: None,
        }
    }
}

/// Requires a response body to be present: an empty body where a value was
/// expected is the `NothingReturned` error.
pub fn expect_body(body: Option<String>) -> (r: Result<String, LavalinkRestError>)
    ensures
        match body {
            Some(b) => r == Result::<String, LavalinkRestError>::Ok(b),
            None => r == Result::<String, LavalinkRestError>::Err(
                LavalinkRestError::NothingReturned,
            ),
        },
{
    match body {
        Some(b) => Ok(b),
        None => Err(LavalinkRestError::NothingReturned),
    }
}

/// Classifies a raw response: a status outside the 2xx range is
/// `ResponseReceivedNotOk`, an empty body is absent, anything else is the
/// body to decode.
pub fn handle_response(status: u16, body: String) -> (r: Result<
    Option<String>,
    LavalinkRestError,
>)
    ensures
        !(200 <= status < 300) ==> r == Result::<Option<String>, LavalinkRestError>::Err(
            LavalinkRestError::ResponseReceivedNotOk(status),
        ),
        200 <= status < 300 && body@.len() == 0 ==> r == Result::<
            Option<String>,
            LavalinkRestError,
        >::Ok(None),
        200 <= status < 300 && body@.len() > 0 ==> r == Result::<
            Option<String>,
            LavalinkRestError,
        >::Ok(Some(body)),
{
    if status < 200 || status >= 300 {
        return Err(LavalinkRestError::ResponseReceivedNotOk(status));
    }
    if body.as_str().unicode_len() == 0 {
        return Ok(None);
    }
    Ok(Some(body))
}

} // verus!
