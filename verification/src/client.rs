//! The client's side of the router's protocol: which request stands for
//! each step, and what each answer means.
//!
//! The client sends nothing itself. It says what is to be sent, and is told
//! what came back.

use crate::codec::{compute_response, response_text};
use crate::json::{json_document, string_at, text_at};
use crate::session::{
    AuthError, ClientError, Config, ConfigView, LoginError, Session, SessionView,
};
use crate::text::{joined, same_text};
use crate::wire::{pair, pairs_view, request_view, Method, Request, RequestView};
use vstd::prelude::*;
use vstd::string::*;

verus! {

/// Credentials and the session they were last logged in with.
pub struct FritzClient {
    config: Config,
    session: Session,
}

pub ghost struct ClientView {
    pub config: ConfigView,
    pub session: SessionView,
}

impl View for FritzClient {
    type V = ClientView;

    closed spec fn view(&self) -> ClientView {
        ClientView { config: self.config@, session: self.session@ }
    }
}

/// The URL of a path on the router.
pub open spec fn url_of(config: ConfigView, path: Seq<char>) -> Seq<char> {
    config.base_url + path
}

/// The request that asks for a challenge.
pub open spec fn challenge_request_view(config: ConfigView) -> RequestView {
    RequestView::Get { url: url_of(config, "/login_sid.lua"@), query: Seq::empty() }
}

/// The request that answers a challenge: the user name and the response
/// token for the challenge and the password.
pub open spec fn login_request_view(config: ConfigView, challenge: Seq<char>) -> RequestView {
    request_view(
        Method::Post,
        url_of(config, "/login_sid.lua"@),
        seq![
            ("username"@, config.username),
            ("response"@, response_text(challenge, config.password)),
        ],
    )
}

/// A request that carries the session id before its own parameters.
pub open spec fn authenticated_view(
    client: ClientView,
    method: Method,
    path: Seq<char>,
    params: Seq<(Seq<char>, Seq<char>)>,
) -> RequestView {
    request_view(method, url_of(client.config, path), seq![("sid"@, client.session.sid)] + params)
}

pub open spec fn overview_request_view(client: ClientView) -> RequestView {
    authenticated_view(client, Method::Post, "/data.lua"@, seq![("page"@, "overview"@)])
}

pub open spec fn devices_request_view(client: ClientView) -> RequestView {
    authenticated_view(
        client,
        Method::Post,
        "/data.lua"@,
        seq![("page"@, "netDev"@), ("xhrId"@, "all"@)],
    )
}

/// The request that asks whether the router may reboot.
pub open spec fn reboot_request_view(client: ClientView) -> RequestView {
    authenticated_view(
        client,
        Method::Post,
        "/data.lua"@,
        seq![("page"@, "reboot"@), ("reboot"@, "0"@)],
    )
}

/// The request that makes the router reboot.
pub open spec fn reboot_confirmation_view(client: ClientView) -> RequestView {
    authenticated_view(client, Method::Post, "/reboot.lua"@, seq![("ajax"@, "1"@)])
}

/// The request that drops or takes up the internet connection.
pub open spec fn monitor_request_view(client: ClientView, action: Seq<char>) -> RequestView {
    authenticated_view(
        client,
        Method::Get,
        "/internet/inetstat_monitor.lua"@,
        seq![("myXhr"@, "1"@), ("action"@, action)],
    )
}

/// What asking for a request under the session comes to: the request for
/// a client that is logged in, `NotLoggedIn` for one that is not.
pub open spec fn under_session(
    client: ClientView,
    wanted: RequestView,
    r: Result<Request, AuthError>,
) -> bool {
    if client.session.valid() {
        r matches Ok(request) && request@ == wanted
    } else {
        r matches Err(e) && e == AuthError::NotLoggedIn
    }
}

/// The router grants a reboot with the string `ok` and with nothing else.
pub open spec fn reboot_granted(status: Option<Seq<char>>) -> bool {
    status == Some("ok"@)
}

/// Whether the answer to the reboot request grants the reboot.
pub fn grants_reboot(status: Option<&str>) -> (granted: bool)
    ensures
        granted == (status matches Some(text) && text@ == "ok"@),
{
    match status {
        Some(text) => same_text(text, "ok"),
        None => false,
    }
}

/// Whether the body of the answer to the reboot request grants the reboot:
/// whether it is a JSON document that holds the string `ok` at
/// `/data/reboot`. Fails exactly when the body is no JSON document.
pub fn reboot_permitted(body: &[u8]) -> (r: Result<bool, ClientError>)
    ensures
        match json_document(body@) {
            Some(strings) => r matches Ok(granted) && granted == reboot_granted(
                string_at(strings, "/data/reboot"@),
            ),
            None => r matches Err(e) && e is Decode,
        },
{
    match text_at(body, "/data/reboot") {
        Err(e) => Err(e),
        Ok(None) => Ok(false),
        Ok(Some(status)) => Ok(grants_reboot(Some(status.as_str()))),
    }
}

impl FritzClient {
    /// A client that has not logged in yet.
    pub fn new_with_config(config: Config) -> (client: Self)
        ensures
            client@.config == config@,
            client@.session == SessionView::empty(),
    {
        FritzClient { config, session: Session::default() }
    }

    pub fn config(&self) -> (config: &Config)
        ensures
            config@ == self@.config,
    {
        &self.config
    }

    pub fn session(&self) -> (session: &Session)
        ensures
            session@ == self@.session,
    {
        &self.session
    }

    /// Whether a login has succeeded.
    pub fn logged_in(&self) -> (r: bool)
        ensures
            r == self@.session.valid(),
    {
        !self.session.is_default_sid()
    }

    fn url(&self, path: &str) -> (url: String)
        ensures
            url@ == url_of(self@.config, path@),
    {
        joined(self.config.base_url.as_str(), path)
    }

    /// The first request of a login: it asks the router for a challenge.
    pub fn challenge_request(&self) -> (request: Request)
        ensures
            request@ == challenge_request_view(self@.config),
    {
        let params: Vec<(String, String)> = Vec::new();
        assert(pairs_view(params@) =~= Seq::empty());
        Request::new(Method::Get, self.url("/login_sid.lua"), params)
    }

    /// The second request of a login: the answer to the router's challenge.
    pub fn login_request(&self, challenge: &Session) -> (request: Request)
        ensures
            request@ == login_request_view(self@.config, challenge@.challenge),
    {
        let response = compute_response(
            challenge.challenge.as_str(),
            self.config.password.as_str(),
        );
        let mut params: Vec<(String, String)> = Vec::new();
        params.push(pair("username", self.config.username.as_str()));
        params.push(pair("response", response.as_str()));
        let ghost wanted = seq![
            ("username"@, self@.config.username),
            ("response"@, response_text(challenge@.challenge, self@.config.password)),
        ];
        assert(pairs_view(params@) =~= wanted);
        Request::new(Method::Post, self.url("/login_sid.lua"), params)
    }

    /// Takes the router's answer to the login request.
    ///
    /// An answer with the sentinel id is a refusal: the login fails and the
    /// client stays as it was. Any other answer becomes the client's
    /// session.
    pub fn complete_login(&mut self, answer: Session) -> (r: Result<(), Box<LoginError>>)
        ensures
            final(self)@.config == old(self)@.config,
            answer@.valid() ==> r is Ok && final(self)@.session == answer@,
            !answer@.valid() ==> r is Err && final(self)@ == old(self)@,
    {
        if answer.is_default_sid() {
            return Err(LoginError::boxed());
        }
        self.session = answer;
        Ok(())
    }

    /// A request under the client's session: the session id, then the given
    /// parameters, sent to `path` by the given method.
    ///
    /// Fails with `NotLoggedIn` exactly when no login has succeeded.
    pub fn authenticated_request(
        &self,
        method: Method,
        path: &str,
        params: Vec<(String, String)>,
    ) -> (r: Result<Request, AuthError>)
        ensures
            under_session(
                self@,
                authenticated_view(self@, method, path@, pairs_view(params@)),
                r,
            ),
    {
        if !self.logged_in() {
            return Err(AuthError::NotLoggedIn);
        }
        let mut all: Vec<(String, String)> = Vec::new();
        all.push(pair("sid", self.session.sid.as_str()));
        let mut params = params;
        let ghost given = pairs_view(params@);
        all.append(&mut params);
        assert(pairs_view(all@) =~= seq![("sid"@, self@.session.sid)] + given);
        Ok(Request::new(method, self.url(path), all))
    }

    /// The request for the overview page.
    pub fn overview_request(&self) -> (r: Result<Request, AuthError>)
        ensures
            under_session(self@, overview_request_view(self@), r),
    {
        let mut params: Vec<(String, String)> = Vec::new();
        params.push(pair("page", "overview"));
        assert(pairs_view(params@) =~= seq![("page"@, "overview"@)]);
        self.authenticated_request(Method::Post, "/data.lua", params)
    }

    /// The request for the list of devices.
    pub fn devices_request(&self) -> (r: Result<Request, AuthError>)
        ensures
            under_session(self@, devices_request_view(self@), r),
    {
        let mut params: Vec<(String, String)> = Vec::new();
        params.push(pair("page", "netDev"));
        params.push(pair("xhrId", "all"));
        assert(pairs_view(params@) =~= seq![("page"@, "netDev"@), ("xhrId"@, "all"@)]);
        self.authenticated_request(Method::Post, "/data.lua", params)
    }

    /// The request that asks the router whether it may reboot.
    pub fn reboot_request(&self) -> (r: Result<Request, AuthError>)
        ensures
            under_session(self@, reboot_request_view(self@), r),
    {
        let mut params: Vec<(String, String)> = Vec::new();
        params.push(pair("page", "reboot"));
        params.push(pair("reboot", "0"));
        assert(pairs_view(params@) =~= seq![("page"@, "reboot"@), ("reboot"@, "0"@)]);
        self.authenticated_request(Method::Post, "/data.lua", params)
    }

    /// The request that makes the router reboot. It is for a router that
    /// has granted the reboot.
    pub fn reboot_confirmation(&self) -> (r: Result<Request, AuthError>)
        ensures
            under_session(self@, reboot_confirmation_view(self@), r),
    {
        let mut params: Vec<(String, String)> = Vec::new();
        params.push(pair("ajax", "1"));
        assert(pairs_view(params@) =~= seq![("ajax"@, "1"@)]);
        self.authenticated_request(Method::Post, "/reboot.lua", params)
    }

    fn monitor_request(&self, action: &str) -> (r: Result<Request, AuthError>)
        ensures
            under_session(self@, monitor_request_view(self@, action@), r),
    {
        let mut params: Vec<(String, String)> = Vec::new();
        params.push(pair("myXhr", "1"));
        params.push(pair("action", action));
        assert(pairs_view(params@) =~= seq![("myXhr"@, "1"@), ("action"@, action@)]);
        self.authenticated_request(Method::Get, "/internet/inetstat_monitor.lua", params)
    }

    /// The request that drops the internet connection.
    pub fn disconnect(&self) -> (r: Result<Request, AuthError>)
        ensures
            under_session(self@, monitor_request_view(self@, "disconnect"@), r),
    {
        self.monitor_request("disconnect")
    }

    /// The request that takes the internet connection up again.
    pub fn connect(&self) -> (r: Result<Request, AuthError>)
        ensures
            under_session(self@, monitor_request_view(self@, "connect"@), r),
    {
        self.monitor_request("connect")
    }
}

} // verus!
