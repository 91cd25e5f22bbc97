//! Connection settings and the URLs derived from them.

use crate::text::{i32_text, signed_decimal};
use vstd::prelude::*;
use vstd::string::*;

verus! {

/// How the client identifies itself on HTTP calls.
#[derive(Debug, PartialEq)]
pub enum Authentication {
    Anonymous,
    Basic { user: String, password: Option<String> },
    Bearer { token: String },
}

/// The mathematical value of an [`Authentication`].
pub enum AuthenticationView {
    Anonymous,
    Basic { user: Seq<char>, password: Option<Seq<char>> },
    Bearer { token: Seq<char> },
}

impl View for Authentication {
    type V = AuthenticationView;

    open spec fn view(&self) -> AuthenticationView {
        match self {
            Authentication::Anonymous => AuthenticationView::Anonymous,
            Authentication::Basic { user, password } => AuthenticationView::Basic {
                user: user@,
                password: match password {
                    Some(p) => Some(p@),
                    None => None,
                },
            },
            Authentication::Bearer { token } => AuthenticationView::Bearer { token: token@ },
        }
    }
}

/// The settings of a connection, accumulated by the builder methods.
pub struct ConnectionConfiguration {
    secure: bool,
    domain: String,
    hub: String,
    port: Option<i32>,
    authentication: Authentication,
    query_params: Vec<(String, String)>,
}

/// The mathematical value of a [`ConnectionConfiguration`].
pub struct ConfigurationView {
    pub secure: bool,
    pub domain: Seq<char>,
    pub hub: Seq<char>,
    pub port: Option<int>,
    pub authentication: AuthenticationView,
    pub query_params: Seq<(Seq<char>, Seq<char>)>,
}

/// The query parameters of a configuration as pairs of texts.
pub open spec fn params_view(params: Seq<(String, String)>) -> Seq<(Seq<char>, Seq<char>)> {
    Seq::new(params.len(), |i: int| (params[i].0@, params[i].1@))
}

/// `k=v` pairs joined by `&`, in order.
pub open spec fn query_text(params: Seq<(Seq<char>, Seq<char>)>) -> Seq<char>
    decreases params.len(),
{
    if params.len() == 0 {
        Seq::empty()
    } else if params.len() == 1 {
        params[0].0 + "="@ + params[0].1
    } else {
        query_text(params.drop_last()) + "&"@ + params.last().0 + "="@ + params.last().1
    }
}

impl ConfigurationView {
    /// `https` or `http`.
    pub open spec fn http_schema(self) -> Seq<char> {
        if self.secure {
            "https"@
        } else {
            "http"@
        }
    }

    /// `wss` or `ws`.
    pub open spec fn socket_schema(self) -> Seq<char> {
        if self.secure {
            "wss"@
        } else {
            "ws"@
        }
    }

    /// The domain, followed by `:` and the port where one is set.
    pub open spec fn authority(self) -> Seq<char> {
        match self.port {
            Some(port) => self.domain + ":"@ + signed_decimal(port),
            None => self.domain,
        }
    }

    /// Everything of a URL behind its scheme: `://<domain>[:port]/<hub>[?k=v&...]`.
    pub open spec fn locator(self) -> Seq<char> {
        let base = "://"@ + self.authority() + "/"@ + self.hub;
        if self.query_params.len() == 0 {
            base
        } else {
            base + "?"@ + query_text(self.query_params)
        }
    }

    /// `<http|https>://<domain>[:port]/<hub>[?k=v&...]`.
    pub open spec fn web_url(self) -> Seq<char> {
        self.http_schema() + self.locator()
    }

    /// `<ws|wss>://<domain>[:port]/<hub>[?k=v&...]`.
    pub open spec fn socket_url(self) -> Seq<char> {
        self.socket_schema() + self.locator()
    }

    /// The web URL followed by `/negotiate` without query parameters, by
    /// `&negotiate` with them.
    pub open spec fn negotiate_url(self) -> Seq<char> {
        if self.query_params.len() == 0 {
            self.web_url() + "/negotiate"@
        } else {
            self.web_url() + "&negotiate"@
        }
    }
}

impl ConnectionConfiguration {
    /// The settings that [`ConnectionConfiguration::new`] starts from.
    pub open spec fn fresh(domain: Seq<char>, hub: Seq<char>) -> ConfigurationView {
        ConfigurationView {
            secure: true,
            domain,
            hub,
            port: None,
            authentication: AuthenticationView::Anonymous,
            query_params: Seq::empty(),
        }
    }
}

impl View for ConnectionConfiguration {
    type V = ConfigurationView;

    closed spec fn view(&self) -> ConfigurationView {
        ConfigurationView {
            secure: self.secure,
            domain: self.domain@,
            hub: self.hub@,
            port: match self.port {
                Some(p) => Some(p as int),
                None => None,
            },
            authentication: self.authentication@,
            query_params: params_view(self.query_params@),
        }
    }
}

impl ConnectionConfiguration {
    /// A secure connection to `hub` on `domain`, with the default port, no
    /// authentication and no query parameters.
    pub fn new(domain: String, hub: String) -> (config: Self)
        ensures
            config@ == (ConfigurationView {
                secure: true,
                domain: domain@,
                hub: hub@,
                port: None,
                authentication: AuthenticationView::Anonymous,
                query_params: Seq::empty(),
            }),
    {
        let config = ConnectionConfiguration {
            authentication: Authentication::Anonymous,
            domain,
            secure: true,
            hub,
            port: None,
            query_params: Vec::new(),
        };
        assert(params_view(config.query_params@) =~= Seq::empty());
        config
    }

    /// Sets the TCP port.
    pub fn with_port(&mut self, port: i32) -> (config: &ConnectionConfiguration)
        ensures
            final(self)@ == (ConfigurationView { port: Some(port as int), ..old(self)@ }),
            config@ == final(self)@,
    {
        self.port = Some(port);
        self
    }

    /// Replaces the hub path segment.
    pub fn with_hub(&mut self, hub: String) -> (config: &ConnectionConfiguration)
        ensures
            config@ == final(self)@,
            final(self)@ == (ConfigurationView { hub: hub@, ..old(self)@ }),
    {
        self.hub = hub;
        self
    }

    /// Chooses the secure schemes (`https`, `wss`).
    pub fn secure(&mut self) -> (config: &ConnectionConfiguration)
        ensures
            config@ == final(self)@,
            final(self)@ == (ConfigurationView { secure: true, ..old(self)@ }),
    {
        self.secure = true;
        self
    }

    /// Chooses the plain schemes (`http`, `ws`).
    pub fn unsecure(&mut self) -> (config: &ConnectionConfiguration)
        ensures
            config@ == final(self)@,
            final(self)@ == (ConfigurationView { secure: false, ..old(self)@ }),
    {
        self.secure = false;
        self
    }

    /// Sets Basic credentials.
    pub fn authenticate_basic(&mut self, user: String, password: Option<String>) -> (config: &ConnectionConfiguration)
        ensures
            config@ == final(self)@,
            final(self)@ == (ConfigurationView {
                authentication: (Authentication::Basic { user, password })@,
                ..old(self)@
            }),
    {
        self.authentication = Authentication::Basic { user, password };
        self
    }

    /// Sets a Bearer token.
    pub fn authenticate_bearer(&mut self, token: String) -> (config: &ConnectionConfiguration)
        ensures
            config@ == final(self)@,
            final(self)@ == (ConfigurationView {
                authentication: AuthenticationView::Bearer { token: token@ },
                ..old(self)@
            }),
    {
        self.authentication = Authentication::Bearer { token };
        self
    }

    /// Appends the query parameter `key=value`.
    pub fn with_query_param(&mut self, key: String, value: String) -> (config: &ConnectionConfiguration)
        ensures
            config@ == final(self)@,
            final(self)@ == (ConfigurationView {
                query_params: old(self)@.query_params.push((key@, value@)),
                ..old(self)@
            }),
    {
        self.query_params.push((key, value));
        assert(params_view(self.query_params@) =~= params_view(old(self).query_params@).push(
            (key@, value@),
        ));
        self
    }

    /// Appends the query parameter `access_token=<token>`.
    pub fn with_access_token(&mut self, token: String) -> (config: &ConnectionConfiguration)
        ensures
            config@ == final(self)@,
            final(self)@ == (ConfigurationView {
                query_params: old(self)@.query_params.push(("access_token"@, token@)),
                ..old(self)@
            }),
    {
        self.with_query_param(String::from_str("access_token"), token)
    }

    /// The authentication mode.
    pub fn get_authentication(&self) -> (authentication: Authentication)
        ensures
            authentication@ == self@.authentication,
    {
        match &self.authentication {
            Authentication::Anonymous => Authentication::Anonymous,
            Authentication::Basic { user, password } => Authentication::Basic {
                user: user.clone(),
                password: match password {
                    Some(p) => Some(p.clone()),
                    None => None,
                },
            },
            Authentication::Bearer { token } => Authentication::Bearer { token: token.clone() },
        }
    }

    /// `https` for a secure connection, `http` otherwise.
    pub fn get_http_schema(&self) -> (schema: String)
        ensures
            schema@ == self@.http_schema(),
    {
        if self.secure {
            String::from_str("https")
        } else {
            String::from_str("http")
        }
    }

    /// `wss` for a secure connection, `ws` otherwise.
    pub fn get_socket_schema(&self) -> (schema: String)
        ensures
            schema@ == self@.socket_schema(),
    {
        if self.secure {
            String::from_str("wss")
        } else {
            String::from_str("ws")
        }
    }

    /// The domain, with `:<port>` behind it where a port is set.
    pub fn get_domain(&self) -> (domain: String)
        ensures
            domain@ == self@.authority(),
    {
        match self.port {
            Some(port) => {
                let mut out = self.domain.clone();
                out.append(":");
                let digits = i32_text(port);
                out.append(digits.as_str());
                out
            },
            None => self.domain.clone(),
        }
    }

    fn append_query(&self, out: &mut String)
        ensures
            final(out)@ == old(out)@ + query_text(self@.query_params),
    {
        let ghost start = out@;
        let ghost params = self@.query_params;
        let mut i: usize = 0;
        while i < self.query_params.len()
            invariant
                i <= self.query_params.len(),
                params == params_view(self.query_params@),
                out@ == start + query_text(params.take(i as int)),
            decreases self.query_params.len() - i,
        {
            let ghost before = params.take(i as int);
            let ghost after = params.take(i + 1);
            assert(after.drop_last() =~= before);
            assert(after.last() == (self.query_params[i as int].0@, self.query_params[i as int].1@));
            if i > 0 {
                out.append("&");
            }
            out.append(self.query_params[i].0.as_str());
            out.append("=");
            out.append(self.query_params[i].1.as_str());
            assert(out@ =~= start + query_text(after));
            i += 1;
        }
        assert(params.take(i as int) =~= params);
    }

    fn get_url(&self, schema: String) -> (url: String)
        ensures
            url@ == schema@ + self@.locator(),
    {
        let mut out = schema;
        out.append("://");
        let domain = self.get_domain();
        out.append(domain.as_str());
        out.append("/");
        out.append(self.hub.as_str());
        if self.query_params.len() > 0 {
            out.append("?");
            self.append_query(&mut out);
        }
        assert(out@ =~= schema@ + self@.locator());
        out
    }

    /// The URL of HTTP calls to the hub.
    pub fn get_web_url(&self) -> (url: String)
        ensures
            url@ == self@.web_url(),
    {
        self.get_url(self.get_http_schema())
    }

    /// The URL of the WebSocket to the hub.
    pub fn get_socket_url(&self) -> (url: String)
        ensures
            url@ == self@.socket_url(),
    {
        self.get_url(self.get_socket_schema())
    }

    /// The URL of the negotiate call.
    pub fn get_negotiate_url(&self) -> (url: String)
        ensures
            url@ == self@.negotiate_url(),
    {
        let mut url = self.get_web_url();
        if self.query_params.len() > 0 {
            url.append("&negotiate");
        } else {
            url.append("/negotiate");
        }
        url
    }
}

} // verus!
