//! The session client: which requests to send to the service, and what to make
//! of what the transport reports back. The transport itself runs outside the
//! library and hands each outcome to these functions.

use vstd::prelude::*;
use vstd::string::*;

use crate::device::{decode_inventory, inventory_decodable, inventory_decodes_to, Device};
use crate::error::ClientError;
use crate::identity::{is_login_json, User};
use crate::json::JsonValue;

verus! {

/// The HTTP method of a request.
#[derive(Debug, Clone, Copy, PartialEq, Eq)]
pub enum Method {
    Get,
    Post,
}

/// A request for the transport to send: method, full URL and optional JSON body.
#[derive(Debug)]
pub struct Request {
    pub method: Method,
    pub url: String,
    pub body: Option<JsonValue>,
}

/// Where a client stands in its session.
#[derive(Debug, Clone, Copy, PartialEq, Eq)]
pub enum Session {
    /// Built; no login has completed yet.
    Created,
    /// A login request went through; the transport holds the session cookie.
    Authenticated,
}

/// What the transport reports for an inventory request.
#[derive(Debug)]
pub enum Reply {
    /// The request did not complete.
    Unreachable(String),
    /// A body came back but is not valid JSON.
    Malformed(String),
    /// A body came back and parsed as this JSON value.
    Body(JsonValue),
}

/// The path of the inventory endpoint. The query parameter's name is spelled
/// as the service expects it.
pub open spec fn inventory_path_of(provisioned: bool) -> Seq<char> {
    if provisioned {
        "/inventory/devices"@ + "?provisoined=true"@
    } else {
        "/inventory/devices"@
    }
}

/// A client of one service, holding its base URL and the identity to log in with.
#[derive(Debug)]
pub struct Client {
    pub base_url: String,
    pub user: User,
    pub session: Session,
    /// Whether the transport accepts server certificates that fail validation.
    pub accept_invalid_certs: bool,
}

impl Client {
    /// A client for the service at `base_url`, not yet logged in. Invalid
    /// certificates are accepted, since the service commonly runs self-signed.
    pub fn new(base_url: &str, user: User) -> (c: Client)
        ensures
            c.base_url@ == base_url@,
            c.user == user,
            c.session == Session::Created,
            c.accept_invalid_certs,
    {
        Client {
            base_url: String::from_str(base_url),
            user,
            session: Session::Created,
            accept_invalid_certs: true,
        }
    }

    /// Turns certificate validation off (`true`) or on (`false`).
    pub fn set_accept_invalid_certs(&mut self, accept: bool)
        ensures
            final(self).accept_invalid_certs == accept,
            final(self).base_url == old(self).base_url,
            final(self).user == old(self).user,
            final(self).session == old(self).session,
    {
        self.accept_invalid_certs = accept;
    }

    /// Whether a login has completed.
    pub fn is_authenticated(&self) -> (r: bool)
        ensures
            r == (self.session == Session::Authenticated),
    {
        match self.session {
            Session::Authenticated => true,
            Session::Created => false,
        }
    }

    /// The login request: a POST of the identity to `/login/authenticate.do`.
    pub fn login_request(&self) -> (r: Request)
        ensures
            r.method == Method::Post,
            r.url@ == self.base_url@ + "/login/authenticate.do"@,
            match r.body {
                Some(b) => is_login_json(b, self.user.username@, self.user.password@),
                None => false,
            },
    {
        let mut url = self.base_url.clone();
        url.append("/login/authenticate.do");
        Request { method: Method::Post, url, body: Some(self.user.to_json()) }
    }

    /// Completes a login, given whether the transport delivered the login
    /// request. The response's status and body are not consulted; a transport
    /// failure is returned as it is, and no second attempt is made.
    pub fn authenticate(self, sent: Result<(), String>) -> (r: Result<Client, ClientError>)
        ensures
            match sent {
                Ok(()) => r matches Ok(c) && c.base_url == self.base_url && c.user == self.user
                    && c.accept_invalid_certs == self.accept_invalid_certs
                    && c.session == Session::Authenticated,
                Err(m) => r == Err::<Client, ClientError>(ClientError::Transport(m)),
            },
    {
        match sent {
            Ok(()) => Ok(Client { session: Session::Authenticated, ..self }),
            Err(m) => Err(ClientError::Transport(m)),
        }
    }

    /// A GET of `svc_url`, a path under the base URL.
    pub fn get(&self, svc_url: &str) -> (r: Request)
        ensures
            r.method == Method::Get,
            r.url@ == self.base_url@ + svc_url@,
            r.body is None,
    {
        let mut url = self.base_url.clone();
        url.append(svc_url);
        Request { method: Method::Get, url, body: None }
    }

    /// The inventory path, with the provisioned-only query when asked for.
    pub fn inventory_path(provisioned: bool) -> (r: String)
        ensures
            r@ == inventory_path_of(provisioned),
    {
        let mut path = String::from_str("/inventory/devices");
        if provisioned {
            path.append("?provisoined=true");
        }
        path
    }

    /// The request for the device inventory.
    pub fn inventory_request(&self, provisioned: bool) -> (r: Request)
        ensures
            r.method == Method::Get,
            r.url@ == self.base_url@ + inventory_path_of(provisioned),
            r.body is None,
    {
        let path = Client::inventory_path(provisioned);
        self.get(path.as_str())
    }

    /// Completes an inventory fetch, given what the transport reported for
    /// the inventory request.
    pub fn get_inventory(&self, reply: Reply) -> (r: Result<Vec<Device>, ClientError>)
        ensures
            match reply {
                Reply::Unreachable(m) => r == Err::<Vec<Device>, ClientError>(ClientError::Transport(m)),
                Reply::Malformed(m) => r == Err::<Vec<Device>, ClientError>(ClientError::Decode(m)),
                Reply::Body(v) => match r {
                    Ok(ds) => inventory_decodes_to(v, ds@),
                    Err(e) => e is Decode && !inventory_decodable(v),
                },
            },
    {
        match reply {
            Reply::Unreachable(m) => Err(ClientError::Transport(m)),
            Reply::Malformed(m) => Err(ClientError::Decode(m)),
            Reply::Body(v) => decode_inventory(&v),
        }
    }
}

} // verus!
