//! Typed client for the JSON-over-HTTP API of a Misskey server.
//!
//! The crate frames requests, cuts responses out of the bytes a server sends,
//! and decides what a response means. It performs no input or output: the
//! owner of the connection writes what the client frames and feeds what it
//! reads.

use crate::authority::{host_len, valid_authority, Authority};
use crate::errors::MisskeyConnectionError;
use vstd::prelude::*;
use vstd::string::*;
use vstd::utf8::encode_utf8;

pub mod authority;
pub mod common;
pub mod connection;
pub mod errors;
pub mod http;
pub mod miauth;
pub mod requests;
pub mod responses;
pub mod text;
pub mod traits;
pub mod unique;

verus! {

/// What a client is, apart from how it is stored.
pub struct ClientModel<T> {
    /// The access token, where the client is logged in.
    pub token: Option<Seq<char>>,
    /// The authority of the server.
    pub authority: Seq<char>,
    /// The connection to the server.
    pub stream: T,
}

impl<T> ClientModel<T> {
    /// The same client holding `token`.
    pub open spec fn login(self, token: Seq<char>) -> Self {
        ClientModel { token: Some(token), ..self }
    }

    /// The same client holding no token.
    pub open spec fn logout(self) -> Self {
        ClientModel { token: None, ..self }
    }

    /// The host to which the requests of the client are addressed: the
    /// authority without its port.
    pub open spec fn host(self) -> Seq<u8> {
        encode_utf8(self.authority).take(host_len(encode_utf8(self.authority)))
    }
}

/// A client of one server over one connection.
pub struct MisskeyHttpClient<T> {
    access_token: Option<String>,
    authority: Authority,
    stream: T,
}

impl<T> View for MisskeyHttpClient<T> {
    type V = ClientModel<T>;

    closed spec fn view(&self) -> ClientModel<T> {
        ClientModel {
            token: match self.access_token {
                Some(t) => Some(t@),
                None => None,
            },
            authority: self.authority@,
            stream: self.stream,
        }
    }
}

impl<T> MisskeyHttpClient<T> {
    /// An anonymous client of the server at `authority`, which is a host
    /// with or without a port. Fails where `authority` is malformed.
    pub fn new(stream: T, authority: &str) -> (res: Result<Self, MisskeyConnectionError>)
        ensures
            match res {
                Ok(client) => valid_authority(authority.spec_bytes()) && client@ == (ClientModel {
                    token: None,
                    authority: authority@,
                    stream,
                }),
                Err(e) => e is InvalidAuthorityError && !valid_authority(authority.spec_bytes()),
            },
    {
        match Authority::parse(authority) {
            Ok(a) => Ok(Self::internal_new(stream, a, None)),
            Err(e) => Err(e),
        }
    }

    /// The same client, logged in with `access_token`.
    pub fn login(self, access_token: &str) -> (res: Self)
        ensures
            res@ == self@.login(access_token@),
    {
        Self::internal_new(self.stream, self.authority, Some(access_token.to_owned()))
    }

    /// The same client, anonymous.
    pub fn logout(self) -> (res: Self)
        ensures
            res@ == self@.logout(),
    {
        Self::internal_new(self.stream, self.authority, None)
    }

    /// A client made of its three parts.
    pub fn internal_new(stream: T, authority: Authority, access_token: Option<String>) -> (res:
        Self)
        ensures
            res@ == (ClientModel {
                token: crate::traits::opt_string_text(access_token),
                authority: authority@,
                stream,
            }),
    {
        MisskeyHttpClient { access_token, authority, stream }
    }

    /// Tells whether the client holds an access token.
    pub fn is_logged_in(&self) -> (res: bool)
        ensures
            res == self@.token.is_some(),
    {
        self.access_token.is_some()
    }

    /// The access token, where the client is logged in.
    pub fn access_token(&self) -> (res: Option<&str>)
        ensures
            crate::traits::opt_text(res) == self@.token,
    {
        match &self.access_token {
            Some(token) => Some(token.as_str()),
            None => None,
        }
    }

    /// The authority of the server.
    pub fn authority(&self) -> (res: &Authority)
        ensures
            res@ == self@.authority,
    {
        &self.authority
    }

    /// The connection, for whoever performs the reads and writes.
    pub fn stream_mut(&mut self) -> (res: &mut T)
        ensures
            *res == old(self)@.stream,
            final(self)@ == (ClientModel { stream: *final(res), ..old(self)@ }),
    {
        &mut self.stream
    }

    /// Gives the connection back.
    pub fn into_stream(self) -> (res: T)
        ensures
            res == self@.stream,
    {
        self.stream
    }
}

/// Logging in and out again leaves an anonymous client as it was, and any
/// client as if it had logged out at once.
pub proof fn lemma_login_then_logout<T>(client: ClientModel<T>, token: Seq<char>)
    ensures
        client.login(token).logout() == client.logout(),
        client.token is None ==> client.login(token).logout() == client,
{
}

/// One value, or several of them.
#[derive(Debug)]
pub enum MaybeMultiple<T> {
    Single(T),
    Multiple(Vec<T>),
}

} // verus!
