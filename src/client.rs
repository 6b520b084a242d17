use vstd::prelude::*;
use vstd::string::*;

use crate::interceptor::{authorization_for, token_view, Interceptor};

verus! {

/// Largest response accepted when the caller sets none: 4 MiB, the transport's
/// own default ceiling.
pub const DEFAULT_MAX_RECV_MESSAGE_SIZE: usize = 4 * 1024 * 1024;

#[verifier::external_type_specification]
#[verifier::external_body]
pub struct ExChannel(tonic::transport::Channel);

/// An endpoint URI split into the parts that decide how to reach it.
#[derive(Clone, Debug, PartialEq, Eq)]
pub struct EndpointUri {
    /// The whole URI.
    pub text: String,
    /// The scheme, if the URI has one (`http` for the standard HTTP scheme).
    pub scheme: Option<String>,
    /// The path component.
    pub path: String,
}

pub struct EndpointView {
    pub text: Seq<char>,
    pub scheme: Option<Seq<char>>,
    pub path: Seq<char>,
}

impl View for EndpointUri {
    type V = EndpointView;

    open spec fn view(&self) -> EndpointView {
        EndpointView { text: self.text@, scheme: token_view(self.scheme), path: self.path@ }
    }
}

impl EndpointUri {
    /// The empty URI `/`: no scheme, path `/`.
    pub fn root() -> (r: EndpointUri)
        ensures
            r@ == (EndpointView { text: "/"@, scheme: None, path: "/"@ }),
    {
        EndpointUri { text: String::from_str("/"), scheme: None, path: String::from_str("/") }
    }
}

/// Whether a scheme names the network transport: `http` or `https`.
pub open spec fn is_network_scheme(scheme: Option<Seq<char>>) -> bool {
    scheme == Some("http"@) || scheme == Some("https"@)
}

/// The URI through which a local socket at `path` is reached; its authority is
/// ignored by the connector, which dials the path.
pub open spec fn local_socket_uri(path: Seq<char>) -> Seq<char> {
    "file://[::]/"@ + path
}

/// How the server is reached.
pub enum Transport {
    /// Over the network, at this endpoint.
    Http { endpoint: String },
    /// Through the local socket at `socket_path`, dialled through `connect_uri`.
    LocalSocket { socket_path: String, connect_uri: String },
}

/// The transport chosen for an endpoint: the network for the `http` and `https`
/// schemes, the local socket named by the path for any other scheme or none.
pub open spec fn transport_matches(t: Transport, e: EndpointView) -> bool {
    match t {
        Transport::Http { endpoint } => is_network_scheme(e.scheme) && endpoint@ == e.text,
        Transport::LocalSocket { socket_path, connect_uri } => !is_network_scheme(e.scheme)
            && socket_path@ == e.path && connect_uri@ == local_socket_uri(e.path),
    }
}

/// Everything needed to open the connection and wrap it into a `Client`.
pub struct ConnectionPlan {
    pub transport: Transport,
    pub interceptor: Interceptor,
    pub max_decoding_message_size: usize,
}

/// Settings gathered before connecting.
pub struct ClientBuilder {
    grpc_endpoint: EndpointUri,
    access_token: Option<String>,
    max_decoding_message_size: usize,
}

pub struct ClientBuilderView {
    pub grpc_endpoint: EndpointView,
    pub access_token: Option<Seq<char>>,
    pub max_decoding_message_size: usize,
}

impl View for ClientBuilder {
    type V = ClientBuilderView;

    closed spec fn view(&self) -> ClientBuilderView {
        ClientBuilderView {
            grpc_endpoint: self.grpc_endpoint@,
            access_token: token_view(self.access_token),
            max_decoding_message_size: self.max_decoding_message_size,
        }
    }
}

fn is_network(scheme: &Option<String>) -> (r: bool)
    ensures
        r == is_network_scheme(token_view(*scheme)),
{
    match scheme {
        Some(s) => {
            let http = String::from_str("http");
            let https = String::from_str("https");
            *s == http || *s == https
        },
        None => false,
    }
}

impl ClientBuilder {
    /// Sets the server endpoint.
    pub fn grpc_endpoint(self, grpc_endpoint: EndpointUri) -> (r: ClientBuilder)
        ensures
            r@ == (ClientBuilderView { grpc_endpoint: grpc_endpoint@, ..self@ }),
    {
        ClientBuilder { grpc_endpoint, ..self }
    }

    /// Sets the access token; `None` keeps the one set before.
    pub fn access_token(self, access_token: Option<String>) -> (r: ClientBuilder)
        ensures
            r@ == (ClientBuilderView {
                access_token: if access_token.is_some() {
                    token_view(access_token)
                } else {
                    self@.access_token
                },
                ..self@
            }),
    {
        match access_token {
            Some(token) => ClientBuilder { access_token: Some(token), ..self },
            None => self,
        }
    }

    /// Sets the largest response accepted, in bytes.
    pub fn max_decoding_message_size(self, max_decoding_message_size: usize) -> (r:
        ClientBuilder)
        ensures
            r@ == (ClientBuilderView { max_decoding_message_size, ..self@ }),
    {
        ClientBuilder { max_decoding_message_size, ..self }
    }

    /// Chooses the transport for the endpoint and makes the per-call hook from
    /// the token. Connecting is left to the caller.
    pub fn connection_plan(self) -> (r: ConnectionPlan)
        ensures
            transport_matches(r.transport, self@.grpc_endpoint),
            r.interceptor@ == authorization_for(self@.access_token),
            r.max_decoding_message_size == self@.max_decoding_message_size,
    {
        let ClientBuilder { grpc_endpoint, access_token, max_decoding_message_size } = self;
        let transport = if is_network(&grpc_endpoint.scheme) {
            Transport::Http { endpoint: grpc_endpoint.text }
        } else {
            let connect_uri = String::from_str("file://[::]/").concat(grpc_endpoint.path.as_str());
            Transport::LocalSocket { socket_path: grpc_endpoint.path, connect_uri }
        };
        let interceptor = Interceptor::new(access_token);
        ConnectionPlan { transport, interceptor, max_decoding_message_size }
    }
}

/// Relies on tonic's derived `Clone` for `Channel`: the copy shares the
/// underlying connection. Nothing is stated of the result.
pub assume_specification[ <tonic::transport::Channel as Clone>::clone ](
    c: &tonic::transport::Channel,
) -> tonic::transport::Channel;

/// A connection to the server, with the hook applied to each call and the
/// response size limit. Clones share the connection.
#[derive(Debug)]
pub struct Client {
    channel: tonic::transport::Channel,
    interceptor: Interceptor,
    max_decoding_message_size: usize,
}

impl Client {
    /// A builder with no scheme, no token and the default size limit.
    pub fn builder() -> (r: ClientBuilder)
        ensures
            r@ == (ClientBuilderView {
                grpc_endpoint: EndpointView { text: "/"@, scheme: None, path: "/"@ },
                access_token: None,
                max_decoding_message_size: DEFAULT_MAX_RECV_MESSAGE_SIZE,
            }),
    {
        ClientBuilder {
            grpc_endpoint: EndpointUri::root(),
            access_token: None,
            max_decoding_message_size: DEFAULT_MAX_RECV_MESSAGE_SIZE,
        }
    }

    /// Wraps an open channel with the per-call hook and the response size limit.
    pub fn new(
        channel: tonic::transport::Channel,
        interceptor: Interceptor,
        max_decoding_message_size: usize,
    ) -> (r: Client)
        ensures
            r.channel_spec() == channel,
            r.interceptor()@ == interceptor@,
            r.max_decoding_message_size_spec() == max_decoding_message_size,
    {
        Client { channel, interceptor, max_decoding_message_size }
    }

    pub closed spec fn channel_spec(&self) -> tonic::transport::Channel {
        self.channel
    }

    pub closed spec fn interceptor(&self) -> Interceptor {
        self.interceptor
    }

    pub closed spec fn max_decoding_message_size_spec(&self) -> usize {
        self.max_decoding_message_size
    }

    pub fn channel(&self) -> (r: &tonic::transport::Channel)
        ensures
            *r == self.channel_spec(),
    {
        &self.channel
    }

    pub fn authorization_interceptor(&self) -> (r: &Interceptor)
        ensures
            *r == self.interceptor(),
    {
        &self.interceptor
    }

    pub fn max_decoding_message_size(&self) -> (r: usize)
        ensures
            r == self.max_decoding_message_size_spec(),
    {
        self.max_decoding_message_size
    }
}

impl Clone for Client {
    /// A client on the same connection, with the same hook and size limit.
    fn clone(&self) -> (r: Client)
        ensures
            r.interceptor()@ == self.interceptor()@,
            r.max_decoding_message_size_spec() == self.max_decoding_message_size_spec(),
    {
        Client {
            channel: self.channel.clone(),
            interceptor: self.interceptor.clone(),
            max_decoding_message_size: self.max_decoding_message_size,
        }
    }
}

} // verus!
