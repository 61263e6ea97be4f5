//! The core of the authenticated client, free of I/O.
//!
//! Setting up a client alternates decisions and network work. The decisions
//! live here: [`ClientConfig::endpoint`] refuses a faulty configuration and
//! says where and how to connect, the caller connects, and [`Client::new`]
//! takes the outcome and finishes the setup. A faulty configuration is thus
//! reported before any connection is attempted. Each operation of a
//! [`Client`] then describes the one call to issue.

use crate::auth::{bearer, header_text, lemma_control_character_refused, AuthHeaderInterceptor};
use crate::block::IntoText;
use crate::error::{ClientError, ConfigError};
use crate::message::{optional_node_model, wire_node, wire_text, ContentModel, IntoMessage};
use crate::node::{ContentNode, NodeModel};
use http::uri::InvalidUri;
use http::Uri;
use std::collections::HashMap;
use vstd::prelude::*;

verus! {

/// `http::uri::InvalidUri`, the error of a text that is no URI.
#[verifier::external_type_specification]
#[verifier::external_body]
pub struct ExInvalidUri(InvalidUri);

/// `http::Uri`, a parsed URI.
#[verifier::external_type_specification]
#[verifier::external_body]
pub struct ExUri(Uri);

/// What the `FromStr` impl of `http::Uri` makes of a text: the URI, or `None`
/// where it refuses the text.
pub uninterp spec fn parsed_uri(url: Seq<char>) -> Option<Uri>;

/// What `Uri::scheme_str` returns: the scheme of a URI, which may be absent.
pub uninterp spec fn uri_scheme(uri: Uri) -> Option<Seq<char>>;

/// Parses a text as a URI.
///
/// Calls the `FromStr` impl of `http::Uri`. Trusted: the URI is the named one
/// for the text, and the call fails exactly where there is none.
#[verifier::external_body]
fn parse_uri(url: &str) -> (parsed: Result<Uri, InvalidUri>)
    ensures
        match parsed {
            Ok(uri) => parsed_uri(url@) == Some(uri),
            Err(_) => parsed_uri(url@) is None,
        },
{
    url.parse::<Uri>()
}

/// `Uri::scheme_str` returns the scheme of the URI as text, if it has one.
pub assume_specification[ Uri::scheme_str ](uri: &Uri) -> (scheme: Option<&str>)
    ensures
        match scheme {
            Some(name) => uri_scheme(*uri) == Some(name@),
            None => uri_scheme(*uri) is None,
        },
;

/// What the `http` crate makes of a text as a URI: `None` where it refuses
/// the text, and otherwise the scheme of the parsed URI, which may be absent.
pub open spec fn parsed_scheme(url: Seq<char>) -> Option<Option<Seq<char>>> {
    match parsed_uri(url) {
        Some(uri) => Some(uri_scheme(uri)),
        None => None,
    }
}

/// Where to connect and which credential to present.
#[derive(Debug)]
pub struct ClientConfig {
    /// The endpoint, an absolute URI whose scheme selects the transport.
    pub url: String,
    /// The token that is sent as a bearer credential.
    pub token: String,
}

impl Clone for ClientConfig {
    fn clone(&self) -> (copy: ClientConfig)
        ensures
            copy == *self,
    {
        ClientConfig { url: self.url.clone(), token: self.token.clone() }
    }
}

/// How the connection to the endpoint is secured.
#[derive(Clone, Copy, Debug, PartialEq, Eq, Structural)]
pub enum Transport {
    /// TLS with the default security settings.
    Encrypted,
    /// The channel's default path, without TLS.
    Plain,
}

/// The transport for a scheme: encrypted where the scheme is absent or
/// `https`, plain for every other scheme.
pub open spec fn transport_for(scheme: Option<Seq<char>>) -> Transport {
    match scheme {
        None => Transport::Encrypted,
        Some(name) => if name == "https"@ {
            Transport::Encrypted
        } else {
            Transport::Plain
        },
    }
}

/// Selects the transport by the scheme of the endpoint.
pub fn select_transport(scheme: Option<&str>) -> (transport: Transport)
    ensures
        transport == transport_for(
            match scheme {
                Some(name) => Some(name@),
                None => None,
            },
        ),
{
    match scheme {
        None => Transport::Encrypted,
        Some(name) => {
            let given = String::from_str(name);
            let https = String::from_str("https");
            if given == https {
                Transport::Encrypted
            } else {
                Transport::Plain
            }
        },
    }
}

/// The fault of a configuration, if it has one: a malformed endpoint, or
/// else a token that is no legal header value.
pub open spec fn config_fault(url: Seq<char>, token: Seq<char>) -> Option<ConfigError> {
    if parsed_scheme(url) is None {
        Some(ConfigError::MalformedUrl)
    } else if !header_text(token) {
        Some(ConfigError::MalformedToken)
    } else {
        None
    }
}

/// A token that holds a control character other than the tab, or the delete
/// character, makes a configuration faulty: where the endpoint is well
/// formed, the fault is the token's. Both [`ClientConfig::endpoint`], which is
/// asked before any connection is attempted, and [`Client::new`], whatever
/// became of the connection, then fail with that fault.
pub proof fn lemma_control_character_is_config_fault(url: Seq<char>, token: Seq<char>, at: int)
    requires
        0 <= at < token.len(),
        token[at] != '\t',
        (token[at] as u32) < 32 || token[at] as u32 == 127,
    ensures
        config_fault(url, token) is Some,
        parsed_scheme(url) is Some ==> config_fault(url, token) == Some(
            ConfigError::MalformedToken,
        ),
{
    lemma_control_character_refused(token, at);
}

impl ClientConfig {
    /// Parses the endpoint and selects the transport to connect with. The
    /// scheme is inspected here, once, and never again.
    pub fn transport(&self) -> (selected: Result<Transport, ClientError>)
        ensures
            match parsed_scheme(self.url@) {
                Some(scheme) => selected == Ok::<Transport, ClientError>(transport_for(scheme)),
                None => selected == Err::<Transport, ClientError>(
                    ClientError::Config(ConfigError::MalformedUrl),
                ),
            },
    {
        match parse_uri(self.url.as_str()) {
            Ok(uri) => Ok(select_transport(uri.scheme_str())),
            Err(_) => Err(ClientError::Config(ConfigError::MalformedUrl)),
        }
    }

    /// Checks the whole configuration and says where and how to connect.
    ///
    /// This is the step to take before any connection is attempted: a
    /// malformed endpoint is refused first, then a token that is no legal
    /// header value.
    pub fn endpoint(&self) -> (planned: Result<Endpoint, ClientError>)
        ensures
            config_fault(self.url@, self.token@) matches Some(fault) ==> planned == Err::<
                Endpoint,
                ClientError,
            >(ClientError::Config(fault)),
            config_fault(self.url@, self.token@) is None ==> planned is Ok,
            match parsed_uri(self.url@) {
                None => planned == Err::<Endpoint, ClientError>(
                    ClientError::Config(ConfigError::MalformedUrl),
                ),
                Some(uri) => if header_text(self.token@) {
                    planned == Ok::<Endpoint, ClientError>(
                        (Endpoint { uri, transport: transport_for(uri_scheme(uri)) }),
                    )
                } else {
                    planned == Err::<Endpoint, ClientError>(
                        ClientError::Config(ConfigError::MalformedToken),
                    )
                },
            },
    {
        match parse_uri(self.url.as_str()) {
            Ok(uri) => match AuthHeaderInterceptor::bearer(self.token.as_str()) {
                Ok(_) => {
                    let transport = select_transport(uri.scheme_str());
                    Ok(Endpoint { uri, transport })
                },
                Err(fault) => Err(ClientError::Config(fault)),
            },
            Err(_) => Err(ClientError::Config(ConfigError::MalformedUrl)),
        }
    }
}

/// Where and how to connect: the parsed endpoint and the transport that its
/// scheme selects.
#[derive(Debug)]
pub struct Endpoint {
    /// The endpoint as the `http` crate parsed it.
    pub uri: Uri,
    /// The transport to connect with.
    pub transport: Transport,
}

/// The remote operations of a bot.
#[derive(Clone, Copy, Debug, PartialEq, Eq, Structural)]
pub enum Operation {
    SendMessage,
    SendPrivateMessage,
    PerformAction,
    PerformPrivateAction,
}

/// One call to issue: the operation and its parameters.
#[derive(Debug)]
pub struct OutboundCall {
    /// The operation to invoke.
    pub operation: Operation,
    /// The channel, or for the private operations the user, that is addressed.
    pub target_id: String,
    /// The plain text; empty where a content tree is sent.
    pub text: String,
    /// The content tree; absent where plain text is sent.
    pub content_node: Option<ContentNode>,
    /// The tags; an empty mapping where none were given.
    pub tags: HashMap<String, String>,
}

/// Mathematical model of a call.
pub struct CallModel {
    pub operation: Operation,
    pub target_id: Seq<char>,
    pub text: Seq<char>,
    pub content_node: Option<NodeModel>,
    pub tags: Map<String, String>,
}

impl View for OutboundCall {
    type V = CallModel;

    open spec fn view(&self) -> CallModel {
        CallModel {
            operation: self.operation,
            target_id: self.target_id@,
            text: self.text@,
            content_node: optional_node_model(self.content_node),
            tags: self.tags@,
        }
    }
}

/// The tags that are sent: those given, or none at all.
pub open spec fn tags_model(tags: Option<HashMap<String, String>>) -> Map<String, String> {
    match tags {
        Some(given) => given@,
        None => Map::empty(),
    }
}

/// The call that an operation issues for a target, a content and tags.
pub open spec fn call_for(
    operation: Operation,
    target_id: Seq<char>,
    content: ContentModel,
    tags: Option<HashMap<String, String>>,
) -> CallModel {
    CallModel {
        operation,
        target_id,
        text: wire_text(content),
        content_node: wire_node(content),
        tags: tags_model(tags),
    }
}

/// Mathematical model of a client.
pub struct ClientModel {
    /// The endpoint as configured.
    pub url: Seq<char>,
    /// The token as configured.
    pub token: Seq<char>,
    /// The transport that was selected at construction.
    pub transport: Transport,
    /// The value of the authorization entry of every call.
    pub auth_header: Seq<char>,
}

/// A bot's client: the configuration, the transport it was connected with and
/// the credential that every call carries.
#[derive(Debug)]
pub struct Client {
    config: ClientConfig,
    transport: Transport,
    interceptor: AuthHeaderInterceptor,
}

impl View for Client {
    type V = ClientModel;

    closed spec fn view(&self) -> ClientModel {
        ClientModel {
            url: self.config.url@,
            token: self.config.token@,
            transport: self.transport,
            auth_header: self.interceptor.header_model(),
        }
    }
}

/// The client that a configuration gives once the connection stands.
pub open spec fn client_for(url: Seq<char>, token: Seq<char>) -> ClientModel {
    ClientModel {
        url,
        token,
        transport: transport_for(parsed_scheme(url)->Some_0),
        auth_header: bearer(token),
    }
}

impl Client {
    /// Finishes the setup of a client, given how the connection attempt that
    /// [`ClientConfig::endpoint`] planned has ended.
    ///
    /// A fault in the configuration comes first, whatever became of the
    /// connection: a malformed endpoint, then a token that is no legal header
    /// value. Only then does a failed connection count, and its cause is kept.
    pub fn new(config: ClientConfig, connected: Result<(), String>) -> (made: Result<
        Client,
        ClientError,
    >)
        ensures
            config_fault(config.url@, config.token@) matches Some(fault) ==> made == Err::<
                Client,
                ClientError,
            >(ClientError::Config(fault)),
            parsed_scheme(config.url@) is None ==> made == Err::<Client, ClientError>(
                ClientError::Config(ConfigError::MalformedUrl),
            ),
            parsed_scheme(config.url@) is Some && !header_text(config.token@) ==> made == Err::<
                Client,
                ClientError,
            >(ClientError::Config(ConfigError::MalformedToken)),
            parsed_scheme(config.url@) is Some && header_text(config.token@) && connected is Err
                ==> made == Err::<Client, ClientError>(
                ClientError::Connection(connected->Err_0),
            ),
            parsed_scheme(config.url@) is Some && header_text(config.token@) && connected is Ok
                ==> made is Ok && made->Ok_0@ == client_for(config.url@, config.token@),
    {
        let transport = match config.transport() {
            Ok(transport) => transport,
            Err(fault) => {
                return Err(fault);
            },
        };
        let interceptor = match AuthHeaderInterceptor::bearer(config.token.as_str()) {
            Ok(interceptor) => interceptor,
            Err(fault) => {
                return Err(ClientError::Config(fault));
            },
        };
        match connected {
            Ok(()) => Ok(Client { config, transport, interceptor }),
            Err(cause) => Err(ClientError::Connection(cause)),
        }
    }

    /// The configuration that the client was made from.
    pub fn config(&self) -> (config: &ClientConfig)
        ensures
            config.url@ == self@.url,
            config.token@ == self@.token,
    {
        &self.config
    }

    /// The transport that was selected at construction.
    pub fn transport(&self) -> (transport: Transport)
        ensures
            transport == self@.transport,
    {
        self.transport
    }

    /// The holder of the credential, to be bound to the channel, so that
    /// calls made past the operations below carry it too.
    pub fn interceptor(&self) -> (interceptor: &AuthHeaderInterceptor)
        ensures
            interceptor.header_model() == self@.auth_header,
    {
        &self.interceptor
    }

    /// Describes the one call of an operation.
    fn issue<I: IntoText, M: IntoMessage>(
        operation: Operation,
        target_id: I,
        content: M,
        tags: Option<HashMap<String, String>>,
    ) -> (call: OutboundCall)
        ensures
            call@ == call_for(operation, target_id.text_model(), content.message_model(), tags),
    {
        let (text, content_node) = content.into_message().into_wire();
        let tags = match tags {
            Some(given) => given,
            None => HashMap::new(),
        };
        OutboundCall { operation, target_id: target_id.into_text(), text, content_node, tags }
    }

    /// The call that sends a message to a channel.
    pub fn send_message<I: IntoText, M: IntoMessage>(
        &self,
        channel_id: I,
        content: M,
        tags: Option<HashMap<String, String>>,
    ) -> (call: OutboundCall)
        ensures
            call@ == call_for(
                Operation::SendMessage,
                channel_id.text_model(),
                content.message_model(),
                tags,
            ),
    {
        Self::issue(Operation::SendMessage, channel_id, content, tags)
    }

    /// The call that sends a private message to a user.
    pub fn send_private_message<I: IntoText, M: IntoMessage>(
        &self,
        user_id: I,
        content: M,
        tags: Option<HashMap<String, String>>,
    ) -> (call: OutboundCall)
        ensures
            call@ == call_for(
                Operation::SendPrivateMessage,
                user_id.text_model(),
                content.message_model(),
                tags,
            ),
    {
        Self::issue(Operation::SendPrivateMessage, user_id, content, tags)
    }

    /// The call that performs an action in a channel.
    pub fn perform_action<I: IntoText, M: IntoMessage>(
        &self,
        channel_id: I,
        content: M,
        tags: Option<HashMap<String, String>>,
    ) -> (call: OutboundCall)
        ensures
            call@ == call_for(
                Operation::PerformAction,
                channel_id.text_model(),
                content.message_model(),
                tags,
            ),
    {
        Self::issue(Operation::PerformAction, channel_id, content, tags)
    }

    /// The call that performs a private action towards a user.
    pub fn perform_private_action<I: IntoText, M: IntoMessage>(
        &self,
        user_id: I,
        content: M,
        tags: Option<HashMap<String, String>>,
    ) -> (call: OutboundCall)
        ensures
            call@ == call_for(
                Operation::PerformPrivateAction,
                user_id.text_model(),
                content.message_model(),
                tags,
            ),
    {
        Self::issue(Operation::PerformPrivateAction, user_id, content, tags)
    }

    /// The result of an operation, given how its call has ended: success
    /// without a payload, or the failure as it was reported.
    pub fn settle(outcome: Result<(), String>) -> (settled: Result<(), ClientError>)
        ensures
            settled == match outcome {
                Ok(()) => Ok::<(), ClientError>(()),
                Err(cause) => Err::<(), ClientError>(ClientError::Call(cause)),
            },
    {
        match outcome {
            Ok(()) => Ok(()),
            Err(cause) => Err(ClientError::Call(cause)),
        }
    }
}

} // verus!
