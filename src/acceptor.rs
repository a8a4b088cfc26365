use crate::greeting::ConnectionClassification;
use crate::identity::KeyFormat;
use crate::tls::TlsServerConfiguration;
use rustls::ServerConfig;
use std::sync::Arc;
use vstd::prelude::*;

verus! {

/// The two configurations of issuance-aware mode: one for application
/// traffic, whose certificate comes from a resolver kept current by the
/// issuance collaborator, and one that only answers validation handshakes.
pub struct IssuanceAcceptor {
    application: TlsServerConfiguration,
    validation: Arc<ServerConfig>,
}

impl IssuanceAcceptor {
    pub closed spec fn application_config(&self) -> Arc<ServerConfig> {
        self.application.rustls()
    }

    pub closed spec fn validation_config(&self) -> Arc<ServerConfig> {
        self.validation
    }

    /// The ALPN protocols of the application configuration.
    pub closed spec fn application_alpn(&self) -> Seq<Seq<u8>> {
        self.application.alpn()
    }

    /// The chain and key the application configuration presents (`None`
    /// for a resolver).
    pub closed spec fn application_presents(&self) -> Option<(Seq<Seq<u8>>, (KeyFormat, Seq<u8>))> {
        self.application.presents()
    }

    /// Whether the application configuration asks clients for a certificate.
    pub closed spec fn application_asks_client_certificate(&self) -> bool {
        self.application.asks_client_certificate()
    }

    pub fn new(application: TlsServerConfiguration, validation: Arc<ServerConfig>) -> (r:
        IssuanceAcceptor)
        ensures
            r.application_config() == application.rustls(),
            r.application_alpn() == application.alpn(),
            r.application_presents() == application.presents(),
            r.application_asks_client_certificate() == application.asks_client_certificate(),
            r.validation_config() == validation,
    {
        IssuanceAcceptor { application, validation }
    }

    /// The configuration that completes the handshake of a connection of the
    /// given classification: each is used for its own purpose only.
    pub fn config_for(&self, class: ConnectionClassification) -> (r: Arc<ServerConfig>)
        ensures
            class == ConnectionClassification::ValidationProbe ==> r == self.validation_config(),
            class == ConnectionClassification::ApplicationTraffic ==> r
                == self.application_config(),
    {
        match class {
            ConnectionClassification::ValidationProbe => self.validation.clone(),
            ConnectionClassification::ApplicationTraffic => self.application.rustls_config(),
        }
    }
}

/// Where a connection of issuance-aware mode stands.
#[derive(Debug, Clone, Copy, PartialEq, Eq, Structural)]
pub enum ConnectionState {
    /// The raw connection is open; its greeting has not been read.
    Accepted,
    /// The handshake runs with the validation configuration.
    ValidationHandshake,
    /// The handshake runs with the application configuration.
    ApplicationHandshake,
    /// The HTTP session runs over the secured transport.
    Serving,
    Closed,
    Failed,
}

/// What happened to a connection since the last step.
#[derive(Debug, Clone, Copy, PartialEq, Eq, Structural)]
pub enum ConnectionEvent {
    /// The greeting was read and classified.
    Greeting(ConnectionClassification),
    /// The greeting could not be read.
    GreetingFailed,
    HandshakeDone,
    HandshakeFailed,
    /// The HTTP session ended, normally or not.
    SessionEnded,
}

/// What the connection's task does next.
#[derive(Debug, Clone, Copy, PartialEq, Eq, Structural)]
pub enum ConnectionAction {
    /// Complete the handshake with the configuration for this classification.
    Handshake(ConnectionClassification),
    /// Close the secured transport gracefully, with no application data.
    Shutdown,
    /// Hand the secured transport to the HTTP connection server.
    Serve,
    /// Release the connection.
    Drop,
    /// Nothing: the event does not apply in this state.
    Ignore,
}

pub open spec fn next(s: ConnectionState, e: ConnectionEvent) -> (ConnectionState, ConnectionAction) {
    match (s, e) {
        (ConnectionState::Accepted, ConnectionEvent::Greeting(class)) => match class {
            ConnectionClassification::ValidationProbe => (
                ConnectionState::ValidationHandshake,
                ConnectionAction::Handshake(class),
            ),
            ConnectionClassification::ApplicationTraffic => (
                ConnectionState::ApplicationHandshake,
                ConnectionAction::Handshake(class),
            ),
        },
        (ConnectionState::Accepted, ConnectionEvent::GreetingFailed) => (
            ConnectionState::Failed,
            ConnectionAction::Drop,
        ),
        (ConnectionState::ValidationHandshake, ConnectionEvent::HandshakeDone) => (
            ConnectionState::Closed,
            ConnectionAction::Shutdown,
        ),
        (ConnectionState::ApplicationHandshake, ConnectionEvent::HandshakeDone) => (
            ConnectionState::Serving,
            ConnectionAction::Serve,
        ),
        (ConnectionState::ValidationHandshake, ConnectionEvent::HandshakeFailed) => (
            ConnectionState::Failed,
            ConnectionAction::Drop,
        ),
        (ConnectionState::ApplicationHandshake, ConnectionEvent::HandshakeFailed) => (
            ConnectionState::Failed,
            ConnectionAction::Drop,
        ),
        (ConnectionState::Serving, ConnectionEvent::SessionEnded) => (
            ConnectionState::Closed,
            ConnectionAction::Drop,
        ),
        _ => (s, ConnectionAction::Ignore),
    }
}

/// One step of a connection's lifecycle: the next state and what to do.
pub fn step(s: ConnectionState, e: ConnectionEvent) -> (r: (ConnectionState, ConnectionAction))
    ensures
        r == next(s, e),
{
    match (s, e) {
        (ConnectionState::Accepted, ConnectionEvent::Greeting(class)) => match class {
            ConnectionClassification::ValidationProbe => (
                ConnectionState::ValidationHandshake,
                ConnectionAction::Handshake(class),
            ),
            ConnectionClassification::ApplicationTraffic => (
                ConnectionState::ApplicationHandshake,
                ConnectionAction::Handshake(class),
            ),
        },
        (ConnectionState::Accepted, ConnectionEvent::GreetingFailed) => (
            ConnectionState::Failed,
            ConnectionAction::Drop,
        ),
        (ConnectionState::ValidationHandshake, ConnectionEvent::HandshakeDone) => (
            ConnectionState::Closed,
            ConnectionAction::Shutdown,
        ),
        (ConnectionState::ApplicationHandshake, ConnectionEvent::HandshakeDone) => (
            ConnectionState::Serving,
            ConnectionAction::Serve,
        ),
        (ConnectionState::ValidationHandshake, ConnectionEvent::HandshakeFailed) => (
            ConnectionState::Failed,
            ConnectionAction::Drop,
        ),
        (ConnectionState::ApplicationHandshake, ConnectionEvent::HandshakeFailed) => (
            ConnectionState::Failed,
            ConnectionAction::Drop,
        ),
        (ConnectionState::Serving, ConnectionEvent::SessionEnded) => (
            ConnectionState::Closed,
            ConnectionAction::Drop,
        ),
        _ => (s, ConnectionAction::Ignore),
    }
}

/// The actions taken on a sequence of events, from state `s`.
pub open spec fn actions(s: ConnectionState, events: Seq<ConnectionEvent>) -> Seq<ConnectionAction>
    decreases events.len(),
{
    if events.len() == 0 {
        Seq::empty()
    } else {
        let (t, a) = next(s, events[0]);
        seq![a] + actions(t, events.drop_first())
    }
}

/// The states that a validation probe can reach.
pub open spec fn probe_state(s: ConnectionState) -> bool {
    s == ConnectionState::ValidationHandshake || s == ConnectionState::Closed || s
        == ConnectionState::Failed
}

proof fn probe_states_never_serve(s: ConnectionState, events: Seq<ConnectionEvent>)
    requires
        probe_state(s),
    ensures
        actions(s, events).len() == events.len(),
        forall|i: int| 0 <= i < events.len() ==> actions(s, events)[i] != ConnectionAction::Serve,
    decreases events.len(),
{
    if events.len() > 0 {
        let (t, a) = next(s, events[0]);
        probe_states_never_serve(t, events.drop_first());
        assert forall|i: int| 0 <= i < events.len() implies actions(s, events)[i]
            != ConnectionAction::Serve by {
            if i > 0 {
                assert(actions(s, events)[i] == actions(t, events.drop_first())[i - 1]);
            }
        }
    }
}

/// A connection whose greeting is classified as a validation probe is never
/// handed to the HTTP connection server, whatever events follow.
pub proof fn validation_probe_never_served(events: Seq<ConnectionEvent>)
    requires
        events.len() > 0,
        events[0] == ConnectionEvent::Greeting(ConnectionClassification::ValidationProbe),
    ensures
        actions(ConnectionState::Accepted, events).len() == events.len(),
        forall|i: int|
            0 <= i < events.len() ==> actions(ConnectionState::Accepted, events)[i]
                != ConnectionAction::Serve,
{
    let rest = events.drop_first();
    probe_states_never_serve(ConnectionState::ValidationHandshake, rest);
    let all = actions(ConnectionState::Accepted, events);
    assert forall|i: int| 0 <= i < events.len() implies all[i] != ConnectionAction::Serve by {
        if i > 0 {
            assert(all[i] == actions(ConnectionState::ValidationHandshake, rest)[i - 1]);
        }
    }
}

} // verus!
