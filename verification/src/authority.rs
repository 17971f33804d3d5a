//! The authority gate: which process may change movement state.

use vstd::prelude::*;

verus! {

/// The role a process was started in.
#[derive(Clone, Copy, Debug, PartialEq, Eq, Structural)]
pub enum NetworkMode {
    Singleplayer,
    Server,
    Client,
}

/// Where a process stands as a network client. A process that does not act
/// as a client, such as a dedicated server or a single-player game, is
/// `Disconnected`.
#[derive(Clone, Copy, Debug, PartialEq, Eq, Structural)]
pub enum ClientState {
    Disconnected,
    Connecting,
    Connected,
}

impl NetworkMode {
    /// The mode is that of a process that simulates: every mode but that
    /// of a remote client.
    pub open spec fn is_authority_spec(self) -> bool {
        self != NetworkMode::Client
    }

    /// The client state that a process of this mode is in while it plays:
    /// a remote client is connected, every other process is no client.
    pub open spec fn client_state_spec(self) -> ClientState {
        match self {
            NetworkMode::Client => ClientState::Connected,
            _ => ClientState::Disconnected,
        }
    }

    /// Whether a process of this mode simulates.
    pub fn is_authority(self) -> (b: bool)
        ensures
            b == self.is_authority_spec(),
    {
        match self {
            NetworkMode::Client => false,
            _ => true,
        }
    }

    /// The client state of a process of this mode while it plays.
    pub fn client_state(self) -> (s: ClientState)
        ensures
            s == self.client_state_spec(),
    {
        match self {
            NetworkMode::Client => ClientState::Connected,
            _ => ClientState::Disconnected,
        }
    }
}

/// The process is not a remote client, connected or connecting.
pub open spec fn has_server_authority_spec(client_state: ClientState) -> bool {
    client_state == ClientState::Disconnected
}

/// Whether this process runs the authoritative simulation: true exactly
/// when it is not itself a remote client.
pub fn has_server_authority(client_state: ClientState) -> (b: bool)
    ensures
        b == has_server_authority_spec(client_state),
{
    match client_state {
        ClientState::Disconnected => true,
        _ => false,
    }
}

/// A dedicated server and a single-player process hold authority and a
/// connected client does not: deciding by the client state of a playing
/// process agrees with deciding by its mode.
pub proof fn lemma_authority_by_mode(mode: NetworkMode)
    ensures
        has_server_authority_spec(mode.client_state_spec()) == mode.is_authority_spec(),
        has_server_authority_spec(NetworkMode::Singleplayer.client_state_spec()),
        has_server_authority_spec(NetworkMode::Server.client_state_spec()),
        !has_server_authority_spec(NetworkMode::Client.client_state_spec()),
{
}

} // verus!
