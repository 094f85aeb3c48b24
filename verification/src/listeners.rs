//! Configuration of the transport listeners. The listeners themselves do
//! I/O and live outside the library; these are the plain values they are
//! built from.

use vstd::prelude::*;

verus! {

/// Where the local-socket listener's socket file lives when the
/// configuration names no other place.
pub fn default_path() -> (r: String)
    ensures
        r@ == "gallerica.sock"@,
{
    "gallerica.sock".to_owned()
}

/// Settings of the local-socket listener.
pub struct UnixListenerConfig {
    /// Socket file path; a relative one is resolved against the runtime
    /// directory by the listener.
    pub path_to_socket: String,
}

impl Default for UnixListenerConfig {
    /// The socket file at its default place.
    fn default() -> (r: UnixListenerConfig)
        ensures
            r.path_to_socket@ == "gallerica.sock"@,
    {
        UnixListenerConfig { path_to_socket: default_path() }
    }
}

/// Settings of the publish/subscribe listener.
pub struct MqttListenerConfig {
    pub client_id: String,
    pub host: String,
    pub port: u16,
    pub topic: String,
}

/// One listener to connect, tagged by transport kind.
pub enum ListenerConfiguration {
    UnixSocket(UnixListenerConfig),
    Mqtt(MqttListenerConfig),
}

} // verus!
