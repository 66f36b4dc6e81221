use vstd::prelude::*;

verus! {

/// The settings of the server, one field for each key that a document may
/// hold.
#[derive(Debug, Clone)]
pub struct Config {
    /// Passive mode.
    pub pasv_enable: bool,
    /// Port mode.
    pub port_enable: bool,
    /// The address to listen on, such as `192.168.1.100`.
    pub listen_address: Option<String>,
    /// The umask for local users, in octal: with `077` a directory gets
    /// `700`.
    pub local_umask: String,
    /// The port to listen on.
    pub listen_port: u32,
    /// How many clients may be connected at once.
    pub max_clients: u32,
    /// How many connections one address may hold.
    pub max_per_ip: u32,
    /// Seconds to wait for a passive connection.
    pub accept_timeout: u32,
    /// Seconds to wait for an active connection.
    pub connect_timeout: u32,
    /// Seconds after which an idle session ends.
    pub idle_session_timeout: u32,
    /// Seconds after which an idle data connection ends.
    pub data_connection_timeout: u32,
    /// The highest upload rate.
    pub upload_max_rate: u32,
    /// The highest download rate.
    pub download_max_rate: u32,
}

} // verus!
