use vstd::prelude::*;

verus! {

/// Passive mode is on unless the document says otherwise.
pub fn pasv_enable_default() -> (out: bool)
    ensures
        out == true,
{
    true
}

/// Port mode is on unless the document says otherwise.
pub fn port_enable_default() -> (out: bool)
    ensures
        out == true,
{
    true
}

/// The umask for local users, in octal.
pub fn local_umask_default() -> (out: String)
    ensures
        out@ == "077"@,
{
    "077".to_owned()
}

/// The port to listen on.
pub fn listen_port_default() -> (out: u32)
    ensures
        out == 21,
{
    21
}

/// How many clients may be connected at once.
pub fn max_clients_default() -> (out: u32)
    ensures
        out == 3,
{
    3
}

/// How many connections one address may hold.
pub fn max_per_ip_default() -> (out: u32)
    ensures
        out == 2,
{
    2
}

/// Seconds to wait for a passive connection.
pub fn accept_timeout_default() -> (out: u32)
    ensures
        out == 60,
{
    60
}

/// Seconds to wait for an active connection.
pub fn connect_timeout_default() -> (out: u32)
    ensures
        out == 100,
{
    100
}

/// Seconds after which an idle session ends.
pub fn idle_session_timeout_default() -> (out: u32)
    ensures
        out == 300,
{
    300
}

/// Seconds after which an idle data connection ends.
pub fn data_connection_timeout_default() -> (out: u32)
    ensures
        out == 900,
{
    900
}

/// The highest upload rate.
pub fn upload_max_rate_default() -> (out: u32)
    ensures
        out == 102400,
{
    102400
}

/// The highest download rate.
pub fn download_max_rate_default() -> (out: u32)
    ensures
        out == 204800,
{
    204800
}

} // verus!
