//! The loopback browser-source server: its address, the URLs it serves, and
//! the errors starting or stopping it reports. The HTTP service itself runs
//! in the application.

use vstd::prelude::*;
use vstd::string::StringExecFns;
use crate::ids::{hyphenated_uuid, spec_parse_overlay_id, OverlayId};
use crate::text::{decimal_digits, push_decimal};

verus! {

/// The four octets of an IPv4 address.
#[derive(Clone, Copy, Debug, Eq, PartialEq, Structural)]
pub struct Ipv4Address(pub u8, pub u8, pub u8, pub u8);

/// The address the server binds: the IPv4 loopback address `127.0.0.1`.
pub open spec fn spec_bind_address() -> Ipv4Address {
    Ipv4Address(127, 0, 0, 1)
}

/// The address the server binds: the IPv4 loopback address `127.0.0.1`.
pub fn default_bind_address() -> (address: Ipv4Address)
    ensures
        address == spec_bind_address(),
{
    Ipv4Address(127, 0, 0, 1)
}

/// The port used when settings name no other.
pub const DEFAULT_PORT: u16 = 51737;

/// An IPv4 socket address of the running server.
#[derive(Clone, Copy, Debug, Eq, PartialEq, Structural)]
pub struct ServerAddress {
    pub ip: Ipv4Address,
    pub port: u16,
}

/// The text of an IPv4 socket address: four decimal octets joined by dots,
/// a colon and the decimal port.
pub open spec fn address_text(address: ServerAddress) -> Seq<char> {
    decimal_digits(address.ip.0 as nat) + "."@ + decimal_digits(address.ip.1 as nat) + "."@
        + decimal_digits(address.ip.2 as nat) + "."@ + decimal_digits(address.ip.3 as nat) + ":"@
        + decimal_digits(address.port as nat)
}

/// The browser-source URL of an overlay served at `address`.
pub open spec fn spec_overlay_url(address: ServerAddress, id: OverlayId) -> Seq<char> {
    "http://"@ + address_text(address) + "/overlay/"@ + hyphenated_uuid(id.bits())
}

impl ServerAddress {
    /// The loopback address on the given port.
    pub fn loopback(port: u16) -> (address: Self)
        ensures
            address.ip == spec_bind_address(),
            address.port == port,
    {
        ServerAddress { ip: default_bind_address(), port }
    }

    /// Appends the text of this address.
    pub fn push_text(&self, text: &mut String)
        ensures
            final(text)@ == old(text)@ + address_text(*self),
    {
        push_decimal(text, self.ip.0 as u64);
        text.append(".");
        push_decimal(text, self.ip.1 as u64);
        text.append(".");
        push_decimal(text, self.ip.2 as u64);
        text.append(".");
        push_decimal(text, self.ip.3 as u64);
        text.append(":");
        push_decimal(text, self.port as u64);
        assert(final(text)@ =~= old(text)@ + address_text(*self));
    }

    /// The text of this address (`127.0.0.1:51737`).
    pub fn to_text(&self) -> (text: String)
        ensures
            text@ == address_text(*self),
    {
        let mut text = String::new();
        self.push_text(&mut text);
        assert(Seq::<char>::empty() + address_text(*self) =~= address_text(*self));
        text
    }
}

/// The browser-source URL of an overlay served at `address`:
/// `http://<address>/overlay/<id>`.
pub fn overlay_url(address: ServerAddress, id: OverlayId) -> (url: String)
    ensures
        url@ == spec_overlay_url(address, id),
        id.spec_is_valid() ==> spec_parse_overlay_id(hyphenated_uuid(id.bits())) == Some(id.bits()),
{
    let mut url = String::new();
    url.append("http://");
    address.push_text(&mut url);
    url.append("/overlay/");
    let id_text = id.to_string();
    url.append(id_text.as_str());
    assert(url@ =~= spec_overlay_url(address, id));
    url
}

/// An error starting, running or stopping the server. Underlying I/O errors
/// are carried as their display text.
#[derive(Debug, PartialEq)]
pub enum ServerError {
    Bind(String),
    Runtime(String),
    Thread(String),
    Serve(String),
    ThreadPanicked,
    StartupChannelClosed,
}

impl Clone for ServerError {
    fn clone(&self) -> (copy: Self)
        ensures
            copy == *self,
    {
        match self {
            ServerError::Bind(e) => ServerError::Bind(e.clone()),
            ServerError::Runtime(e) => ServerError::Runtime(e.clone()),
            ServerError::Thread(e) => ServerError::Thread(e.clone()),
            ServerError::Serve(e) => ServerError::Serve(e.clone()),
            ServerError::ThreadPanicked => ServerError::ThreadPanicked,
            ServerError::StartupChannelClosed => ServerError::StartupChannelClosed,
        }
    }
}

/// The user-facing text of a server error.
pub open spec fn server_message(error: ServerError) -> Seq<char> {
    match error {
        ServerError::Bind(e) => "could not bind the web server: "@ + e@,
        ServerError::Runtime(e) => "could not create the Tokio runtime: "@ + e@,
        ServerError::Thread(e) => "could not start the web-server thread: "@ + e@,
        ServerError::Serve(e) => "the web server stopped with an error: "@ + e@,
        ServerError::ThreadPanicked => "the web-server thread panicked"@,
        ServerError::StartupChannelClosed =>
            "the web-server thread exited before reporting its address"@,
    }
}

impl ServerError {
    /// The user-facing text of this error, as `Display` writes it.
    pub fn message(&self) -> (text: String)
        ensures
            text@ == server_message(*self),
    {
        let mut text = String::new();
        match self {
            ServerError::Bind(e) => {
                text.append("could not bind the web server: ");
                text.append(e.as_str());
            },
            ServerError::Runtime(e) => {
                text.append("could not create the Tokio runtime: ");
                text.append(e.as_str());
            },
            ServerError::Thread(e) => {
                text.append("could not start the web-server thread: ");
                text.append(e.as_str());
            },
            ServerError::Serve(e) => {
                text.append("the web server stopped with an error: ");
                text.append(e.as_str());
            },
            ServerError::ThreadPanicked => {
                text.append("the web-server thread panicked");
            },
            ServerError::StartupChannelClosed => {
                text.append("the web-server thread exited before reporting its address");
            },
        }
        assert(text@ =~= server_message(*self));
        text
    }
}

/// What shutting the server down reports once its thread has ended:
/// `returned` is what the thread returned, or `None` if it panicked.
pub fn shutdown_outcome(returned: Option<Result<(), ServerError>>) -> (result: Result<(), ServerError>)
    ensures
        result == match returned {
            Some(r) => r,
            None => Err(ServerError::ThreadPanicked),
        },
{
    match returned {
        Some(r) => r,
        None => Err(ServerError::ThreadPanicked),
    }
}

/// The startup error when the server thread ended without reporting its
/// address: what the thread returned, or `None` if it panicked.
pub fn unreported_startup_error(returned: Option<Result<(), ServerError>>) -> (error: ServerError)
    ensures
        error == match returned {
            Some(Err(e)) => e,
            Some(Ok(())) => ServerError::StartupChannelClosed,
            None => ServerError::ThreadPanicked,
        },
{
    match returned {
        Some(Err(e)) => e,
        Some(Ok(())) => ServerError::StartupChannelClosed,
        None => ServerError::ThreadPanicked,
    }
}

} // verus!
