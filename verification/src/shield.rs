//! Values exchanged with the acquisition shield over its HTTP interface, and
//! the addresses of its endpoints. The requests themselves are the caller's.

use vstd::prelude::*;
use vstd::string::StringExecFns;

verus! {

/// Answer of the `/board` endpoint.
#[derive(Debug, Clone)]
pub struct BoardInfo {
    pub board_connected: bool,
    pub board_type: String,
    pub num_channels: u8,
    pub gains: Vec<u8>,
}

/// Answer of the `/all` endpoint.
#[derive(Debug, Clone)]
pub struct ShieldInfo {
    pub board_connected: bool,
    pub heap: u32,
    pub ip: String,
    pub mac: String,
    pub name: String,
    pub num_channels: u8,
    pub version: String,
    pub latency: u32,
}

/// Body of the request that starts streaming over TCP.
#[derive(Debug)]
pub struct TcpConfig {
    pub ip: String,
    pub port: u16,
    /// `"json"` or `"raw"`.
    pub output: String,
    pub delimiter: bool,
    /// Microseconds between packets.
    pub latency: u32,
    pub burst: Option<bool>,
}

/// Receiver of the shield's TCP stream, bound to one port.
pub struct TcpDataReceiver {
    port: u16,
}

/// The endpoints of the shield.
#[derive(Clone, Copy, Debug, PartialEq, Eq, Structural)]
pub enum Endpoint {
    Board,
    All,
    Version,
    Tcp,
    Command,
}

impl View for TcpDataReceiver {
    type V = u16;

    closed spec fn view(&self) -> u16 {
        self.port
    }
}

impl TcpDataReceiver {
    /// A receiver for `port`.
    pub fn new(port: u16) -> (receiver: TcpDataReceiver)
        ensures
            receiver@ == port,
    {
        TcpDataReceiver { port }
    }

    /// The port to listen on.
    pub fn port(&self) -> (port: u16)
        ensures
            port == self@,
    {
        self.port
    }
}

impl TcpConfig {
    /// The configuration that asks the shield to stream to `local_ip` and
    /// `local_port`: delimited, not in bursts.
    pub fn for_stream(local_ip: &str, local_port: u16, output_format: &str, latency_us: u32) -> (config:
        TcpConfig)
        ensures
            config.ip@ == local_ip@,
            config.port == local_port,
            config.output@ == output_format@,
            config.delimiter,
            config.latency == latency_us,
            config.burst == Some(false),
    {
        TcpConfig {
            ip: local_ip.to_owned(),
            port: local_port,
            output: output_format.to_owned(),
            delimiter: true,
            latency: latency_us,
            burst: Some(false),
        }
    }
}

impl Endpoint {
    /// The path of the endpoint.
    pub open spec fn path(self) -> Seq<char> {
        match self {
            Endpoint::Board => "/board"@,
            Endpoint::All => "/all"@,
            Endpoint::Version => "/version"@,
            Endpoint::Tcp => "/tcp"@,
            Endpoint::Command => "/command"@,
        }
    }

    /// The address of the endpoint on the shield at `ip_address`.
    pub open spec fn url(self, ip_address: Seq<char>) -> Seq<char> {
        "http://"@ + ip_address + self.path()
    }

    /// Builds the address of the endpoint on the shield at `ip_address`.
    pub fn url_for(self, ip_address: &str) -> (url: String)
        ensures
            url@ == self.url(ip_address@),
    {
        let mut url = String::from_str("http://");
        url.append(ip_address);
        match self {
            Endpoint::Board => url.append("/board"),
            Endpoint::All => url.append("/all"),
            Endpoint::Version => url.append("/version"),
            Endpoint::Tcp => url.append("/tcp"),
            Endpoint::Command => url.append("/command"),
        }
        url
    }
}

} // verus!
