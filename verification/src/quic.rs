//! The QUIC/HTTP3 transport stubs. The transport was never implemented:
//! construction succeeds, and every operation fails with a `Config` error.
//! Addresses are carried as `host:port` text.

use vstd::prelude::*;

use crate::error::Error;

verus! {

pub open spec fn quic_pending_msg() -> Seq<char> {
    "QUIC implementation pending GQUIC library"@
}

pub open spec fn quic_server_pending_msg() -> Seq<char> {
    "QUIC server implementation pending GQUIC library"@
}

pub open spec fn http3_pending_msg() -> Seq<char> {
    "HTTP/3 implementation pending GQUIC library"@
}

pub open spec fn http3_server_pending_msg() -> Seq<char> {
    "HTTP/3 server implementation pending GQUIC library"@
}

/// A QUIC client placeholder.
#[derive(Debug, Clone, PartialEq)]
pub struct QuicClient {
    pub server_name: String,
}

impl QuicClient {
    pub fn new(server_name: String) -> (r: Result<Self, Error>)
        ensures
            r matches Ok(c) && c.server_name == server_name,
    {
        Ok(QuicClient { server_name })
    }

    /// Connecting always fails until the transport exists.
    pub fn connect(&self, _addr: &str) -> (r: Result<(), Error>)
        ensures
            r matches Err(e) && e matches Error::Config(m) && m@ == quic_pending_msg(),
    {
        Err(Error::Config("QUIC implementation pending GQUIC library".to_owned()))
    }
}

/// A QUIC server placeholder.
#[derive(Debug, Clone, PartialEq)]
pub struct QuicServer {
    pub bind_addr: String,
}

impl QuicServer {
    pub fn new(addr: String, _cert_path: Option<&str>, _key_path: Option<&str>) -> (r: Result<
        Self,
        Error,
    >)
        ensures
            r matches Ok(s) && s.bind_addr == addr,
    {
        Ok(QuicServer { bind_addr: addr })
    }

    /// Accepting always fails until the transport exists.
    pub fn accept(&self) -> (r: Result<(), Error>)
        ensures
            r matches Err(e) && e matches Error::Config(m) && m@ == quic_server_pending_msg(),
    {
        Err(Error::Config("QUIC server implementation pending GQUIC library".to_owned()))
    }
}

/// An HTTP/3 client placeholder over the QUIC client.
#[derive(Debug, Clone, PartialEq)]
pub struct Http3Client {
    pub quic_client: QuicClient,
}

impl Http3Client {
    pub fn new(server_name: String) -> (r: Result<Self, Error>)
        ensures
            r matches Ok(c) && c.quic_client.server_name == server_name,
    {
        match QuicClient::new(server_name) {
            Ok(quic_client) => Ok(Http3Client { quic_client }),
            Err(e) => Err(e),
        }
    }

    /// Fetching always fails until the transport exists.
    pub fn get(&self, _addr: &str, _path: &str) -> (r: Result<Vec<u8>, Error>)
        ensures
            r matches Err(e) && e matches Error::Config(m) && m@ == http3_pending_msg(),
    {
        Err(Error::Config("HTTP/3 implementation pending GQUIC library".to_owned()))
    }

    /// Posting always fails until the transport exists.
    pub fn post(&self, _addr: &str, _path: &str, _data: Vec<u8>) -> (r: Result<Vec<u8>, Error>)
        ensures
            r matches Err(e) && e matches Error::Config(m) && m@ == http3_pending_msg(),
    {
        Err(Error::Config("HTTP/3 implementation pending GQUIC library".to_owned()))
    }
}

/// An HTTP/3 server placeholder over the QUIC server.
#[derive(Debug, Clone, PartialEq)]
pub struct Http3Server {
    pub quic_server: QuicServer,
}

impl Http3Server {
    pub fn new(addr: String, cert_path: Option<&str>, key_path: Option<&str>) -> (r: Result<
        Self,
        Error,
    >)
        ensures
            r matches Ok(s) && s.quic_server.bind_addr == addr,
    {
        match QuicServer::new(addr, cert_path, key_path) {
            Ok(quic_server) => Ok(Http3Server { quic_server }),
            Err(e) => Err(e),
        }
    }

    /// Serving always fails until the transport exists.
    pub fn serve(&self) -> (r: Result<(), Error>)
        ensures
            r matches Err(e) && e matches Error::Config(m) && m@ == http3_server_pending_msg(),
    {
        Err(Error::Config("HTTP/3 server implementation pending GQUIC library".to_owned()))
    }
}

} // verus!
