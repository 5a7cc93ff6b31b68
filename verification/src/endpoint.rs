//! The address at which the backend is probed and on which it is told to
//! listen.

use crate::digits::{decimal, push_decimal, render_decimal};
use vstd::prelude::*;

verus! {

/// The port the backend uses when nothing else is configured.
pub const DEFAULT_PORT: u16 = 8000;

/// The host and port of the backend's health check. The same port is handed
/// to the backend when it is launched, so that it binds what is probed.
#[derive(Clone, Copy, Debug, PartialEq, Eq)]
pub struct Endpoint {
    /// The four octets of the host's address.
    pub host: [u8; 4],
    pub port: u16,
}

impl Endpoint {
    /// The endpoint in its textual form, `a.b.c.d:port`.
    pub open spec fn address_text(self) -> Seq<char> {
        decimal(self.host[0] as nat) + seq!['.'] + decimal(self.host[1] as nat) + seq!['.']
            + decimal(self.host[2] as nat) + seq!['.'] + decimal(self.host[3] as nat) + seq![':']
            + decimal(self.port as nat)
    }

    /// The arguments that tell the backend which port to bind: `--port`
    /// followed by the endpoint's port.
    pub open spec fn launch_args_text(self) -> Seq<Seq<char>> {
        seq!["--port"@, decimal(self.port as nat)]
    }

    /// The endpoint on this machine's loopback address, `127.0.0.1`.
    pub fn local(port: u16) -> (endpoint: Endpoint)
        ensures
            endpoint.host@ == seq![127u8, 0u8, 0u8, 1u8],
            endpoint.port == port,
    {
        let endpoint = Endpoint { host: [127, 0, 0, 1], port };
        assert(endpoint.host@ =~= seq![127u8, 0u8, 0u8, 1u8]);
        endpoint
    }

    /// The endpoint in its textual form, as a socket address is written.
    pub fn address(&self) -> (text: String)
        ensures
            text@ == self.address_text(),
    {
        proof {
            reveal_strlit(".");
            reveal_strlit(":");
        }
        let mut text = String::new();
        push_decimal(&mut text, self.host[0] as u64);
        text.append(".");
        push_decimal(&mut text, self.host[1] as u64);
        text.append(".");
        push_decimal(&mut text, self.host[2] as u64);
        text.append(".");
        push_decimal(&mut text, self.host[3] as u64);
        text.append(":");
        push_decimal(&mut text, self.port as u64);
        assert(text@ =~= self.address_text());
        text
    }

    /// The arguments with which the backend is launched for this endpoint.
    pub fn launch_args(&self) -> (args: Vec<String>)
        ensures
            args@.len() == 2,
            args@[0]@ == "--port"@,
            args@[1]@ == decimal(self.port as nat),
            args@.map_values(|s: String| s@) == self.launch_args_text(),
    {
        let mut args: Vec<String> = Vec::new();
        args.push(String::from_str("--port"));
        args.push(render_decimal(self.port as u64));
        assert(args@.map_values(|s: String| s@) =~= self.launch_args_text());
        args
    }
}

impl Default for Endpoint {
    /// The loopback address with the default port.
    fn default() -> (endpoint: Endpoint)
        ensures
            endpoint.host@ == seq![127u8, 0u8, 0u8, 1u8],
            endpoint.port == DEFAULT_PORT,
    {
        Endpoint::local(DEFAULT_PORT)
    }
}

} // verus!
