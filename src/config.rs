//! Startup configuration: the address the listener binds to.
use vstd::prelude::*;
use crate::decimal::{decimal_digits, render_decimal};

verus! {

pub struct ServerConfig {
    pub host: [u8; 4],
    pub port: u16,
}

/// `a.b.c.d:port` in decimal.
pub open spec fn address_text(host: Seq<u8>, port: u16) -> Seq<char> {
    decimal_digits(host[0] as nat) + "."@ + decimal_digits(host[1] as nat) + "."@ + decimal_digits(
        host[2] as nat,
    ) + "."@ + decimal_digits(host[3] as nat) + ":"@ + decimal_digits(port as nat)
}

impl ServerConfig {
    /// Every interface, port 3000.
    pub fn standard() -> (r: ServerConfig)
        ensures
            r.host@ == seq![0u8, 0u8, 0u8, 0u8],
            r.port == 3000,
    {
        let r = ServerConfig { host: [0u8, 0u8, 0u8, 0u8], port: 3000 };
        assert(r.host@ =~= seq![0u8, 0u8, 0u8, 0u8]);
        r
    }

    /// The address in the form a socket listener takes.
    pub fn bind_address(&self) -> (r: String)
        ensures
            r@ == address_text(self.host@, self.port),
    {
        let r = render_decimal(self.host[0] as u32).concat(".");
        let r = r.concat(render_decimal(self.host[1] as u32).as_str()).concat(".");
        let r = r.concat(render_decimal(self.host[2] as u32).as_str()).concat(".");
        let r = r.concat(render_decimal(self.host[3] as u32).as_str()).concat(":");
        r.concat(render_decimal(self.port as u32).as_str())
    }
}

} // verus!
