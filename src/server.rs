//! Where the server listens.
use vstd::prelude::*;

verus! {

/// The host the server binds when none is given.
pub const DEFAULT_HOST: &'static str = "0.0.0.0";

/// The port the server binds when none is given.
pub const DEFAULT_PORT: &'static str = "3500";

/// The address `host:port` to bind, with the defaults for what is missing.
pub fn bind_address(host: &Option<String>, port: &Option<String>) -> (r: String)
    ensures
        r@ == (match host {
            Some(h) => h@,
            None => DEFAULT_HOST@,
        }) + ":"@ + (match port {
            Some(p) => p@,
            None => DEFAULT_PORT@,
        }),
{
    let mut r = match host {
        Some(h) => h.clone(),
        None => String::from_str(DEFAULT_HOST),
    };
    r.append(":");
    match port {
        Some(p) => r.append(p.as_str()),
        None => r.append(DEFAULT_PORT),
    }
    r
}

} // verus!
