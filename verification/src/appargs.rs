//! The gateway's configuration surface: the parsed command-line values
//! and the subscription topic they determine.

use vstd::prelude::*;

verus! {

use vstd::string::StringExecFns;

/// Mode of the parser.
#[derive(Debug, Copy, Clone, PartialEq, Eq, Structural)]
pub enum Mode {
    /// Convert incoming data from JSON.
    JSON,
    /// Convert incoming redi signals (not implemented).
    Redi,
}

/// The configuration the gateway runs with, as plain values.
#[derive(Debug, Clone)]
pub struct Args {
    /// Topic of the pub/sub channel to listen on.
    pub topic: String,
    /// Exmebus port where to forward data.
    pub exmebus_port: u64,
    /// Local pub/sub broker port.
    pub mqtt_port: u64,
    /// Pub/sub server address.
    pub host: String,
    /// Identifier of the machine whose signals are forwarded.
    pub machine_id: String,
    /// Mode of the parser.
    pub mode: Mode,
    /// Debug verbosity, at most two.
    pub debug: u8,
}

/// The topic actually subscribed to: the configured topic followed by the
/// machine identifier, with a JSON suffix in JSON mode.
pub fn subscription_topic(mode: Mode, topic: &str, machine_id: &str) -> (r: String)
    ensures
        mode == Mode::JSON ==> r@ == topic@ + machine_id@ + "/json"@,
        mode == Mode::Redi ==> r@ == topic@ + machine_id@,
{
    let mut t = topic.to_owned();
    t.append(machine_id);
    match mode {
        Mode::JSON => {
            t.append("/json");
        },
        Mode::Redi => {},
    }
    t
}

} // verus!
