//! The host service exposed to the UI runtime: reads through the most
//! recently registered host context, with a safe default whenever no
//! context is registered.
//!
//! The unverified glue performs the actual host read and hands the result
//! in as `Some(value)`; it hands in `None` exactly when no host context is
//! currently registered, so the caller-supplied default is returned.

use vstd::prelude::*;
use vstd::string::*;

verus! {

/// What any host of this plugin family must answer about itself.
pub trait HostService {
    /// The name of the host this plugin runs under.
    fn get_host(&self) -> String;
}

/// The host service of this plugin: every query goes through the registered
/// host context when there is one, and falls back to a fixed default when
/// there is none.
pub struct Host;

impl HostService for Host {
    fn get_host(&self) -> (name: String)
        ensures
            name@ == "Shigure/Rainmeter"@,
    {
        String::from_str("Shigure/Rainmeter")
    }
}

impl Host {
    /// This host's name, pinned.
    pub fn host_name(&self) -> (name: String)
        ensures
            name@ == "Shigure/Rainmeter"@,
    {
        String::from_str("Shigure/Rainmeter")
    }

    /// Read a string option: the host's answer when a context is
    /// registered, the caller's default otherwise.
    pub fn read_string(&self, host_value: Option<String>, default: String) -> (r: String)
        ensures
            r == match host_value {
                Some(v) => v,
                None => default,
            },
    {
        match host_value {
            Some(v) => v,
            None => default,
        }
    }

    /// Read an integer option: the host's answer when a context is
    /// registered, the caller's default otherwise.
    pub fn read_int(&self, host_value: Option<i32>, default: i32) -> (r: i32)
        ensures
            r == match host_value {
                Some(v) => v,
                None => default,
            },
    {
        match host_value {
            Some(v) => v,
            None => default,
        }
    }

    /// The name of the skin this measure belongs to, or a fixed placeholder
    /// when no context is registered.
    pub fn get_skin_name(&self, host_value: Option<String>) -> (r: String)
        ensures
            match host_value {
                Some(v) => r == v,
                None => r@ == "Unknown"@,
            },
    {
        match host_value {
            Some(v) => v,
            None => String::from_str("Unknown"),
        }
    }

    /// Resolve a host variable reference to its value, or to the empty
    /// string when no context is registered.
    pub fn get_variable(&self, host_value: Option<String>) -> (r: String)
        ensures
            match host_value {
                Some(v) => r == v,
                None => r@ == ""@,
            },
    {
        match host_value {
            Some(v) => v,
            None => {
                let r = String::new();
                proof {
                    reveal_strlit("");
                    assert(r@ =~= ""@);
                }
                r
            },
        }
    }

    /// Hand back the bang to execute through the host, exactly when a
    /// context is registered; with none registered nothing is executed.
    pub fn execute_bang(&self, host_registered: bool, bang: String) -> (cmd: Option<String>)
        ensures
            cmd == if host_registered {
                Some(bang)
            } else {
                None::<String>
            },
    {
        if host_registered {
            Some(bang)
        } else {
            None
        }
    }
}

} // verus!
