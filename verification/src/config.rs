//! The server's configuration.

use vstd::prelude::*;

verus! {

/// The address that the server listens on when none is given.
pub const DEFAULT_ADDR: &'static str = "127.0.0.1:4000";

/// The root directory when none is given: the current directory.
pub const DEFAULT_ROOT_DIR: &'static str = ".";

/// The configuration: made once when the server starts, and only read
/// afterwards.
#[derive(Debug)]
pub struct Config {
    /// The address to listen on, as text: an IP address, `:` and a port.
    pub addr: String,
    /// The directory that files are served from.
    pub root_dir: String,
    /// Whether the post-processing hook is to apply its extensions.
    pub use_extensions: bool,
}

/// What a `Config` holds.
pub struct ConfigView {
    pub addr: Seq<char>,
    pub root_dir: Seq<char>,
    pub use_extensions: bool,
}

impl View for Config {
    type V = ConfigView;

    open spec fn view(&self) -> ConfigView {
        ConfigView {
            addr: self.addr@,
            root_dir: self.root_dir@,
            use_extensions: self.use_extensions,
        }
    }
}

/// `given` where there is one, else `default`.
pub open spec fn or_default(given: Option<&str>, default: &str) -> Seq<char> {
    match given {
        Some(s) => s@,
        None => default@,
    }
}

impl Config {
    /// The configuration for the arguments given on the command line, with
    /// the defaults in place of those that are missing.
    pub fn from_arguments(root_dir: Option<&str>, addr: Option<&str>, use_extensions: bool) -> (config:
        Config)
        ensures
            config@ == (ConfigView {
                addr: or_default(addr, DEFAULT_ADDR),
                root_dir: or_default(root_dir, DEFAULT_ROOT_DIR),
                use_extensions,
            }),
    {
        let addr = match addr {
            Some(a) => a,
            None => DEFAULT_ADDR,
        };
        let root_dir = match root_dir {
            Some(r) => r,
            None => DEFAULT_ROOT_DIR,
        };
        Config { addr: addr.to_owned(), root_dir: root_dir.to_owned(), use_extensions }
    }
}

} // verus!
