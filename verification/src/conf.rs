//! The server configuration, from the command line.

use vstd::prelude::*;

verus! {

/// Address the server listens on when no other one is given.
pub const DEFAULT_IP: &'static str = "0.0.0.0";

/// Port the server listens on when no other one is given.
pub const DEFAULT_PORT: &'static str = "3200";

/// The server configuration: where to listen, and which library paths to
/// register at start.
pub struct Conf {
    pub bind: String,
    pub library_path: Option<Vec<String>>,
}

/// The default listening address, `ip:port`.
pub open spec fn default_bind() -> Seq<char> {
    DEFAULT_IP@ + ":"@ + DEFAULT_PORT@
}

impl Conf {
    /// The configuration used when no argument is given: listen on
    /// `0.0.0.0:3200`, with an empty list of library paths.
    pub fn default() -> (conf: Conf)
        ensures
            conf.bind@ == default_bind(),
            conf.library_path matches Some(paths) && paths@.len() == 0,
    {
        let mut bind = String::new();
        bind.append(DEFAULT_IP);
        bind.append(":");
        bind.append(DEFAULT_PORT);
        Conf { bind, library_path: Some(Vec::new()) }
    }
}

/// Builds the configuration from the command line (program name first).
/// With exactly one argument after the program name, that argument is the
/// listening address; otherwise the default configuration is used. (The
/// logger that the program starts at the same time is set up around it.)
pub fn init_conf(args: Vec<String>) -> (conf: Conf)
    ensures
        args@.len() == 2 ==> conf.bind@ == args@[1]@,
        args@.len() != 2 ==> conf.bind@ == default_bind(),
        conf.library_path matches Some(paths) && paths@.len() == 0,
{
    if args.len() == 2 {
        let bind = args[1].clone();
        let library_path = Conf::default().library_path;
        Conf { bind, library_path }
    } else {
        Conf::default()
    }
}

} // verus!
