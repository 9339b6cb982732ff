//! Startup configuration: the source root, the bind port and whether
//! to open a browser. Built once from the command line and consumed by
//! the startup driver.

use vstd::prelude::*;

verus! {

/// What the server is started with. The defaults are the current
/// directory, port 8080 and no browser launch.
pub struct ServerConfig {
    pub source_root: String,
    pub bind_port: u16,
    pub open_browser: bool,
}

impl ServerConfig {
    /// Bundle the parsed command-line values.
    pub fn new(source_root: String, bind_port: u16, open_browser: bool) -> (c: ServerConfig)
        ensures
            c.source_root == source_root,
            c.bind_port == bind_port,
            c.open_browser == open_browser,
    {
        ServerConfig { source_root, bind_port, open_browser }
    }
}

impl Default for ServerConfig {
    /// The configuration used when no argument is given: serve the
    /// current directory on port 8080 and do not open a browser.
    fn default() -> (c: Self)
        ensures
            c.source_root@ == "."@,
            c.bind_port == 8080,
            c.open_browser == false,
    {
        ServerConfig { source_root: String::from_str("."), bind_port: 8080, open_browser: false }
    }
}

} // verus!
