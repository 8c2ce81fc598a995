use vstd::prelude::*;

verus! {

/// The name that a client announces unless told otherwise.
pub const DEFAULT_CLIENT_NAME: &'static str = "rig-client";

/// The version that a client announces unless told otherwise: this
/// library's own.
pub const DEFAULT_CLIENT_VERSION: &'static str = "0.1.0";

/// The settings of a connection to a Model Context Protocol server: where the
/// server is, and the name and version that the client announces.
pub struct McpClientBuilder {
    pub uri: String,
    pub client_name: String,
    pub client_version: String,
}

impl McpClientBuilder {
    /// Settings for the server at `uri`, with the default name and version.
    pub fn new(uri: &str) -> (r: Self)
        ensures
            r.uri@ == uri@,
            r.client_name@ == DEFAULT_CLIENT_NAME@,
            r.client_version@ == DEFAULT_CLIENT_VERSION@,
    {
        McpClientBuilder {
            uri: String::from_str(uri),
            client_name: String::from_str(DEFAULT_CLIENT_NAME),
            client_version: String::from_str(DEFAULT_CLIENT_VERSION),
        }
    }

    /// The same settings, announcing the name `name`.
    pub fn client_name(self, name: &str) -> (r: Self)
        ensures
            r.uri@ == self.uri@,
            r.client_name@ == name@,
            r.client_version@ == self.client_version@,
    {
        let mut b = self;
        b.client_name = String::from_str(name);
        b
    }

    /// The same settings, announcing the version `version`.
    pub fn client_version(self, version: &str) -> (r: Self)
        ensures
            r.uri@ == self.uri@,
            r.client_name@ == self.client_name@,
            r.client_version@ == version@,
    {
        let mut b = self;
        b.client_version = String::from_str(version);
        b
    }
}

} // verus!
