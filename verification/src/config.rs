//! Server configuration and the errors its loading and validation report.
//!
//! The configuration itself is plain data; reading it from disk or prompting
//! for it interactively is a collaborator's job. What is verified here is the
//! merge rule: command-line arguments override the loaded values field by
//! field, and only where they were actually given.

use vstd::prelude::*;

verus! {

/// Everything that can go wrong while obtaining a configuration. Collaborator
/// failures (file system, parser, prompt) arrive as their message text.
#[derive(Debug)]
pub enum TauConfigError {
    Io(String),
    Toml(String),
    InvalidIp(String),
    InvalidPort(u16),
    Input(String),
}

/// The command-line arguments that may override a loaded configuration.
/// A `None` field was not given on the command line.
#[derive(Debug)]
pub struct Args {
    pub username: Option<String>,
    pub password: Option<String>,
    pub listen_port: Option<u16>,
    pub mount_port: Option<u16>,
    pub mount: Option<String>,
    pub reset_config: bool,
}

/// The loaded server configuration.
#[derive(Debug)]
pub struct Config {
    pub username: String,
    pub password: String,
    pub url: String,
    pub listen_port: u16,
    pub mount_port: u16,
    pub mount: String,
}

impl Config {
    /// Overlay the command-line arguments on this configuration: each field
    /// given on the command line replaces the loaded one, every other field —
    /// and the public address, which has no argument — stays as loaded.
    pub fn merge_cli_args(self, args: &Args) -> (r: Config)
        ensures
            args.username matches Some(u) ==> r.username == u,
            args.username is None ==> r.username == self.username,
            args.password matches Some(p) ==> r.password == p,
            args.password is None ==> r.password == self.password,
            args.listen_port matches Some(p) ==> r.listen_port == p,
            args.listen_port is None ==> r.listen_port == self.listen_port,
            args.mount_port matches Some(p) ==> r.mount_port == p,
            args.mount_port is None ==> r.mount_port == self.mount_port,
            args.mount matches Some(m) ==> r.mount == m,
            args.mount is None ==> r.mount == self.mount,
            r.url == self.url,
    {
        let mut merged = self;
        if let Some(un) = &args.username {
            merged.username = un.clone();
        }
        if let Some(pw) = &args.password {
            merged.password = pw.clone();
        }
        if let Some(p) = args.listen_port {
            merged.listen_port = p;
        }
        if let Some(p) = args.mount_port {
            merged.mount_port = p;
        }
        if let Some(m) = &args.mount {
            merged.mount = m.clone();
        }
        merged
    }
}

} // verus!
