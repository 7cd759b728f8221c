//! Error taxonomy of the library.
use vstd::prelude::*;

verus! {


/// Every failure the library reports. String payloads carry the captured
/// detail (a command's standard error, a path, a reason).
#[derive(Debug, Clone, PartialEq, Eq)]
pub enum Error {
    /// An input/output failure reported by the caller-side driver.
    Io(String),
    Config(String),
    Validation(String),
    Command { cmd: String, message: String },
    CommandNotFound(String),
    Libvirt(String),
    Network(String),
    Template(String),
    Role(String),
    Vm(String),
    Parse(String),
    PermissionDenied(String),
    AlreadyExists(String),
    NotFound(String),
    ConnectionTest { host: String, port: u16, reason: String },
    Auth(String),
}

impl Error {
    pub fn auth(msg: String) -> (r: Error)
        ensures
            r == Error::Auth(msg),
    {
        Error::Auth(msg)
    }

    pub fn config(msg: String) -> (r: Error)
        ensures
            r == Error::Config(msg),
    {
        Error::Config(msg)
    }

    pub fn validation(msg: String) -> (r: Error)
        ensures
            r == Error::Validation(msg),
    {
        Error::Validation(msg)
    }

    pub fn libvirt(msg: String) -> (r: Error)
        ensures
            r == Error::Libvirt(msg),
    {
        Error::Libvirt(msg)
    }

    pub fn role(msg: String) -> (r: Error)
        ensures
            r == Error::Role(msg),
    {
        Error::Role(msg)
    }

    pub fn vm(msg: String) -> (r: Error)
        ensures
            r == Error::Vm(msg),
    {
        Error::Vm(msg)
    }

    pub fn template(msg: String) -> (r: Error)
        ensures
            r == Error::Template(msg),
    {
        Error::Template(msg)
    }
}

} // verus!
