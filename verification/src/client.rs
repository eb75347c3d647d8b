//! The boundary to the beanstalkd client.
//!
//! Nothing in this module is proved. The two types are opaque to the
//! verifier, and each function is one call into the client whose outcome the
//! daemon and the network decide, so none of them promises anything about
//! what it returns or about the client that it leaves behind.

use beanstalkc::Beanstalkc;
use beanstalkc::BeanstalkcError;
use std::collections::HashMap;
use vstd::prelude::*;

verus! {

/// `beanstalkc::Beanstalkc`, the client's handle on one TCP connection.
#[verifier::external_type_specification]
#[verifier::external_body]
pub struct ExBeanstalkc(Beanstalkc);

/// `beanstalkc::BeanstalkcError`, the only error that the client reports.
#[verifier::external_type_specification]
#[verifier::external_body]
pub struct ExBeanstalkcError(BeanstalkcError);

/// Builds a client for `host` and `port` and calls `Beanstalkc::connect`.
///
/// The client is told to connect without a timeout of its own. On that path
/// it resolves the address and connects through `TcpStream::connect`, and
/// every failure, of the resolution as of the connection, comes back as an
/// error. With a timeout it would panic on an address that does not resolve.
#[verifier::external_body]
pub(crate) fn dial(host: &str, port: u16) -> Result<Beanstalkc, BeanstalkcError> {
    Beanstalkc::new().host(host).port(port).connection_timeout(None).connect()
}

/// Calls `Beanstalkc::watch`, which sends `watch <tube>` and waits for the
/// reply: the number of tubes watched, or an error. A client that has no
/// transport fails at once.
#[verifier::external_body]
pub(crate) fn watch(client: &mut Beanstalkc, tube: &str) -> Result<u64, BeanstalkcError> {
    client.watch(tube)
}

/// Calls `Beanstalkc::stats`, which sends `stats` and waits for the reply:
/// the daemon's statistics by name, or an error. A client that has no
/// transport fails at once.
#[verifier::external_body]
pub(crate) fn stats(client: &mut Beanstalkc) -> Result<HashMap<String, String>, BeanstalkcError> {
    client.stats()
}

} // verus!
