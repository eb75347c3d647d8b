//! The connection manager: what a pool calls to open a connection, to test
//! one, and to ask whether one is known to be broken.

use crate::connection::Connection;
use crate::history::failure_of;
use crate::history::requests;
use crate::history::tube_names;
use crate::history::watch_requests;
use crate::history::watch_run;
use crate::history::Exchange;
use crate::history::Request;
use beanstalkc::BeanstalkcError;
use vstd::prelude::*;

verus! {

/// What a manager was configured with.
pub struct Settings {
    /// The daemon's network address.
    pub host: Seq<char>,
    /// The daemon's port.
    pub port: u16,
    /// The tubes that every new connection is subscribed to, in order.
    pub watch_list: Seq<Seq<char>>,
}

/// The settings from which connections to one daemon are opened. They never
/// change once the manager is made.
#[derive(Debug)]
pub struct BeanstalkdConnectionManager {
    host: String,
    port: u16,
    watch_list: Vec<String>,
}

impl View for BeanstalkdConnectionManager {
    type V = Settings;

    closed spec fn view(&self) -> Settings {
        Settings {
            host: self.host@,
            port: self.port,
            watch_list: tube_names(self.watch_list@),
        }
    }
}

impl BeanstalkdConnectionManager {
    /// Whether `conn` is in the state in which `connect` hands a connection
    /// out: opened to the configured address, and asked since then for each
    /// tube of the watch list, once and in order, every request granted.
    pub open spec fn opened(&self, conn: Connection) -> bool {
        &&& conn.host() == self@.host
        &&& conn.port() == self@.port
        &&& conn.history() =~= watch_run(
            self@.watch_list,
            self@.watch_list.len() as int,
            None,
        )
    }

    /// Stores the settings. Nothing is checked: a host or port at which no
    /// daemon listens shows only when a connection is opened.
    pub fn new(host: String, port: u16, watch_list: Vec<String>) -> (manager:
        BeanstalkdConnectionManager)
        ensures
            manager@ == (Settings { host: host@, port, watch_list: tube_names(watch_list@) }),
    {
        BeanstalkdConnectionManager { host, port, watch_list }
    }

    /// The configured host.
    pub fn host(&self) -> (host: &str)
        ensures
            host@ == self@.host,
    {
        self.host.as_str()
    }

    /// The configured port.
    pub fn port(&self) -> (port: u16)
        ensures
            port == self@.port,
    {
        self.port
    }

    /// The configured watch list.
    pub fn watch_list(&self) -> (tubes: &Vec<String>)
        ensures
            tube_names(tubes@) == self@.watch_list,
    {
        &self.watch_list
    }

    /// Carries an attempt to open a connection to its end. A failed attempt
    /// is handed on with its error. A connection that was opened is
    /// subscribed to the watch list and returned, unless a subscription
    /// fails: then it is dropped and that error is returned.
    pub fn complete(&self, attempt: Result<Connection, BeanstalkcError>) -> (r: Result<
        Connection,
        BeanstalkcError,
    >)
        ensures
            match attempt {
                Err(e) => r == Err::<Connection, BeanstalkcError>(e),
                Ok(fresh) => match r {
                    Ok(conn) => conn.extends(
                        &fresh,
                        watch_run(self@.watch_list, self@.watch_list.len() as int, None),
                    ),
                    Err(_) => self@.watch_list.len() > 0,
                },
            },
            self@.watch_list.len() == 0 ==> r == attempt,
    {
        match attempt {
            Ok(mut conn) => match conn.subscribe(&self.watch_list) {
                Ok(_) => Ok(conn),
                Err(e) => Err(e),
            },
            Err(e) => Err(e),
        }
    }

    /// Opens a connection to the configured daemon and subscribes it to the
    /// watch list. The first failure, of the connection attempt or of a
    /// subscription, ends the call with the client's error.
    pub fn connect(&self) -> (r: Result<Connection, BeanstalkcError>)
        ensures
            r matches Ok(conn) ==> self.opened(conn),
    {
        self.complete(Connection::open(self.host.as_str(), self.port))
    }

    /// Tests `conn` by asking the daemon for its statistics: that one
    /// request is made, its reply is discarded, and its failure is the
    /// failure of the test.
    pub fn is_valid(&self, conn: &mut Connection) -> (r: Result<(), BeanstalkcError>)
        ensures
            final(conn).extends(
                old(conn),
                seq![Exchange { request: Request::Stats, failure: failure_of(r) }],
            ),
    {
        match conn.stats() {
            Ok(_) => Ok(()),
            Err(e) => Err(e),
        }
    }

    /// Whether `conn` is known to be broken: never. Only `is_valid` finds a
    /// dead connection.
    pub fn has_broken(&self, conn: &mut Connection) -> (broken: bool)
        ensures
            !broken,
            *final(conn) == *old(conn),
    {
        false
    }
}

/// A manager without a watch list hands its connections out with nothing
/// asked of them.
pub proof fn lemma_empty_watch_list(manager: BeanstalkdConnectionManager, conn: Connection)
    requires
        manager@.watch_list.len() == 0,
        manager.opened(conn),
    ensures
        conn.history() == Seq::<Exchange>::empty(),
{
}

/// A manager can be used again and again: whatever it hands out was opened
/// to the same address and has been asked for the same tubes, those of the
/// watch list in their order and all of them granted.
pub proof fn lemma_connections_alike(
    manager: BeanstalkdConnectionManager,
    first: Connection,
    second: Connection,
)
    requires
        manager.opened(first),
        manager.opened(second),
    ensures
        first.host() == second.host(),
        first.port() == second.port(),
        first.history() == second.history(),
        requests(first.history()) == watch_requests(manager@.watch_list),
        forall|i: int|
            0 <= i < first.history().len() ==> (#[trigger] first.history()[i]).failure is None,
{
}

} // verus!
