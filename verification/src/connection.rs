//! A connection to the daemon, with the record of what was asked of it.

use crate::client;
use crate::history::failure_of;
use crate::history::requests;
use crate::history::tube_names;
use crate::history::watch_requests;
use crate::history::watch_run;
use crate::history::Exchange;
use crate::history::Request;
use beanstalkc::Beanstalkc;
use beanstalkc::BeanstalkcError;
use std::collections::HashMap;
use vstd::prelude::*;

verus! {

/// A client of the daemon, together with the history of what it has been
/// asked through this handle since the handle was made.
pub struct Connection {
    client: Beanstalkc,
    host: Ghost<Seq<char>>,
    port: Ghost<u16>,
    history: Ghost<Seq<Exchange>>,
}

impl Connection {
    /// The host that the connection was opened to.
    pub closed spec fn host(&self) -> Seq<char> {
        self.host@
    }

    /// The port that the connection was opened to.
    pub closed spec fn port(&self) -> u16 {
        self.port@
    }

    /// The client that the requests go through.
    pub closed spec fn handle(&self) -> Beanstalkc {
        self.client
    }

    /// Every call made on the client through this handle, oldest first.
    pub closed spec fn history(&self) -> Seq<Exchange> {
        self.history@
    }

    /// Whether `self` differs from `before` by exactly the exchanges `added`.
    pub open spec fn extends(&self, before: &Connection, added: Seq<Exchange>) -> bool {
        &&& self.host() == before.host()
        &&& self.port() == before.port()
        &&& self.history() =~= before.history() + added
    }

    /// How `subscribe` over `tubes` with result `r` takes a connection
    /// from `before` to `self`. On success every tube was asked for and
    /// granted. On failure with `e`, the tubes before some index were
    /// granted, the tube at that index was refused with `e`, and none after
    /// it was asked for.
    pub open spec fn subscribed(
        &self,
        before: &Connection,
        tubes: Seq<Seq<char>>,
        r: Result<(), BeanstalkcError>,
    ) -> bool {
        match r {
            Ok(_) => self.extends(before, watch_run(tubes, tubes.len() as int, None)),
            Err(e) => {
                let k = self.history().len() - before.history().len() - 1;
                &&& 0 <= k < tubes.len()
                &&& self.extends(before, watch_run(tubes, k, Some(e)))
            },
        }
    }

    /// Connects to the daemon at `host` and `port`. Whether that succeeds
    /// is for the network to decide; `established` says what becomes of
    /// either outcome.
    pub fn open(host: &str, port: u16) -> (r: Result<Connection, BeanstalkcError>)
        ensures
            r matches Ok(conn) ==> {
                &&& conn.host() == host@
                &&& conn.port() == port
                &&& conn.history() == Seq::<Exchange>::empty()
            },
    {
        Connection::established(host, port, client::dial(host, port))
    }

    /// What an attempt to connect to `host` and `port` comes to. A client
    /// that is connected becomes a connection to that address with nothing
    /// asked of it yet. An error is handed on as it is.
    pub fn established(host: &str, port: u16, dialed: Result<Beanstalkc, BeanstalkcError>) -> (r:
        Result<Connection, BeanstalkcError>)
        ensures
            match dialed {
                Ok(client) => {
                    &&& r matches Ok(conn)
                    &&& conn.handle() == client
                    &&& conn.host() == host@
                    &&& conn.port() == port
                    &&& conn.history() == Seq::<Exchange>::empty()
                },
                Err(e) => r == Err::<Connection, BeanstalkcError>(e),
            },
    {
        match dialed {
            Ok(client) => Ok(
                Connection {
                    client,
                    host: Ghost(host@),
                    port: Ghost(port),
                    history: Ghost(Seq::empty()),
                },
            ),
            Err(e) => Err(e),
        }
    }

    /// Takes over a client that was made elsewhere. Its history starts
    /// empty, and nothing is known of the address it belongs to.
    pub fn adopt(client: Beanstalkc) -> (conn: Connection)
        ensures
            conn.handle() == client,
            conn.history() == Seq::<Exchange>::empty(),
    {
        Connection {
            client,
            host: Ghost(arbitrary()),
            port: Ghost(arbitrary()),
            history: Ghost(Seq::empty()),
        }
    }

    /// The client itself, for the work that a checked-out connection is
    /// wanted for. The connection's client is lent out, and the state in
    /// which the borrower leaves it is the state that the connection's
    /// client then has. What is asked of it directly is not part of the
    /// history.
    pub fn client(&mut self) -> (client: &mut Beanstalkc)
        ensures
            *client == old(self).handle(),
            final(self).handle() == *final(client),
            final(self).host() == old(self).host(),
            final(self).port() == old(self).port(),
            final(self).history() == old(self).history(),
    {
        &mut self.client
    }

    /// Asks the daemon to add `tube` to the connection's watch list, and
    /// returns the number of tubes that the daemon then reports as watched.
    pub fn watch(&mut self, tube: &str) -> (r: Result<u64, BeanstalkcError>)
        ensures
            final(self).extends(
                old(self),
                seq![Exchange { request: Request::Watch(tube@), failure: failure_of(r) }],
            ),
    {
        let reply = client::watch(&mut self.client, tube);
        self.history = Ghost(
            self.history@.push(
                Exchange { request: Request::Watch(tube@), failure: failure_of(reply) },
            ),
        );
        reply
    }

    /// Asks the daemon for its statistics.
    pub fn stats(&mut self) -> (r: Result<HashMap<String, String>, BeanstalkcError>)
        ensures
            final(self).extends(
                old(self),
                seq![Exchange { request: Request::Stats, failure: failure_of(r) }],
            ),
    {
        let reply = client::stats(&mut self.client);
        self.history = Ghost(
            self.history@.push(Exchange { request: Request::Stats, failure: failure_of(reply) }),
        );
        reply
    }

    /// Subscribes to each tube of `tubes` in order, and stops at the first
    /// request that fails.
    pub fn subscribe(&mut self, tubes: &Vec<String>) -> (r: Result<(), BeanstalkcError>)
        ensures
            final(self).subscribed(old(self), tube_names(tubes@), r),
            tubes@.len() == 0 ==> r is Ok && *final(self) == *old(self),
    {
        let mut i: usize = 0;
        while i < tubes.len()
            invariant
                i <= tubes@.len(),
                self.extends(old(self), watch_run(tube_names(tubes@), i as int, None)),
                i == 0 ==> *self == *old(self),
            decreases tubes@.len() - i,
        {
            match self.watch(tubes[i].as_str()) {
                Ok(_) => {},
                Err(e) => return Err(e),
            }
            i += 1;
        }
        Ok(())
    }
}

/// A connection is no more than its client, the address it was opened to
/// and its history: two that agree in these are the same.
pub proof fn lemma_connection_determined(first: Connection, second: Connection)
    requires
        first.handle() == second.handle(),
        first.host() == second.host(),
        first.port() == second.port(),
        first.history() == second.history(),
    ensures
        first == second,
{
}

/// Subscribing puts watch requests only, one for each tube from the first
/// up to the last one asked for, in the list's order. When it succeeds that
/// is the whole list, each request granted. When it fails, the request that
/// failed is the last one made, so a failure of the `n`-th request means
/// that exactly `n` were made.
pub proof fn lemma_subscribe_requests(
    before: Connection,
    after: Connection,
    tubes: Seq<Seq<char>>,
    r: Result<(), BeanstalkcError>,
)
    requires
        after.subscribed(&before, tubes, r),
    ensures
        after.history().take(before.history().len() as int) == before.history(),
        r is Ok ==> requests(after.history()) == requests(before.history()) + watch_requests(
            tubes,
        ),
        r is Ok ==> forall|i: int|
            before.history().len() <= i < after.history().len() ==> (
            #[trigger] after.history()[i]).failure is None,
        r is Err ==> {
            let n = after.history().len() - before.history().len();
            &&& 1 <= n <= tubes.len()
            &&& requests(after.history()) == requests(before.history()) + watch_requests(
                tubes.take(n),
            )
            &&& after.history().last().failure == Some(r->Err_0)
            &&& forall|i: int|
                before.history().len() <= i < after.history().len() - 1 ==> (
                #[trigger] after.history()[i]).failure is None
        },
{
}

} // verus!
