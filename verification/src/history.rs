//! The record of what a connection's client has been asked.
//!
//! A history is a sequence of exchanges, oldest first. Each exchange is one
//! call made on the client: the request, and whether the client reported
//! success or an error. These are ghost values: they are what the contracts
//! of the library speak about, and no running code holds them.

use beanstalkc::BeanstalkcError;
use vstd::prelude::*;

verus! {

/// A request that the client can be asked to put to the daemon.
pub enum Request {
    /// Subscribe the connection to the named tube.
    Watch(Seq<char>),
    /// Report the daemon's statistics.
    Stats,
}

/// One call made on the client, and how it ended.
pub struct Exchange {
    /// What was asked.
    pub request: Request,
    /// `None` where the client reported success, otherwise the error that it
    /// reported.
    pub failure: Option<BeanstalkcError>,
}

/// The failure that the result of a call on the client stands for.
pub open spec fn failure_of<T>(reply: Result<T, BeanstalkcError>) -> Option<BeanstalkcError> {
    match reply {
        Ok(_) => None,
        Err(e) => Some(e),
    }
}

/// The exchanges of a run of subscriptions over `tubes`, taken in order,
/// in which the first `granted` requests succeed and, where `failure` is an
/// error, the request after them fails with it and ends the run.
pub open spec fn watch_run(
    tubes: Seq<Seq<char>>,
    granted: int,
    failure: Option<BeanstalkcError>,
) -> Seq<Exchange> {
    Seq::new(
        (if failure is Some { granted + 1 } else { granted }) as nat,
        |i: int| Exchange {
            request: Request::Watch(tubes[i]),
            failure: if i < granted { None } else { failure },
        },
    )
}

/// The requests of a history, outcomes left out.
pub open spec fn requests(history: Seq<Exchange>) -> Seq<Request> {
    history.map_values(|x: Exchange| x.request)
}

/// One watch request for each tube, in order.
pub open spec fn watch_requests(tubes: Seq<Seq<char>>) -> Seq<Request> {
    tubes.map_values(|t: Seq<char>| Request::Watch(t))
}

/// The tube names of a watch list.
pub open spec fn tube_names(tubes: Seq<String>) -> Seq<Seq<char>> {
    tubes.map_values(|t: String| t@)
}

} // verus!
