//! The broker connection pool and its channel-acquisition policy.
//!
//! Brokers cap channels per connection, so the pool keeps an ordered,
//! append-only list of connections and grows lazily: a channel request
//! walks the existing connections in insertion order, moves past one only
//! on the broker's channels-limit signal, and opens a new connection only
//! when every existing one is saturated. The connections themselves live
//! outside the library; the pool tracks them by id and decides each step
//! of the walk.

use crate::error::{Error, ErrorKind};
use vstd::prelude::*;

verus! {

broadcast use vstd::std_specs::vec::group_vec_axioms, vstd::seq::group_seq_axioms;

/// What the connection manager is configured with.
#[derive(Debug, Clone)]
pub struct AmqpConnectionManagerConfig {
    pub connection_uri: String,
}

impl AmqpConnectionManagerConfig {
    /// Builds the configuration from the broker connection URI.
    pub fn new(connection_uri: String) -> (r: AmqpConnectionManagerConfig)
        ensures
            r.connection_uri@ == connection_uri@,
    {
        AmqpConnectionManagerConfig { connection_uri }
    }

    /// The broker connection URI.
    pub fn connection_uri(&self) -> (r: &str)
        ensures
            r@ == self.connection_uri@,
    {
        self.connection_uri.as_str()
    }
}

/// The next move of a channel request's walk over the pool.
#[derive(Debug, Clone, Copy, PartialEq, Eq, Structural)]
pub enum ChannelStep {
    /// Ask the connection at this index of the list for a channel.
    TryConnection(usize),
    /// Every existing connection is saturated: open a new connection.
    OpenNewConnection,
}

/// The pool: the configuration and the ids of the live connections, in
/// insertion order.
pub struct AmqpConnectionManager {
    pub config: AmqpConnectionManagerConfig,
    pub connections: Vec<u64>,
    pub next_connection_id: u64,
}

impl AmqpConnectionManager {
    /// Connection ids are handed out in increasing order, so the list is
    /// strictly increasing and every id is below the next one to assign.
    pub open spec fn wf(&self) -> bool {
        &&& forall|i: int| 0 <= i < self.connections@.len()
            ==> #[trigger] self.connections@[i] < self.next_connection_id
        &&& forall|i: int, j: int| 0 <= i < j < self.connections@.len()
            ==> #[trigger] self.connections@[i] < #[trigger] self.connections@[j]
    }

    /// A fresh pool with no connections yet.
    pub fn new(config: AmqpConnectionManagerConfig) -> (r: AmqpConnectionManager)
        ensures
            r.config == config,
            r.connections@.len() == 0,
            r.wf(),
    {
        AmqpConnectionManager { config, connections: Vec::new(), next_connection_id: 0 }
    }

    /// The broker connection URI new connections are opened with.
    pub fn connection_uri(&self) -> (r: &str)
        ensures
            r@ == self.config.connection_uri@,
    {
        self.config.connection_uri.as_str()
    }

    /// How many connections the pool holds.
    pub fn connection_count(&self) -> (r: usize)
        ensures
            r == self.connections@.len(),
    {
        self.connections.len()
    }

    /// The id of the connection at the given position of the list.
    pub fn connection_id_at(&self, index: usize) -> (r: u64)
        requires
            index < self.connections@.len(),
        ensures
            r == self.connections@[index as int],
    {
        self.connections[index]
    }

    /// Where a channel request starts: at the first existing connection,
    /// or straight at a new connection when the pool is empty.
    pub fn channel_request_start(&self) -> (r: ChannelStep)
        ensures
            self.connections@.len() > 0 ==> r == ChannelStep::TryConnection(0),
            self.connections@.len() == 0 ==> r == ChannelStep::OpenNewConnection,
    {
        if self.connections.len() > 0 {
            ChannelStep::TryConnection(0)
        } else {
            ChannelStep::OpenNewConnection
        }
    }

    /// Where the walk goes after the connection at `index` refused a
    /// channel. The channels-limit signal moves the walk to the next
    /// connection, or to a new one past the end of the list; any other
    /// refusal ends the request as a connection failure carrying the
    /// broker's words.
    pub fn channel_request_failed(
        &self,
        index: usize,
        channels_limit_reached: bool,
        detail: &str,
    ) -> (r: Result<ChannelStep, Error>)
        requires
            index < self.connections@.len(),
        ensures
            channels_limit_reached ==> r == if index + 1 < self.connections@.len() {
                Result::<ChannelStep, Error>::Ok(ChannelStep::TryConnection((index + 1) as usize))
            } else {
                Result::<ChannelStep, Error>::Ok(ChannelStep::OpenNewConnection)
            },
            !channels_limit_reached ==> {
                &&& r is Err
                &&& r->Err_0.kind == ErrorKind::ApiConnectionFailure
                &&& r->Err_0.message@ == "failed to create channel: "@ + detail@
            },
    {
        let n = self.connections.len();
        if channels_limit_reached {
            if index + 1 < n {
                Ok(ChannelStep::TryConnection(index + 1))
            } else {
                Ok(ChannelStep::OpenNewConnection)
            }
        } else {
            Err(Self::channel_creation_failure(detail))
        }
    }

    /// Records a newly opened connection: the list only ever grows at its
    /// end, so earlier positions keep their connections.
    pub fn note_new_connection(&mut self) -> (id: u64)
        requires
            old(self).wf(),
            old(self).next_connection_id < u64::MAX,
        ensures
            id == old(self).next_connection_id,
            final(self).connections@ == old(self).connections@.push(id),
            old(self).connections@.is_prefix_of(final(self).connections@),
            final(self).config == old(self).config,
            final(self).next_connection_id == old(self).next_connection_id + 1,
            final(self).wf(),
    {
        let id = self.next_connection_id;
        self.connections.push(id);
        self.next_connection_id = id + 1;
        id
    }

    /// The error for a broker that refused to open a connection.
    pub fn connect_failure(detail: &str) -> (r: Error)
        ensures
            r.kind == ErrorKind::ApiConnectionFailure,
            r.message@ == "API connection failure: "@ + detail@,
    {
        Error::with_detail(ErrorKind::ApiConnectionFailure, "API connection failure: ", detail)
    }

    /// The error for a broker that refused to create a channel for a
    /// reason other than its channel limit.
    pub fn channel_creation_failure(detail: &str) -> (r: Error)
        ensures
            r.kind == ErrorKind::ApiConnectionFailure,
            r.message@ == "failed to create channel: "@ + detail@,
    {
        Error::with_detail(ErrorKind::ApiConnectionFailure, "failed to create channel: ", detail)
    }

    /// The error for a pool mutex that could not be taken at once; the
    /// pool assumes no holder keeps it long, so contention is an internal
    /// failure rather than a wait.
    pub fn lock_failure(detail: &str) -> (r: Error)
        ensures
            r.kind == ErrorKind::InternalFailure,
            r.message@ == "failed to lock connections: "@ + detail@,
    {
        Error::with_detail(ErrorKind::InternalFailure, "failed to lock connections: ", detail)
    }
}

} // verus!
