//! The manager that a pool uses to create connections to the cluster.
use vstd::prelude::*;

use crate::connection::ConnectionInfo;
use crate::redis_bridge::{cluster_accepts, cluster_client_for, new_cluster_client};

verus! {

/// Creates connections to one Redis cluster, reached through its initial
/// nodes.
pub struct Manager {
    client: redis::cluster::ClusterClient,
    nodes: Vec<ConnectionInfo>,
}

impl Manager {
    /// The cluster client this manager opens connections with.
    pub closed spec fn cluster_client(&self) -> redis::cluster::ClusterClient {
        self.client
    }

    /// The initial nodes the manager reaches the cluster through.
    pub closed spec fn nodes(&self) -> Seq<ConnectionInfo> {
        self.nodes@
    }

    /// A manager for the cluster reached through `nodes`. It fails where the
    /// cluster client refuses the nodes: none at all, a unix socket among
    /// them, or a password (username) on the first node that some other node
    /// does not share.
    pub fn new(nodes: Vec<ConnectionInfo>) -> (r: Result<Manager, redis::RedisError>)
        ensures
            r is Ok <==> cluster_accepts(nodes@),
            r matches Ok(m) ==> m.nodes() == nodes@ && cluster_client_for(nodes@) == Ok::<
                redis::cluster::ClusterClient,
                redis::RedisError,
            >(m.cluster_client()),
            r matches Err(e) ==> cluster_client_for(nodes@) == Err::<
                redis::cluster::ClusterClient,
                redis::RedisError,
            >(e),
    {
        let kept = nodes.clone();
        assert(kept@ =~= nodes@);
        match new_cluster_client(nodes) {
            Ok(client) => Ok(Manager { client, nodes: kept }),
            Err(e) => Err(e),
        }
    }

    /// The cluster client that connections are opened with.
    pub fn client(&self) -> (c: &redis::cluster::ClusterClient)
        ensures
            *c == self.cluster_client(),
    {
        &self.client
    }

    /// The initial nodes the manager reaches the cluster through.
    pub fn initial_nodes(&self) -> (n: &[ConnectionInfo])
        ensures
            n@ == self.nodes(),
    {
        self.nodes.as_slice()
    }
}

} // verus!
