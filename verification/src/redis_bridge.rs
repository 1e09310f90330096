//! The points where this library meets the `redis` crate and std types that
//! vstd leaves unspecified: type declarations, and the wrappers whose
//! contracts are trusted.
use std::path::PathBuf;
use vstd::prelude::*;

use crate::connection::{ConnectionAddr, ConnectionInfo};
use redis::ConnectionAddr as RedisAddr;
use redis::ConnectionInfo as RedisNode;
use redis::RedisConnectionInfo as RedisNodeSettings;

verus! {

/// `redis::RedisConnectionInfo`: all of its fields are public plain values,
/// so Verus reads them.
#[verifier::external_type_specification]
pub struct ExRedisConnectionInfo(RedisNodeSettings);

/// `redis::ConnectionInfo`: an address and the per-connection settings.
#[verifier::external_type_specification]
pub struct ExConnectionInfo(RedisNode);

/// `redis::ConnectionAddr` holds a TLS parameter type that `redis` keeps
/// private, so the address stays opaque here.
#[verifier::external_type_specification]
#[verifier::external_body]
pub struct ExConnectionAddr(RedisAddr);

/// `redis::RedisError`, carried through as an opaque value.
#[verifier::external_type_specification]
#[verifier::external_body]
pub struct ExRedisError(redis::RedisError);

/// `redis::cluster::ClusterClient`, carried through as an opaque value.
#[verifier::external_type_specification]
#[verifier::external_body]
pub struct ExClusterClient(redis::cluster::ClusterClient);

/// `std::path::PathBuf`, the path of a unix socket, carried through as an
/// opaque value.
#[verifier::external_type_specification]
#[verifier::external_body]
pub struct ExPathBuf(std::path::PathBuf);

/// Trusted: `<PathBuf as Clone>::clone` gives back an equal path.
#[verifier::external_body]
pub(crate) fn clone_path(p: &PathBuf) -> (r: PathBuf)
    ensures
        r == *p,
{
    p.clone()
}

/// The connection settings that `redis` reads out of a URL
/// (`redis://[<user>][:<password>@]<host>[:<port>][/<db>]`, `unix://<path>`,
/// ...), or the error with which `redis` refuses the URL. Parsing a URL
/// depends on nothing but its text.
pub uninterp spec fn redis_url_connection_info(url: Seq<char>) -> Result<
    ConnectionInfo,
    redis::RedisError,
>;

/// Trusted: `<&str as redis::IntoConnectionInfo>::into_connection_info`
/// parses `url`; the result is `redis_url_connection_info(url@)`, converted
/// field for field into this library's `ConnectionInfo`.
#[verifier::external_body]
pub(crate) fn parse_redis_url(url: &str) -> (r: Result<ConnectionInfo, redis::RedisError>)
    ensures
        r == redis_url_connection_info(url@),
{
    match redis::IntoConnectionInfo::into_connection_info(url) {
        Ok(info) => Ok(ConnectionInfo::from(info)),
        Err(e) => Err(e),
    }
}

/// The content of an optional string, as compared by `!=` on `Option<String>`.
pub open spec fn opt_str_view(s: Option<String>) -> Option<Seq<char>> {
    match s {
        Some(v) => Some(v@),
        None => None,
    }
}

/// What `redis::cluster::ClusterClientBuilder::build` checks of the initial
/// nodes when no password, username or TLS mode was set on the builder:
/// there is at least one node, no node is a unix socket, and where the first
/// node has a password (a username) every node has the same one.
pub open spec fn cluster_accepts(nodes: Seq<ConnectionInfo>) -> bool {
    &&& nodes.len() > 0
    &&& forall|i: int|
        0 <= i < nodes.len() ==> {
            &&& !(#[trigger] nodes[i].addr is Unix)
            &&& nodes[0].redis.password is Some ==> opt_str_view(nodes[i].redis.password)
                == opt_str_view(nodes[0].redis.password)
            &&& nodes[0].redis.username is Some ==> opt_str_view(nodes[i].redis.username)
                == opt_str_view(nodes[0].redis.username)
        }
}

/// What `redis::cluster::ClusterClient::new` gives for these initial nodes:
/// the client, which holds the nodes and settings taken from the first of
/// them, or the error of the first check that fails. Nothing else goes into
/// it.
pub uninterp spec fn cluster_client_for(nodes: Seq<ConnectionInfo>) -> Result<
    redis::cluster::ClusterClient,
    redis::RedisError,
>;

/// Trusted: `redis::cluster::ClusterClient::new` on the nodes, converted field
/// for field into `redis::ConnectionInfo`, succeeds exactly when
/// `cluster_accepts` holds of them (the checks of
/// `ClusterClientBuilder::build`; it opens no connection); what it gives is
/// `cluster_client_for(nodes@)`.
#[verifier::external_body]
pub(crate) fn new_cluster_client(nodes: Vec<ConnectionInfo>) -> (r: Result<
    redis::cluster::ClusterClient,
    redis::RedisError,
>)
    ensures
        r is Ok <==> cluster_accepts(nodes@),
        r == cluster_client_for(nodes@),
{
    redis::cluster::ClusterClient::new(nodes.into_iter().map(redis::ConnectionInfo::from))
}

/// Trusted: `num_cpus::get_physical`, the number of physical cores of this
/// machine, is at least 1, as its documentation says. Its value depends on
/// the machine and is not stated.
#[verifier::external_body]
pub(crate) fn physical_cpu_count() -> (n: usize)
    ensures
        n >= 1,
{
    num_cpus::get_physical()
}

} // verus!

verus! {

/// Trusted: std's reflexive `impl<A> From<A> for A` returns its argument
/// unchanged, as its documentation says. `Config::from_urls` reaches it
/// through `Into` when it is given a `Vec<String>`.
pub assume_specification<A>[ <A as core::convert::From<A>>::from ](a: A) -> (r: A)
    ensures
        r == a,
;

} // verus!
