//! Connection parameters of a Redis node, in a form this library owns, with
//! the conversions to and from the `redis` crate's types.
use std::path::PathBuf;
use vstd::prelude::*;

use crate::redis_bridge::clone_path;

verus! {

/// Copies an optional string.
fn clone_opt_string(s: &Option<String>) -> (r: Option<String>)
    ensures
        r == *s,
{
    match s {
        Some(v) => Some(v.clone()),
        None => None,
    }
}

/// Where to connect to: the same three forms as `redis::ConnectionAddr`.
#[derive(Debug)]
pub enum ConnectionAddr {
    /// Format for this is `(host, port)`.
    Tcp(String, u16),
    /// Format for this is `(host, port)`.
    TcpTls {
        /// Hostname.
        host: String,
        /// Port.
        port: u16,
        /// Disable hostname verification when connecting.
        ///
        /// # Warning
        ///
        /// You should think very carefully before you use this method. If
        /// hostname verification is not used, any valid certificate for any
        /// site will be trusted for use from any other. This introduces a
        /// significant vulnerability to man-in-the-middle attacks.
        insecure: bool,
    },
    /// Format for this is the path to the unix socket.
    Unix(PathBuf),
}

impl ConnectionAddr {
    /// `127.0.0.1:6379` over plain TCP.
    pub open spec fn is_local_default(self) -> bool {
        self matches ConnectionAddr::Tcp(host, port) && host@ == "127.0.0.1"@ && port == 6379
    }
}

impl Clone for ConnectionAddr {
    fn clone(&self) -> (r: Self)
        ensures
            r == *self,
    {
        match self {
            ConnectionAddr::Tcp(host, port) => ConnectionAddr::Tcp(host.clone(), *port),
            ConnectionAddr::TcpTls { host, port, insecure } => ConnectionAddr::TcpTls {
                host: host.clone(),
                port: *port,
                insecure: *insecure,
            },
            ConnectionAddr::Unix(path) => ConnectionAddr::Unix(clone_path(path)),
        }
    }
}

impl Default for ConnectionAddr {
    fn default() -> (r: Self)
        ensures
            r.is_local_default(),
    {
        let host = "127.0.0.1".to_owned();
        proof {
            reveal_strlit("127.0.0.1");
        }
        ConnectionAddr::Tcp(host, 6379)
    }
}

/// Trusted conversion: each variant becomes the `redis::ConnectionAddr`
/// variant of the same name with the same fields, and no TLS parameters.
/// `redis::ConnectionAddr` is opaque to Verus, so nothing about the result is
/// stated.
impl From<ConnectionAddr> for redis::ConnectionAddr {
    #[verifier::external_body]
    fn from(addr: ConnectionAddr) -> Self {
        match addr {
            ConnectionAddr::Tcp(host, port) => Self::Tcp(host, port),
            ConnectionAddr::TcpTls { host, port, insecure } => Self::TcpTls {
                host,
                port,
                insecure,
                tls_params: None,
            },
            ConnectionAddr::Unix(path) => Self::Unix(path),
        }
    }
}

/// `theirs` is what `From<ConnectionAddr>` gives for `addr`.
pub open spec fn converted_from(addr: ConnectionAddr, theirs: redis::ConnectionAddr) -> bool {
    call_ensures(<redis::ConnectionAddr as From<ConnectionAddr>>::from, (addr,), theirs)
}

/// Trusted conversion: each `redis::ConnectionAddr` variant becomes the
/// variant of the same name with the same fields; TLS parameters are dropped.
/// The argument is opaque to Verus; what is stated is that this undoes the
/// conversion the other way: an address that `From<ConnectionAddr>` made
/// from `a` converts back to `a`.
impl From<redis::ConnectionAddr> for ConnectionAddr {
    #[verifier::external_body]
    fn from(addr: redis::ConnectionAddr) -> (r: Self)
        ensures
            forall|a: ConnectionAddr| #[trigger] converted_from(a, addr) ==> r == a,
    {
        match addr {
            redis::ConnectionAddr::Tcp(host, port) => Self::Tcp(host, port),
            redis::ConnectionAddr::TcpTls { host, port, insecure, tls_params: _ } => {
                ConnectionAddr::TcpTls { host, port, insecure }
            },
            redis::ConnectionAddr::Unix(path) => Self::Unix(path),
        }
    }
}

/// Settings of a connection that do not depend on the address, the same
/// fields as `redis::RedisConnectionInfo`.
#[derive(Debug)]
pub struct RedisConnectionInfo {
    /// The database number to use. This is usually `0`.
    pub db: i64,
    /// Optionally a username that should be used for connection.
    pub username: Option<String>,
    /// Optionally a password that should be used for connection.
    pub password: Option<String>,
}

impl RedisConnectionInfo {
    /// Database 0, no username, no password.
    pub open spec fn is_default(self) -> bool {
        self.db == 0 && self.username is None && self.password is None
    }
}

impl Clone for RedisConnectionInfo {
    fn clone(&self) -> (r: Self)
        ensures
            r == *self,
    {
        RedisConnectionInfo {
            db: self.db,
            username: clone_opt_string(&self.username),
            password: clone_opt_string(&self.password),
        }
    }
}

impl Default for RedisConnectionInfo {
    fn default() -> (r: Self)
        ensures
            r.is_default(),
    {
        RedisConnectionInfo { db: 0, username: None, password: None }
    }
}

impl From<RedisConnectionInfo> for redis::RedisConnectionInfo {
    fn from(info: RedisConnectionInfo) -> (r: Self)
        ensures
            r.db == info.db,
            r.username == info.username,
            r.password == info.password,
    {
        redis::RedisConnectionInfo { db: info.db, username: info.username, password: info.password }
    }
}

impl vstd::std_specs::convert::FromSpecImpl<RedisConnectionInfo> for redis::RedisConnectionInfo {
    open spec fn obeys_from_spec() -> bool {
        true
    }

    open spec fn from_spec(info: RedisConnectionInfo) -> redis::RedisConnectionInfo {
        redis::RedisConnectionInfo { db: info.db, username: info.username, password: info.password }
    }
}

impl From<redis::RedisConnectionInfo> for RedisConnectionInfo {
    fn from(info: redis::RedisConnectionInfo) -> (r: Self)
        ensures
            r.db == info.db,
            r.username == info.username,
            r.password == info.password,
    {
        RedisConnectionInfo { db: info.db, username: info.username, password: info.password }
    }
}

impl vstd::std_specs::convert::FromSpecImpl<redis::RedisConnectionInfo> for RedisConnectionInfo {
    open spec fn obeys_from_spec() -> bool {
        true
    }

    open spec fn from_spec(info: redis::RedisConnectionInfo) -> RedisConnectionInfo {
        RedisConnectionInfo { db: info.db, username: info.username, password: info.password }
    }
}

/// Converting the settings to `redis::RedisConnectionInfo` and back gives
/// them back unchanged, and so does the way round from the `redis` side.
pub proof fn lemma_settings_round_trip(info: RedisConnectionInfo, theirs: redis::RedisConnectionInfo)
    ensures
        <RedisConnectionInfo as vstd::std_specs::convert::FromSpec<redis::RedisConnectionInfo>>::from_spec(
            <redis::RedisConnectionInfo as vstd::std_specs::convert::FromSpec<RedisConnectionInfo>>::from_spec(info),
        ) == info,
        <redis::RedisConnectionInfo as vstd::std_specs::convert::FromSpec<RedisConnectionInfo>>::from_spec(
            <RedisConnectionInfo as vstd::std_specs::convert::FromSpec<redis::RedisConnectionInfo>>::from_spec(theirs),
        ) == theirs,
{
}

/// Everything needed to connect to one Redis node: the same fields as
/// `redis::ConnectionInfo`.
#[derive(Debug)]
pub struct ConnectionInfo {
    /// A connection address for where to connect to.
    pub addr: ConnectionAddr,
    /// The settings of the connection that do not depend on the address.
    pub redis: RedisConnectionInfo,
}

impl ConnectionInfo {
    /// `127.0.0.1:6379` over TCP, database 0, no username, no password.
    pub open spec fn is_default(self) -> bool {
        self.addr.is_local_default() && self.redis.is_default()
    }
}

impl Clone for ConnectionInfo {
    fn clone(&self) -> (r: Self)
        ensures
            r == *self,
    {
        ConnectionInfo { addr: self.addr.clone(), redis: self.redis.clone() }
    }
}

impl Default for ConnectionInfo {
    fn default() -> (r: Self)
        ensures
            r.is_default(),
    {
        ConnectionInfo { addr: ConnectionAddr::default(), redis: RedisConnectionInfo::default() }
    }
}

/// The address as `From<ConnectionAddr>` converts it, and the other settings
/// field for field.
impl From<ConnectionInfo> for redis::ConnectionInfo {
    fn from(info: ConnectionInfo) -> (r: Self)
        ensures
            converted_from(info.addr, r.addr),
            r.redis.db == info.redis.db,
            r.redis.username == info.redis.username,
            r.redis.password == info.redis.password,
    {
        Self { addr: info.addr.into(), redis: info.redis.into() }
    }
}

/// The address of a `redis::ConnectionInfo` has no spec value, so this
/// conversion claims no `from_spec`; its own `ensures` say what it does.
impl vstd::std_specs::convert::FromSpecImpl<ConnectionInfo> for redis::ConnectionInfo {
    open spec fn obeys_from_spec() -> bool {
        false
    }

    open spec fn from_spec(info: ConnectionInfo) -> redis::ConnectionInfo {
        vstd::pervasive::arbitrary()
    }
}

/// The address as `From<redis::ConnectionAddr>` converts it, and the other
/// settings field for field.
impl From<redis::ConnectionInfo> for ConnectionInfo {
    fn from(info: redis::ConnectionInfo) -> (r: Self)
        ensures
            call_ensures(<ConnectionAddr as From<redis::ConnectionAddr>>::from, (info.addr,), r.addr),
            r.redis.db == info.redis.db,
            r.redis.username == info.redis.username,
            r.redis.password == info.redis.password,
    {
        Self { addr: info.addr.into(), redis: info.redis.into() }
    }
}

/// The address of a `redis::ConnectionInfo` has no spec value, so this
/// conversion claims no `from_spec`; its own `ensures` say what it does.
impl vstd::std_specs::convert::FromSpecImpl<redis::ConnectionInfo> for ConnectionInfo {
    open spec fn obeys_from_spec() -> bool {
        false
    }

    open spec fn from_spec(info: redis::ConnectionInfo) -> ConnectionInfo {
        vstd::pervasive::arbitrary()
    }
}

/// Converting a node's parameters to `redis::ConnectionInfo` and back gives
/// them back unchanged: the address, the database, the username and the
/// password.
pub proof fn lemma_node_round_trip(
    info: ConnectionInfo,
    theirs: redis::ConnectionInfo,
    back: ConnectionInfo,
)
    requires
        call_ensures(<redis::ConnectionInfo as From<ConnectionInfo>>::from, (info,), theirs),
        call_ensures(<ConnectionInfo as From<redis::ConnectionInfo>>::from, (theirs,), back),
    ensures
        back == info,
{
    // The address conversion's contract speaks of its argument tuple.
    let args = (theirs.addr,);
    assert(converted_from(info.addr, args.0));
    assert(back.addr == info.addr);
    assert(back.redis == info.redis);
}

} // verus!
