//! Pool configuration builder.
use vstd::prelude::*;
use vstd::string::StringSliceAdditionalSpecFns;

use crate::connection::config::PgConfig;
use crate::error::Error;
use crate::options::{options_result, PgOptions};

verus! {

/// The number of connections a pool opens at most, unless configured.
pub const DEFAULT_MAX_CONN: usize = 10;

/// Pool configuration builder.
#[derive(Debug)]
pub struct PoolConfig {
    conn: PgOptions,
    max_conn: usize,
}

impl PoolConfig {
    /// The connection options.
    pub closed spec fn spec_conn(&self) -> PgOptions {
        self.conn
    }

    /// The most connections the pool opens.
    pub closed spec fn spec_max_conn(&self) -> usize {
        self.max_conn
    }

    /// Empty connection options and at most ten connections.
    pub fn new() -> (r: PoolConfig)
        ensures
            r.spec_max_conn() == DEFAULT_MAX_CONN,
            r.spec_conn().spec_config().spec_user() == Seq::<u8>::empty(),
            r.spec_conn().spec_config().spec_pass() == Seq::<u8>::empty(),
            r.spec_conn().spec_config().spec_host() == Seq::<u8>::empty(),
            r.spec_conn().spec_config().spec_port() == 0,
            r.spec_conn().spec_config().spec_dbname() == Seq::<u8>::empty(),
            r.spec_conn().spec_config().spec_socket() is None,
    {
        let config = PgConfig::empty();
        PoolConfig { conn: PgOptions::from_config(config), max_conn: DEFAULT_MAX_CONN }
    }

    /// Get connection config.
    pub fn connection(&self) -> (r: &PgOptions)
        ensures
            *r == self.spec_conn(),
    {
        &self.conn
    }

    /// The most connections the pool opens.
    pub fn max_conn(&self) -> (r: usize)
        ensures
            r == self.spec_max_conn(),
    {
        self.max_conn
    }

    /// Set max connection value.
    pub fn max_connection(self, value: usize) -> (r: PoolConfig)
        ensures
            r.spec_max_conn() == value,
            r.spec_conn() == self.spec_conn(),
    {
        let mut me = self;
        me.max_conn = value;
        me
    }

    /// Takes the connection options from `url`; the url's errors are
    /// those of [`PgOptions::parse`].
    pub fn with_url(self, url: &str) -> (r: Result<PoolConfig, Error>)
        ensures
            options_result(
                url.spec_bytes(),
                match r {
                    Ok(c) => Ok(c.spec_conn()),
                    Err(e) => Err(e),
                },
            ),
            r matches Ok(c) ==> c.spec_max_conn() == self.spec_max_conn(),
    {
        match PgOptions::parse(url) {
            Ok(conn) => {
                let mut me = self;
                me.conn = conn;
                Ok(me)
            },
            Err(e) => Err(e),
        }
    }
}

} // verus!
