//! Connection parameters.

use crate::text::{decimal, push_decimal};
use vstd::prelude::*;
use vstd::string::StringExecFns;

verus! {

/// The closed set of supported engines.
#[derive(Clone, Copy, Debug, PartialEq, Eq, Structural)]
pub enum DatabaseType {
    PostgreSQL,
    MySQL,
}

/// The kind of surface that a backend offers.
#[derive(Clone, Copy, Debug, PartialEq, Eq, Structural)]
pub enum DatabaseCategory {
    /// Schemas, tables and columns, with row-level mutation.
    Relational,
    /// Containers, items and fields only.
    Generic,
}

/// What it takes to open a session: the engine, where it listens, the
/// credentials, the database to use and whether to ask for TLS.
#[derive(Clone, Debug)]
pub struct ConnectionConfig {
    pub id: String,
    pub name: String,
    pub db_type: DatabaseType,
    pub host: String,
    pub port: u16,
    pub username: String,
    pub password: String,
    pub database: String,
    pub use_ssl: bool,
}

impl ConnectionConfig {
    /// The part of the URL that both engines share:
    /// `user:password@host:port/database`.
    pub open spec fn url_body(&self) -> Seq<char> {
        self.username@ + ":"@ + self.password@ + "@"@ + self.host@ + ":"@ + decimal(
            self.port as nat,
        ) + "/"@ + self.database@
    }

    /// The connection URL.
    ///
    /// For PostgreSQL it is `postgres://` and the body, then `?sslmode=require`
    /// with TLS and `?sslmode=disable` without. For MySQL it is `mysql://` and
    /// the body, then `?ssl-mode=REQUIRED` with TLS and nothing without.
    pub open spec fn url(&self) -> Seq<char> {
        match self.db_type {
            DatabaseType::PostgreSQL => "postgres://"@ + self.url_body() + "?sslmode="@ + (
            if self.use_ssl {
                "require"@
            } else {
                "disable"@
            }),
            DatabaseType::MySQL => if self.use_ssl {
                "mysql://"@ + self.url_body() + "?ssl-mode=REQUIRED"@
            } else {
                "mysql://"@ + self.url_body()
            },
        }
    }

    /// Appends `user:password@host:port/database` to a string.
    fn push_url_body(&self, out: &mut String)
        ensures
            final(out)@ == old(out)@ + self.url_body(),
    {
        out.append(self.username.as_str());
        out.append(":");
        out.append(self.password.as_str());
        out.append("@");
        out.append(self.host.as_str());
        out.append(":");
        push_decimal(out, self.port as u64);
        out.append("/");
        out.append(self.database.as_str());
        proof {
            assert(final(out)@ =~= old(out)@ + self.url_body());
        }
    }

    /// Builds the connection URL. The parts are put in as they are, without
    /// escaping.
    pub fn to_connection_url(&self) -> (url: String)
        ensures
            url@ == self.url(),
    {
        let mut url = String::new();
        match self.db_type {
            DatabaseType::PostgreSQL => {
                url.append("postgres://");
                self.push_url_body(&mut url);
                url.append("?sslmode=");
                if self.use_ssl {
                    url.append("require");
                } else {
                    url.append("disable");
                }
            },
            DatabaseType::MySQL => {
                url.append("mysql://");
                self.push_url_body(&mut url);
                if self.use_ssl {
                    url.append("?ssl-mode=REQUIRED");
                }
            },
        }
        proof {
            assert(url@ =~= self.url());
        }
        url
    }
}

} // verus!
