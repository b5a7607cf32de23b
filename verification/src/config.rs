//! System configuration and its defaults. The hosting process reads a
//! configuration file and hands the parsed values over; every field here is
//! a plain value with a verified default.

use vstd::prelude::*;

verus! {

broadcast use vstd::string::group_string_axioms;

pub fn default_server_host() -> (r: String)
    ensures
        r@ == "0.0.0.0"@,
{
    "0.0.0.0".to_string()
}

pub fn default_server_port() -> (r: u16)
    ensures
        r == 8888,
{
    8888
}

pub fn default_security_auth_key() -> (r: String)
    ensures
        r@ == "unsafe-default-auth-key"@,
{
    "unsafe-default-auth-key".to_string()
}

pub fn default_db_url() -> (r: String)
    ensures
        r@ == "sqlite:./data.sqlite"@,
{
    "sqlite:./data.sqlite".to_string()
}

#[derive(Clone, Debug)]
pub struct Config {
    pub server: ServerConfig,
    pub security: SecurityConfig,
    pub db: DbConfig,
}

#[derive(Clone, Debug)]
pub struct ServerConfig {
    pub host: String,
    pub port: u16,
}

#[derive(Clone, Debug)]
pub struct SecurityConfig {
    pub auth_key: String,
}

#[derive(Clone, Debug)]
pub struct DbConfig {
    pub url: String,
}

/// A server configuration holding the default host and port.
pub open spec fn is_default_server_config(c: ServerConfig) -> bool {
    c.host@ == "0.0.0.0"@ && c.port == 8888
}

/// A security configuration holding the default authentication key.
pub open spec fn is_default_security_config(c: SecurityConfig) -> bool {
    c.auth_key@ == "unsafe-default-auth-key"@
}

/// A database configuration holding the default database url.
pub open spec fn is_default_db_config(c: DbConfig) -> bool {
    c.url@ == "sqlite:./data.sqlite"@
}

impl Default for ServerConfig {
    fn default() -> (r: Self)
        ensures
            is_default_server_config(r),
    {
        ServerConfig { host: default_server_host(), port: default_server_port() }
    }
}

impl Default for SecurityConfig {
    fn default() -> (r: Self)
        ensures
            is_default_security_config(r),
    {
        SecurityConfig { auth_key: default_security_auth_key() }
    }
}

impl Default for DbConfig {
    fn default() -> (r: Self)
        ensures
            is_default_db_config(r),
    {
        DbConfig { url: default_db_url() }
    }
}

impl Default for Config {
    fn default() -> (r: Self)
        ensures
            is_default_server_config(r.server),
            is_default_security_config(r.security),
            is_default_db_config(r.db),
    {
        Config {
            server: ServerConfig::default(),
            security: SecurityConfig::default(),
            db: DbConfig::default(),
        }
    }
}

/// Which database engine a connection url names: everything before the
/// first `:` (or the whole url when there is none).
#[derive(Clone, Copy, Debug, PartialEq, Eq, Structural)]
pub enum DbScheme {
    /// The one supported engine.
    Sqlite,
    /// An engine that is recognized but not supported yet.
    KnownUnsupported,
    /// Anything else.
    Unknown,
}

/// Length of the scheme part of a url: the number of bytes before the first
/// `:`, or all of them when there is none.
pub open spec fn scheme_len(s: Seq<u8>) -> nat
    decreases s.len(),
{
    if s.len() == 0 {
        0
    } else if s[0] == 58 {
        0
    } else {
        1 + scheme_len(s.drop_first())
    }
}

/// The scheme part of a url.
pub open spec fn scheme_of(s: Seq<u8>) -> Seq<u8> {
    s.take(scheme_len(s) as int)
}

proof fn lemma_scheme_len_is(s: Seq<u8>, i: int)
    requires
        0 <= i <= s.len(),
        forall|j: int| 0 <= j < i ==> s[j] != 58,
        i < s.len() ==> s[i] == 58,
    ensures
        scheme_len(s) == i,
    decreases s.len(),
{
    if s.len() == 0 || s[0] == 58 {
    } else {
        assert(i > 0);
        let t = s.drop_first();
        assert forall|j: int| 0 <= j < i - 1 implies t[j] != 58 by {
            assert(t[j] == s[j + 1]);
        }
        assert(i - 1 < t.len() ==> t[i - 1] == s[i]);
        lemma_scheme_len_is(t, i - 1);
    }
}

/// The bytes of `"sqlite"`.
pub open spec fn sqlite_scheme() -> Seq<u8> {
    seq![115u8, 113u8, 108u8, 105u8, 116u8, 101u8]
}

/// The bytes of `"postgres"`.
pub open spec fn postgres_scheme() -> Seq<u8> {
    seq![112u8, 111u8, 115u8, 116u8, 103u8, 114u8, 101u8, 115u8]
}

/// The bytes of `"mysql"`.
pub open spec fn mysql_scheme() -> Seq<u8> {
    seq![109u8, 121u8, 115u8, 113u8, 108u8]
}

/// The bytes of `"mssql"`.
pub open spec fn mssql_scheme() -> Seq<u8> {
    seq![109u8, 115u8, 115u8, 113u8, 108u8]
}

fn bytes_match(s: &Vec<u8>, upto: usize, pattern: &Vec<u8>) -> (r: bool)
    requires
        upto <= s@.len(),
    ensures
        r == (s@.take(upto as int) == pattern@),
{
    if upto != pattern.len() {
        proof {
            assert(s@.take(upto as int).len() == upto);
        }
        return false;
    }
    let mut i: usize = 0;
    while i < upto
        invariant
            i <= upto,
            upto <= s@.len(),
            upto == pattern@.len(),
            forall|j: int| 0 <= j < i ==> s@[j] == pattern@[j],
        decreases upto - i,
    {
        if s[i] != pattern[i] {
            proof {
                assert(s@.take(upto as int)[i as int] != pattern@[i as int]);
            }
            return false;
        }
        i = i + 1;
    }
    proof {
        assert(s@.take(upto as int) =~= pattern@);
    }
    true
}

/// Which engine a database url selects: the decision behind storage
/// start-up. Only a `sqlite:` url is run; `postgres:`, `mysql:` and
/// `mssql:` are recognized and refused; anything else is unknown.
pub fn classify_db_url(url: &Vec<u8>) -> (r: DbScheme)
    ensures
        r == DbScheme::Sqlite <==> scheme_of(url@) == sqlite_scheme(),
        r == DbScheme::KnownUnsupported <==> (scheme_of(url@) == postgres_scheme() || scheme_of(
            url@,
        ) == mysql_scheme() || scheme_of(url@) == mssql_scheme()),
{
    let mut i: usize = 0;
    let n = url.len();
    while i < n && url[i] != 58
        invariant
            i <= n,
            n == url@.len(),
            forall|j: int| 0 <= j < i ==> url@[j] != 58,
        decreases n - i,
    {
        i = i + 1;
    }
    proof {
        lemma_scheme_len_is(url@, i as int);
    }
    let sqlite: Vec<u8> = vec![115u8, 113u8, 108u8, 105u8, 116u8, 101u8];
    let postgres: Vec<u8> = vec![112u8, 111u8, 115u8, 116u8, 103u8, 114u8, 101u8, 115u8];
    let mysql: Vec<u8> = vec![109u8, 121u8, 115u8, 113u8, 108u8];
    let mssql: Vec<u8> = vec![109u8, 115u8, 115u8, 113u8, 108u8];
    proof {
        assert(sqlite@ =~= sqlite_scheme());
        assert(postgres@ =~= postgres_scheme());
        assert(mysql@ =~= mysql_scheme());
        assert(mssql@ =~= mssql_scheme());
    }
    if bytes_match(url, i, &sqlite) {
        DbScheme::Sqlite
    } else if bytes_match(url, i, &postgres) || bytes_match(url, i, &mysql) || bytes_match(
        url,
        i,
        &mssql,
    ) {
        DbScheme::KnownUnsupported
    } else {
        DbScheme::Unknown
    }
}

} // verus!
