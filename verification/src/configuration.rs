//! Configuration values of the assistant, and the addresses derived from them.
//!
//! A `Configuration` is an immutable value: it is built once, when the process
//! starts, and handed to the components that need it.

use vstd::prelude::*;
use vstd::string::*;
use crate::text::{decimal, decimal_string};

verus! {

/// `mark` if `part` is not empty, and nothing otherwise.
pub open spec fn mark_before(mark: char, part: Seq<char>) -> Seq<char> {
    if part.len() == 0 {
        Seq::empty()
    } else {
        seq![mark]
    }
}

/// The part of a connection URL that says where the store is and who asks:
/// `schema`, then `username:password@`, then `host:port`, where a `:` stands
/// only before a non-empty password or port, and the `@` only after a
/// non-empty username.
pub open spec fn location_text(
    schema: Seq<char>,
    username: Seq<char>,
    password: Seq<char>,
    host: Seq<char>,
    port: Seq<char>,
) -> Seq<char> {
    schema + username + mark_before(':', password) + password + mark_before('@', username) + host
        + mark_before(':', port) + port
}

/// A connection URL: the location, then `/` and the database name. The `/` is
/// left out when the database name is empty, and when the location is the bare
/// schema.
pub open spec fn url_text(
    schema: Seq<char>,
    username: Seq<char>,
    password: Seq<char>,
    host: Seq<char>,
    port: Seq<char>,
    database: Seq<char>,
) -> Seq<char> {
    let location = location_text(schema, username, password, host, port);
    location + (if database.len() == 0 || location == schema {
        Seq::empty()
    } else {
        seq!['/']
    }) + database
}

/// The schema of a Postgres connection URL.
pub open spec fn postgres_schema() -> Seq<char> {
    "postgresql://"@
}

/// The schema of a Redis connection URL.
pub open spec fn redis_schema() -> Seq<char> {
    "redis://"@
}

/// A server address: the host, a colon, and the port in decimal.
pub open spec fn addr_text(host: Seq<char>, port: nat) -> Seq<char> {
    host + seq![':'] + decimal(port)
}

/// Appends `mark` to `text` if `part` is not empty.
fn append_mark(text: &mut String, mark: &str, part: &str)
    requires
        mark@.len() == 1,
    ensures
        final(text)@ == old(text)@ + mark_before(mark@[0], part@),
{
    if !part.is_empty() {
        text.append(mark);
        assert(mark@ =~= seq![mark@[0]]);
    } else {
        assert(text@ =~= old(text)@ + Seq::<char>::empty());
    }
}

/// Builds the connection URL of a store from the parts of its configuration.
fn connection_url(
    schema: &str,
    username: &str,
    password: &str,
    host: &str,
    port: &str,
    database: &str,
) -> (url: String)
    ensures
        url@ == url_text(schema@, username@, password@, host@, port@, database@),
{
    proof {
        reveal_strlit(":");
        reveal_strlit("@");
        reveal_strlit("/");
    }
    let mut location = String::from_str(schema);
    location.append(username);
    append_mark(&mut location, ":", password);
    location.append(password);
    append_mark(&mut location, "@", username);
    location.append(host);
    append_mark(&mut location, ":", port);
    location.append(port);
    assert(location@ == location_text(schema@, username@, password@, host@, port@));
    let bare = location == String::from_str(schema);
    let mut url = location;
    if !(database.is_empty() || bare) {
        url.append("/");
        assert("/"@ =~= seq!['/']);
    } else {
        assert(url@ =~= url@ + Seq::<char>::empty());
    }
    url.append(database);
    url
}

/// How the assistant signs in to the chat platform.
#[derive(Debug)]
pub struct DiscordConfiguration {
    pub token: String,
    pub prefix: String,
}

impl Clone for DiscordConfiguration {
    fn clone(&self) -> (copy: Self)
        ensures
            copy == *self,
    {
        DiscordConfiguration { token: self.token.clone(), prefix: self.prefix.clone() }
    }
}

impl Default for DiscordConfiguration {
    /// No token, and `>` as the command prefix.
    fn default() -> (config: Self)
        ensures
            config.token@ == Seq::<char>::empty(),
            config.prefix@ == ">"@,
    {
        DiscordConfiguration { token: String::new(), prefix: String::from_str(">") }
    }
}

/// Where the relational store is, and how to sign in to it.
#[derive(Debug)]
pub struct PostgresConfiguration {
    pub host: String,
    pub port: String,
    pub username: String,
    pub password: String,
    pub database: String,
}

impl Clone for PostgresConfiguration {
    fn clone(&self) -> (copy: Self)
        ensures
            copy == *self,
    {
        PostgresConfiguration {
            host: self.host.clone(),
            port: self.port.clone(),
            username: self.username.clone(),
            password: self.password.clone(),
            database: self.database.clone(),
        }
    }
}

impl Default for PostgresConfiguration {
    /// The store on `localhost`, port `5432`, with no user and no database named.
    fn default() -> (config: Self)
        ensures
            config.host@ == "localhost"@,
            config.port@ == "5432"@,
            config.username@ == Seq::<char>::empty(),
            config.password@ == Seq::<char>::empty(),
            config.database@ == Seq::<char>::empty(),
    {
        PostgresConfiguration {
            host: String::from_str("localhost"),
            port: String::from_str("5432"),
            username: String::new(),
            password: String::new(),
            database: String::new(),
        }
    }
}

impl PostgresConfiguration {
    /// The URL under which the relational store is reached.
    pub fn as_url(&self) -> (url: String)
        ensures
            url@ == url_text(
                postgres_schema(),
                self.username@,
                self.password@,
                self.host@,
                self.port@,
                self.database@,
            ),
    {
        connection_url(
            "postgresql://",
            self.username.as_str(),
            self.password.as_str(),
            self.host.as_str(),
            self.port.as_str(),
            self.database.as_str(),
        )
    }
}

/// Where the cache is, how to sign in to it, and how many connections to keep.
#[derive(Debug)]
pub struct RedisConfiguration {
    pub host: String,
    pub port: String,
    pub username: String,
    pub password: String,
    pub database: String,
    pub max_connections: usize,
}

impl Clone for RedisConfiguration {
    fn clone(&self) -> (copy: Self)
        ensures
            copy == *self,
    {
        RedisConfiguration {
            host: self.host.clone(),
            port: self.port.clone(),
            username: self.username.clone(),
            password: self.password.clone(),
            database: self.database.clone(),
            max_connections: self.max_connections,
        }
    }
}

impl Default for RedisConfiguration {
    /// The cache on `localhost`, port `6379`, with no user and no database
    /// named, and at most ten connections.
    fn default() -> (config: Self)
        ensures
            config.host@ == "localhost"@,
            config.port@ == "6379"@,
            config.username@ == Seq::<char>::empty(),
            config.password@ == Seq::<char>::empty(),
            config.database@ == Seq::<char>::empty(),
            config.max_connections == 10,
    {
        RedisConfiguration {
            host: String::from_str("localhost"),
            port: String::from_str("6379"),
            username: String::new(),
            password: String::new(),
            database: String::new(),
            max_connections: 10,
        }
    }
}

impl RedisConfiguration {
    /// The URL under which the cache is reached.
    pub fn as_url(&self) -> (url: String)
        ensures
            url@ == url_text(
                redis_schema(),
                self.username@,
                self.password@,
                self.host@,
                self.port@,
                self.database@,
            ),
    {
        connection_url(
            "redis://",
            self.username.as_str(),
            self.password.as_str(),
            self.host.as_str(),
            self.port.as_str(),
            self.database.as_str(),
        )
    }
}

/// Where the web surface listens, and under which name the assistant goes.
#[derive(Debug)]
pub struct ServerConfiguration {
    pub name: String,
    pub host: String,
    pub port: usize,
    pub use_tls: bool,
    pub tls_pem: String,
    pub tls_key: String,
}

impl Clone for ServerConfiguration {
    fn clone(&self) -> (copy: Self)
        ensures
            copy == *self,
    {
        ServerConfiguration {
            name: self.name.clone(),
            host: self.host.clone(),
            port: self.port,
            use_tls: self.use_tls,
            tls_pem: self.tls_pem.clone(),
            tls_key: self.tls_key.clone(),
        }
    }
}

impl Default for ServerConfiguration {
    /// A server named `Bureaucrat` on `127.0.0.1`, port 3001, without TLS.
    fn default() -> (config: Self)
        ensures
            config.name@ == "Bureaucrat"@,
            config.host@ == "127.0.0.1"@,
            config.port == 3001,
            !config.use_tls,
            config.tls_pem@ == Seq::<char>::empty(),
            config.tls_key@ == Seq::<char>::empty(),
    {
        ServerConfiguration {
            name: String::from_str("Bureaucrat"),
            host: String::from_str("127.0.0.1"),
            port: 3001,
            use_tls: false,
            tls_pem: String::new(),
            tls_key: String::new(),
        }
    }
}

impl ServerConfiguration {
    /// The address the server listens on, as `host:port`.
    pub fn as_addr(&self) -> (addr: String)
        ensures
            addr@ == addr_text(self.host@, self.port as nat),
    {
        proof {
            reveal_strlit(":");
        }
        let mut addr = self.host.clone();
        addr.append(":");
        assert(":"@ =~= seq![':']);
        let port = decimal_string(self.port as u64);
        addr.append(port.as_str());
        addr
    }
}

/// Everything the assistant is configured with.
#[derive(Debug)]
pub struct Configuration {
    pub debug: bool,
    pub discord: DiscordConfiguration,
    pub postgres: PostgresConfiguration,
    pub redis: RedisConfiguration,
    pub server: ServerConfiguration,
}

impl Clone for Configuration {
    fn clone(&self) -> (copy: Self)
        ensures
            copy == *self,
    {
        Configuration {
            debug: self.debug,
            discord: self.discord.clone(),
            postgres: self.postgres.clone(),
            redis: self.redis.clone(),
            server: self.server.clone(),
        }
    }
}

impl Default for Configuration {
    /// Debugging off, and every part at its own default.
    fn default() -> (config: Self)
        ensures
            !config.debug,
            config.discord.token@ == Seq::<char>::empty(),
            config.discord.prefix@ == ">"@,
            config.postgres.host@ == "localhost"@,
            config.postgres.port@ == "5432"@,
            config.postgres.username@ == Seq::<char>::empty(),
            config.postgres.password@ == Seq::<char>::empty(),
            config.postgres.database@ == Seq::<char>::empty(),
            config.redis.host@ == "localhost"@,
            config.redis.port@ == "6379"@,
            config.redis.username@ == Seq::<char>::empty(),
            config.redis.password@ == Seq::<char>::empty(),
            config.redis.database@ == Seq::<char>::empty(),
            config.redis.max_connections == 10,
            config.server.name@ == "Bureaucrat"@,
            config.server.host@ == "127.0.0.1"@,
            config.server.port == 3001,
            !config.server.use_tls,
            config.server.tls_pem@ == Seq::<char>::empty(),
            config.server.tls_key@ == Seq::<char>::empty(),
    {
        Configuration {
            debug: false,
            discord: DiscordConfiguration::default(),
            postgres: PostgresConfiguration::default(),
            redis: RedisConfiguration::default(),
            server: ServerConfiguration::default(),
        }
    }
}

impl Configuration {
    /// A snapshot of this configuration: a copy that its holder owns.
    pub fn get(&self) -> (snapshot: Configuration)
        ensures
            snapshot == *self,
    {
        self.clone()
    }
}

} // verus!
