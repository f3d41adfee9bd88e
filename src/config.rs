use vstd::prelude::*;

verus! {

/// Port used when none is configured.
pub const DEFAULT_PORT: u16 = 8080;

/// The service's settings.
#[derive(Clone, Debug)]
pub struct Config {
    pub database_url: String,
    pub server_host: String,
    pub server_port: u16,
}

/// Why the settings could not be assembled.
#[derive(Clone, Copy, Debug, PartialEq, Eq)]
pub enum ConfigError {
    /// No database URL was given.
    MissingDatabaseUrl,
    /// The port is not a decimal number from 0 to 65535.
    InvalidPort,
}

impl ConfigError {
    pub open spec fn message_spec(&self) -> Seq<char> {
        match self {
            ConfigError::MissingDatabaseUrl => "DATABASE_URL must be set in .env file"@,
            ConfigError::InvalidPort => "SERVER_PORT must be a valid number"@,
        }
    }

    /// The text reported at startup for this failure.
    pub fn message(&self) -> (r: String)
        ensures
            r@ == self.message_spec(),
    {
        match self {
            ConfigError::MissingDatabaseUrl => "DATABASE_URL must be set in .env file".to_owned(),
            ConfigError::InvalidPort => "SERVER_PORT must be a valid number".to_owned(),
        }
    }
}

/// Whether `c` is an ASCII decimal digit.
pub open spec fn is_digit(c: char) -> bool {
    '0' <= c <= '9'
}

/// The value of a string of decimal digits.
pub open spec fn digits_value(s: Seq<char>) -> int
    decreases s.len(),
{
    if s.len() == 0 {
        0
    } else {
        digits_value(s.drop_last()) * 10 + (s.last() as int - '0' as int)
    }
}

/// The digits of a port number, after an optional leading `+`.
pub open spec fn port_digits(s: Seq<char>) -> Seq<char> {
    if s.len() > 0 && s[0] == '+' {
        s.subrange(1, s.len() as int)
    } else {
        s
    }
}

/// The port written in `s`: an optional `+`, then one or more decimal
/// digits whose value is at most 65535, as `u16`'s parser reads it.
pub open spec fn port_value(s: Seq<char>) -> Option<u16> {
    let d = port_digits(s);
    if d.len() > 0 && (forall|i: int| 0 <= i < d.len() ==> is_digit(#[trigger] d[i]))
        && digits_value(d) <= 65535 {
        Some(digits_value(d) as u16)
    } else {
        None
    }
}

proof fn lemma_digits_value_nonneg(s: Seq<char>)
    requires
        forall|i: int| 0 <= i < s.len() ==> is_digit(#[trigger] s[i]),
    ensures
        digits_value(s) >= 0,
    decreases s.len(),
{
    if s.len() > 0 {
        lemma_digits_value_nonneg(s.drop_last());
    }
}

/// Reads a port number.
pub fn parse_port(text: &str) -> (r: Option<u16>)
    ensures
        r == port_value(text@),
{
    let n = text.unicode_len();
    let ghost s = text@;
    let mut start: usize = 0;
    if n > 0 && text.get_char(0) == '+' {
        start = 1;
    }
    let ghost d = port_digits(s);
    assert(d == s.subrange(start as int, n as int));
    if start == n {
        return None;
    }
    let mut value: u32 = 0;
    let mut i: usize = start;
    while i < n
        invariant
            start <= i <= n,
            n == s.len(),
            s == text@,
            d == s.subrange(start as int, n as int),
            d == port_digits(s),
            forall|k: int| 0 <= k < i - start ==> is_digit(#[trigger] d[k]),
            value as int == digits_value(d.subrange(0, i - start)),
            value <= 65535,
        decreases n - i,
    {
        let c = text.get_char(i);
        assert(d[i - start] == c);
        if c < '0' || c > '9' {
            assert(!is_digit(d[i - start]));
            assert(!(forall|k: int| 0 <= k < d.len() ==> is_digit(#[trigger] d[k])));
            assert(port_value(s) is None);
            return None;
        }
        let ghost prefix = d.subrange(0, i - start + 1);
        assert(prefix.drop_last() =~= d.subrange(0, i - start));
        let next = value * 10 + (c as u32 - '0' as u32);
        if next > 65535 {
            proof {
                assert(digits_value(prefix) == next);
                if forall|k: int| 0 <= k < d.len() ==> is_digit(#[trigger] d[k]) {
                    lemma_prefix_bound(d, i - start + 1);
                    assert(digits_value(d) > 65535);
                }
                assert(port_value(s) is None);
            }
            return None;
        }
        value = next;
        i = i + 1;
    }
    assert(d.subrange(0, i - start) =~= d);
    Some(value as u16)
}

/// Digits after a prefix can only make the value grow.
proof fn lemma_prefix_bound(d: Seq<char>, k: int)
    requires
        0 <= k <= d.len(),
        forall|i: int| 0 <= i < d.len() ==> is_digit(#[trigger] d[i]),
    ensures
        digits_value(d) >= digits_value(d.subrange(0, k)),
    decreases d.len() - k,
{
    if k < d.len() {
        lemma_prefix_bound(d, k + 1);
        let p = d.subrange(0, k + 1);
        assert(p.drop_last() =~= d.subrange(0, k));
        assert forall|i: int| 0 <= i < d.subrange(0, k).len() implies is_digit(
            #[trigger] d.subrange(0, k)[i],
        ) by {
            assert(d.subrange(0, k)[i] == d[i]);
        }
        lemma_digits_value_nonneg(d.subrange(0, k));
    } else {
        assert(d.subrange(0, k) =~= d);
    }
}

impl Config {
    /// Assembles the settings from the values read at startup: the database
    /// URL is required, the host defaults to `localhost` and the port to 8080.
    pub fn from_settings(
        database_url: Option<String>,
        server_host: Option<String>,
        server_port: Option<String>,
    ) -> (r: Result<Config, ConfigError>)
        ensures
            database_url is None ==> r == Err::<Config, ConfigError>(
                ConfigError::MissingDatabaseUrl,
            ),
            database_url is Some && server_port is Some && port_value(server_port->0@) is None
                ==> r == Err::<Config, ConfigError>(ConfigError::InvalidPort),
            r is Ok ==> {
                let c = r->Ok_0;
                &&& database_url is Some
                &&& c.database_url@ == database_url->0@
                &&& server_host is Some ==> c.server_host@ == server_host->0@
                &&& server_host is None ==> c.server_host@ == "localhost"@
                &&& server_port is Some ==> port_value(server_port->0@) == Some(c.server_port)
                &&& server_port is None ==> c.server_port == DEFAULT_PORT
            },
            database_url is Some && (server_port is None || port_value(server_port->0@) is Some)
                ==> r is Ok,
    {
        let database_url = match database_url {
            Some(u) => u,
            None => return Err(ConfigError::MissingDatabaseUrl),
        };
        let server_host = match server_host {
            Some(h) => h,
            None => "localhost".to_owned(),
        };
        let server_port = match server_port {
            Some(p) => match parse_port(p.as_str()) {
                Some(v) => v,
                None => return Err(ConfigError::InvalidPort),
            },
            None => DEFAULT_PORT,
        };
        Ok(Config { database_url, server_host, server_port })
    }
}

} // verus!
