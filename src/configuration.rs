use crate::text::{decimal, push_decimal};
use vstd::prelude::*;

verus! {

/// Where the HTTP server listens, and the URL it is reached at from outside.
pub struct ApplicationSettings {
    pub host: String,
    pub port: u16,
    pub base_url: String,
}

impl ApplicationSettings {
    /// `host:port`, the address to bind.
    pub fn connection_string(&self) -> (r: String)
        ensures
            r@ == self.host@ + ":"@ + decimal(self.port as nat),
    {
        let mut s = String::from_str(self.host.as_str());
        s.append(":");
        push_decimal(&mut s, self.port as u64);
        s
    }
}

/// How to reach the PostgreSQL server.
pub struct DatabaseSettings {
    pub username: String,
    pub password: String,
    pub port: u16,
    pub host: String,
    pub database_name: String,
}

pub open spec fn server_url(d: DatabaseSettings) -> Seq<char> {
    "postgres://"@ + d.username@ + ":"@ + d.password@ + "@"@ + d.host@ + ":"@ + decimal(
        d.port as nat,
    ) + "/"@
}

impl DatabaseSettings {
    /// The URL of the server, without a database.
    pub fn connection_string_nodb(&self) -> (r: String)
        ensures
            r@ == server_url(*self),
    {
        let mut s = String::from_str("postgres://");
        s.append(self.username.as_str());
        s.append(":");
        s.append(self.password.as_str());
        s.append("@");
        s.append(self.host.as_str());
        s.append(":");
        push_decimal(&mut s, self.port as u64);
        s.append("/");
        s
    }

    /// The URL of the application's database.
    pub fn connection_string(&self) -> (r: String)
        ensures
            r@ == server_url(*self) + self.database_name@,
    {
        let mut s = self.connection_string_nodb();
        s.append(self.database_name.as_str());
        s
    }
}

/// The environment the service runs in; it picks the configuration file.
#[derive(Clone, Copy, PartialEq, Eq, Structural)]
pub enum Environment {
    Local,
    Production,
}

/// What `str::to_lowercase` gives for `s`.
pub uninterp spec fn lowercase_of(s: Seq<char>) -> Seq<char>;

/// Relies on `str::to_lowercase`: the lowercase mapping of each character,
/// which depends on the characters alone.
#[verifier::external_body]
fn to_lowercase(s: &str) -> (r: String)
    ensures
        r@ == lowercase_of(s@),
{
    s.to_lowercase()
}

/// The environment that a lowercase name designates.
pub open spec fn environment_named(l: Seq<char>) -> Option<Environment> {
    if l == "local"@ {
        Some(Environment::Local)
    } else if l == "production"@ {
        Some(Environment::Production)
    } else {
        None
    }
}

impl Environment {
    pub fn as_str(&self) -> (r: &'static str)
        ensures
            r@ == (match self {
                Environment::Local => "local"@,
                Environment::Production => "production"@,
            }),
    {
        match self {
            Environment::Local => "local",
            Environment::Production => "production",
        }
    }

    /// Reads an already lowercased name: `local` or `production`.
    pub fn from_lowercase(l: &str) -> (r: Result<Environment, String>)
        ensures
            r is Ok <==> environment_named(l@) is Some,
            r matches Ok(e) ==> environment_named(l@) == Some(e),
            r matches Err(m) ==> m@ == l@ + " is not valid. The environment must be local or production"@,
    {
        proof {
            reveal_strlit("local");
            reveal_strlit("production");
        }
        let s = String::from_str(l);
        if s.eq(&String::from_str("local")) {
            Ok(Environment::Local)
        } else if s.eq(&String::from_str("production")) {
            Ok(Environment::Production)
        } else {
            Err(s.concat(" is not valid. The environment must be local or production"))
        }
    }

    /// Reads an environment name, ignoring case.
    pub fn try_from(value: String) -> (r: Result<Environment, String>)
        ensures
            r is Ok <==> environment_named(lowercase_of(value@)) is Some,
            r matches Ok(e) ==> environment_named(lowercase_of(value@)) == Some(e),
    {
        let lowered = to_lowercase(value.as_str());
        Environment::from_lowercase(lowered.as_str())
    }
}

/// The name of an environment reads back as that environment.
pub proof fn lemma_environment_name_round_trip(e: Environment)
    ensures
        environment_named(
            match e {
                Environment::Local => "local"@,
                Environment::Production => "production"@,
            },
        ) == Some(e),
{
    reveal_strlit("local");
    reveal_strlit("production");
    assert("local"@ != "production"@) by {
        assert("local"@.len() != "production"@.len());
    }
}

} // verus!
