//! The resolved server configuration and the rules that merge it from a
//! configuration file and the process environment.
//!
//! Reading the file and the environment is input/output and stays with the
//! caller; the precedence rules — environment first, then the file, then
//! the stock value — are resolved here.

use vstd::prelude::*;

use crate::x509::opt_view;

verus! {

/// The listening settings.
pub struct Server {
    pub port: Option<u16>,
}

/// General instance settings.
pub struct General {
    pub administrators: Option<Vec<String>>,
}

/// Login settings; the client identifier is sensitive.
pub struct Login {
    pub client_id: String,
}

/// Identifier-hashing settings; the salt is sensitive.
pub struct HashIds {
    pub salt: String,
}

/// Where the certificate authority's directory lives.
pub struct Pki {
    pub ca: String,
}

/// Database connection settings; the password is sensitive.
pub struct Database {
    pub host: Option<String>,
    pub user: Option<String>,
    pub password: Option<String>,
    pub database: Option<String>,
}

/// What a configuration file may provide: every section optional.
pub struct ConfigFile {
    pub server: Option<Server>,
    pub general: Option<General>,
    pub login: Option<Login>,
    pub database: Option<Database>,
    pub hashids: Option<HashIds>,
    pub pki: Option<Pki>,
}

/// What the process environment may provide.
pub struct EnvConfig {
    pub port: Option<u16>,
    pub administrators: Option<Vec<String>>,
    pub client_id: Option<String>,
    pub database: Database,
    pub salt: Option<String>,
    pub pki_ca: Option<String>,
}

/// The fully resolved configuration.
pub struct Config {
    pub server: Server,
    pub general: General,
    pub login: Login,
    pub database: Database,
    pub hashids: HashIds,
    pub pki: Pki,
}

/// Why resolving the configuration failed.
#[derive(Debug)]
pub enum LoadError {
    /// The named configuration file could not be read.
    IO(String),
    /// The configuration file does not parse; holds the parser's message.
    Parse(String),
    /// Neither environment nor file provides the named essential value.
    MissingEssentialValue(String),
}

/// The first string of the chain: the override, else the file's value,
/// else the stock value.
pub open spec fn first_of(
    a: Option<Seq<char>>,
    b: Option<Seq<char>>,
    c: Option<Seq<char>>,
) -> Option<Seq<char>> {
    if a is Some {
        a
    } else if b is Some {
        b
    } else {
        c
    }
}

/// Keeps the first value when present, else the second.
fn or_opt_string(a: Option<String>, b: Option<String>) -> (r: Option<String>)
    ensures
        r == (if a is Some {
            a
        } else {
            b
        }),
{
    match a {
        Some(x) => Some(x),
        None => b,
    }
}

/// A fresh copy of an optional string.
fn clone_opt_string(o: &Option<String>) -> (r: Option<String>)
    ensures
        opt_view(r) == opt_view(*o),
{
    match o {
        Some(s) => Some(s.clone()),
        None => None,
    }
}

impl Server {
    /// Keeps these settings, filling the gap from `other`.
    pub fn or(self, other: Option<Server>) -> (r: Self)
        ensures
            r.port == (if self.port is Some {
                self.port
            } else {
                match other {
                    Some(o) => o.port,
                    None => None::<u16>,
                }
            }),
    {
        match self.port {
            Some(p) => Server { port: Some(p) },
            None => match other {
                Some(o) => Server { port: o.port },
                None => Server { port: None },
            },
        }
    }
}

impl General {
    /// Keeps these settings, filling the gap from `other`.
    pub fn or(self, other: Option<General>) -> (r: Self)
        ensures
            r.administrators == (if self.administrators is Some {
                self.administrators
            } else {
                match other {
                    Some(o) => o.administrators,
                    None => None::<Vec<String>>,
                }
            }),
    {
        match self.administrators {
            Some(a) => General { administrators: Some(a) },
            None => match other {
                Some(o) => General { administrators: o.administrators },
                None => General { administrators: None },
            },
        }
    }
}

impl Database {
    /// Keeps these settings, filling each gap from `other`.
    pub fn or(self, other: Option<Database>) -> (r: Self)
        ensures
            ({
                let (oh, ou, op, od) = match other {
                    Some(o) => (o.host, o.user, o.password, o.database),
                    None => (None, None, None, None),
                };
                &&& r.host == (if self.host is Some {
                    self.host
                } else {
                    oh
                })
                &&& r.user == (if self.user is Some {
                    self.user
                } else {
                    ou
                })
                &&& r.password == (if self.password is Some {
                    self.password
                } else {
                    op
                })
                &&& r.database == (if self.database is Some {
                    self.database
                } else {
                    od
                })
            }),
    {
        let Database { host, user, password, database } = self;
        match other {
            Some(o) => Database {
                host: or_opt_string(host, o.host),
                user: or_opt_string(user, o.user),
                password: or_opt_string(password, o.password),
                database: or_opt_string(database, o.database),
            },
            None => Database { host, user, password, database },
        }
    }

    /// These settings with the database name dropped, for connecting to the
    /// server without selecting a database.
    pub fn without_name(&self) -> (r: Self)
        ensures
            opt_view(r.host) == opt_view(self.host),
            opt_view(r.user) == opt_view(self.user),
            opt_view(r.password) == opt_view(self.password),
            r.database is None,
    {
        Database {
            host: clone_opt_string(&self.host),
            user: clone_opt_string(&self.user),
            password: clone_opt_string(&self.password),
            database: None,
        }
    }
}

impl Default for Database {
    /// The stock connection: the local server, the stock user and database
    /// names, no password.
    fn default() -> (r: Self)
        ensures
            opt_view(r.host) == Some("localhost"@),
            opt_view(r.user) == Some("postgres"@),
            r.password is None,
            opt_view(r.database) == Some("accountcat"@),
    {
        Database {
            host: Some("localhost".to_owned()),
            user: Some("postgres".to_owned()),
            password: None,
            database: Some("accountcat".to_owned()),
        }
    }
}

impl Default for Pki {
    /// The stock authority directory.
    fn default() -> (r: Self)
        ensures
            r.ca@ == "./pki"@,
    {
        Pki { ca: "./pki".to_owned() }
    }
}

/// The file's login section, when a file is present.
pub open spec fn file_login(file: Option<ConfigFile>) -> Option<Login> {
    match file {
        Some(f) => f.login,
        None => None,
    }
}

/// The file's hashids section, when a file is present.
pub open spec fn file_hashids(file: Option<ConfigFile>) -> Option<HashIds> {
    match file {
        Some(f) => f.hashids,
        None => None,
    }
}

/// Merges the environment's values over the file's sections and the stock
/// values. The login client identifier and the hashids salt are essential:
/// resolution fails, naming the missing one (login first), when neither
/// source provides it.
pub fn resolve(file: Option<ConfigFile>, env: EnvConfig) -> (r: Result<Config, LoadError>)
    ensures
        r is Ok <==> ((env.client_id is Some || file_login(file) is Some) && (env.salt is Some
            || file_hashids(file) is Some)),
        r matches Err(e) ==> e is MissingEssentialValue,
        r matches Ok(c) ==> {
            let (fs, fg, fl, fd, fh, fp) = match file {
                Some(f) => (f.server, f.general, f.login, f.database, f.hashids, f.pki),
                None => (None, None, None, None, None, None),
            };
            &&& c.login.client_id@ == (match env.client_id {
                Some(cid) => cid@,
                None => fl->Some_0.client_id@,
            })
            &&& c.hashids.salt@ == (match env.salt {
                Some(salt) => salt@,
                None => fh->Some_0.salt@,
            })
            &&& c.pki.ca@ == (match env.pki_ca {
                Some(d) => d@,
                None => match fp {
                    Some(p) => p.ca@,
                    None => "./pki"@,
                },
            })
            &&& c.server.port == (if env.port is Some {
                env.port
            } else {
                match fs {
                    Some(s) => s.port,
                    None => None::<u16>,
                }
            })
            &&& c.general.administrators == (if env.administrators is Some {
                env.administrators
            } else {
                match fg {
                    Some(g) => g.administrators,
                    None => None::<Vec<String>>,
                }
            })
            &&& ({
                let (fdh, fdu, fdp, fdd) = match fd {
                    Some(d) => (opt_view(d.host), opt_view(d.user), opt_view(d.password), opt_view(
                        d.database,
                    )),
                    None => (None, None, None, None),
                };
                &&& opt_view(c.database.host) == first_of(opt_view(env.database.host), fdh, Some(
                    "localhost"@,
                ))
                &&& opt_view(c.database.user) == first_of(opt_view(env.database.user), fdu, Some(
                    "postgres"@,
                ))
                &&& opt_view(c.database.password) == first_of(opt_view(env.database.password), fdp,
                    None)
                &&& opt_view(c.database.database) == first_of(opt_view(env.database.database), fdd,
                    Some("accountcat"@))
            })
        },
{
    let (fs, fg, fl, fd, fh, fp) = match file {
        Some(f) => (f.server, f.general, f.login, f.database, f.hashids, f.pki),
        None => (None, None, None, None, None, None),
    };
    let login = match env.client_id {
        Some(cid) => Login { client_id: cid },
        None => match fl {
            Some(l) => l,
            None => {
                return Err(LoadError::MissingEssentialValue("login.client_id".to_owned()));
            },
        },
    };
    let hashids = match env.salt {
        Some(salt) => HashIds { salt },
        None => match fh {
            Some(h) => h,
            None => {
                return Err(LoadError::MissingEssentialValue("hashids.salt".to_owned()));
            },
        },
    };
    let database = env.database.or(fd).or(Some(Database::default()));
    let pki = match env.pki_ca {
        Some(d) => Pki { ca: d },
        None => match fp {
            Some(p) => p,
            None => Pki::default(),
        },
    };
    let general = General { administrators: env.administrators }.or(fg);
    let server = Server { port: env.port }.or(fs);
    Ok(Config { server, general, login, database, hashids, pki })
}

} // verus!
