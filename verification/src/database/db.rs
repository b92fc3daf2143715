//! The settings of the connection pool: which values are needed, what each
//! must look like, and the pool that is made of them.

use vstd::prelude::*;
use vstd::string::is_ascii_spec_bytes;

verus! {

/// The byte of the plus sign.
const PLUS: u8 = 43;

/// The byte of the digit zero.
const DIGIT_ZERO: u8 = 48;

/// The byte of the digit nine.
const DIGIT_NINE: u8 = 57;

/// `c` is one of the ten decimal digits.
pub open spec fn is_digit(c: char) -> bool {
    '0' <= c <= '9'
}

/// The number that a run of decimal digits writes, the first digit counting
/// most. The empty run writes zero.
pub open spec fn digits_value(digits: Seq<char>) -> nat
    decreases digits.len(),
{
    if digits.len() == 0 {
        0
    } else {
        (digits_value(digits.drop_last()) * 10 + (digits.last() as nat - '0' as nat)) as nat
    }
}

/// The digits of a port as written: the text itself, or what follows a
/// leading plus sign.
pub open spec fn port_digits(text: Seq<char>) -> Seq<char> {
    if text.len() > 0 && text[0] == '+' {
        text.subrange(1, text.len() as int)
    } else {
        text
    }
}

/// The port that `text` writes: one or more decimal digits, a plus sign
/// before them or not, nothing else before, between or after, and a number
/// of at most 65535. Every other text writes no port.
pub open spec fn port_of(text: Seq<char>) -> Option<u16> {
    let digits = port_digits(text);
    if digits.len() > 0 && (forall|i: int| 0 <= i < digits.len() ==> is_digit(#[trigger] digits[i]))
        && digits_value(digits) <= u16::MAX {
        Some(digits_value(digits) as u16)
    } else {
        None
    }
}

/// Reads a port number.
pub fn parse_port(text: &str) -> (port: Option<u16>)
    ensures
        port == port_of(text@),
{
    let ghost digits = port_digits(text@);
    if !text.is_ascii() {
        proof {
            let i = choose|i: int| 0 <= i < text@.len() && !('\0' <= #[trigger] text@[i] <= '\u{7f}');
            if digits.len() == text@.len() {
                assert(!is_digit(digits[i]));
            } else {
                assert(i >= 1);
                assert(!is_digit(digits[i - 1]));
            }
        }
        return None;
    }
    broadcast use is_ascii_spec_bytes;

    let bytes = text.as_bytes();
    let n: usize = bytes.len();
    let start: usize = if n > 0 && bytes[0] == PLUS {
        1
    } else {
        0
    };
    assert(digits =~= text@.subrange(start as int, n as int));
    if start == n {
        return None;
    }
    let mut value: u32 = 0;
    let mut i: usize = start;
    while i < n
        invariant
            start <= i <= n,
            n == text@.len(),
            n == bytes@.len(),
            digits == port_digits(text@),
            digits == text@.subrange(start as int, n as int),
            forall|j: int| 0 <= j < n ==> bytes@[j] == #[trigger] text@[j] as u8,
            forall|j: int| 0 <= j < n ==> '\0' <= #[trigger] text@[j] <= '\u{7f}',
            forall|j: int| 0 <= j < i - start ==> is_digit(#[trigger] digits[j]),
            value <= 65536,
            value == if digits_value(digits.subrange(0, i - start)) <= 65536 {
                digits_value(digits.subrange(0, i - start))
            } else {
                65536
            },
        decreases n - i,
    {
        let b: u8 = bytes[i];
        assert(digits[i - start] == text@[i as int]);
        if b < DIGIT_ZERO || b > DIGIT_NINE {
            assert(!is_digit(digits[i - start]));
            return None;
        }
        let digit: u32 = (b - DIGIT_ZERO) as u32;
        proof {
            let longer = digits.subrange(0, i - start + 1);
            assert(longer.drop_last() =~= digits.subrange(0, i - start));
        }
        value = value * 10 + digit;
        if value > 65536 {
            value = 65536;
        }
        i = i + 1;
    }
    assert(digits.subrange(0, n - start) =~= digits);
    if value > 65535 {
        None
    } else {
        Some(value as u16)
    }
}

/// One of the values that the pool is set up from.
#[derive(Clone, Copy, Debug, PartialEq, Eq)]
pub enum Variable {
    Host,
    Port,
    User,
    Password,
    Dbname,
}

impl Variable {
    /// The name of the environment variable that holds the value.
    pub open spec fn key(self) -> Seq<char> {
        match self {
            Variable::Host => "PG_HOST"@,
            Variable::Port => "PG_PORT"@,
            Variable::User => "PG_USER"@,
            Variable::Password => "PG_PASSWORD"@,
            Variable::Dbname => "PG_DBNAME"@,
        }
    }

    /// Gives [`Variable::key`].
    pub fn name(&self) -> (name: &'static str)
        ensures
            name@ == self.key(),
    {
        match self {
            Variable::Host => "PG_HOST",
            Variable::Port => "PG_PORT",
            Variable::User => "PG_USER",
            Variable::Password => "PG_PASSWORD",
            Variable::Dbname => "PG_DBNAME",
        }
    }
}

/// Why no pool could be set up.
#[derive(Clone, Copy, Debug, PartialEq, Eq)]
pub enum SetupError {
    /// No environment variable holds this value.
    Missing(Variable),
    /// The port is not a number between 0 and 65535 in decimal digits.
    InvalidPort,
    /// The pool did not take the settings.
    Rejected,
}

impl SetupError {
    /// The error in words.
    pub open spec fn text(self) -> Seq<char> {
        match self {
            SetupError::Missing(Variable::Host) => "PG_HOST não definido"@,
            SetupError::Missing(Variable::Port) => "PG_PORT não definido"@,
            SetupError::Missing(Variable::User) => "PG_USER não definido"@,
            SetupError::Missing(Variable::Password) => "PG_PASSWORD não definido"@,
            SetupError::Missing(Variable::Dbname) => "PG_DBNAME não definido"@,
            SetupError::InvalidPort => "PG_PORT inválido"@,
            SetupError::Rejected => "Falha ao criar pool de conexões"@,
        }
    }

    /// Gives [`SetupError::text`].
    pub fn message(&self) -> (message: &'static str)
        ensures
            message@ == self.text(),
    {
        match self {
            SetupError::Missing(Variable::Host) => "PG_HOST não definido",
            SetupError::Missing(Variable::Port) => "PG_PORT não definido",
            SetupError::Missing(Variable::User) => "PG_USER não definido",
            SetupError::Missing(Variable::Password) => "PG_PASSWORD não definido",
            SetupError::Missing(Variable::Dbname) => "PG_DBNAME não definido",
            SetupError::InvalidPort => "PG_PORT inválido",
            SetupError::Rejected => "Falha ao criar pool de conexões",
        }
    }
}

/// How a connection is looked at when it goes back to work.
#[derive(Clone, Copy, Debug, PartialEq, Eq)]
pub enum Recycling {
    /// It is only asked whether it is closed.
    Fast,
    /// It also runs a test query.
    Verified,
    /// It also has its session state reset.
    Clean,
}

/// Everything the pool is made of.
#[derive(Clone, Debug, PartialEq, Eq)]
pub struct PoolSettings {
    pub host: String,
    pub port: u16,
    pub user: String,
    pub password: String,
    pub dbname: String,
    pub recycling: Recycling,
}

/// The settings as plain values.
pub struct SettingsView {
    pub host: Seq<char>,
    pub port: int,
    pub user: Seq<char>,
    pub password: Seq<char>,
    pub dbname: Seq<char>,
    pub recycling: Recycling,
}

impl SettingsView {
    /// Whether a pool made with `self` is one made of the settings `asked`:
    /// every value is the one asked for, but for the user where none was
    /// named. The pool then goes by the `USER` environment variable.
    pub open spec fn serves(self, asked: SettingsView) -> bool {
        &&& self.host == asked.host
        &&& self.port == asked.port
        &&& self.password == asked.password
        &&& self.dbname == asked.dbname
        &&& self.recycling == asked.recycling
        &&& asked.user.len() > 0 ==> self.user == asked.user
    }
}

impl View for PoolSettings {
    type V = SettingsView;

    open spec fn view(&self) -> SettingsView {
        SettingsView {
            host: self.host@,
            port: self.port as int,
            user: self.user@,
            password: self.password@,
            dbname: self.dbname@,
            recycling: self.recycling,
        }
    }
}

impl PoolSettings {
    /// The settings that five environment variables give, each of them
    /// there or not. The first value that is missing, in the order host,
    /// port, user, password, database name, is the error; a port that is
    /// there and writes no port number is the error before a missing user.
    /// Connections are recycled the fast way.
    pub open spec fn of_values(
        host: Option<String>,
        port: Option<String>,
        user: Option<String>,
        password: Option<String>,
        dbname: Option<String>,
    ) -> Result<PoolSettings, SetupError> {
        if host is None {
            Err(SetupError::Missing(Variable::Host))
        } else if port is None {
            Err(SetupError::Missing(Variable::Port))
        } else if port_of(port->0@) is None {
            Err(SetupError::InvalidPort)
        } else if user is None {
            Err(SetupError::Missing(Variable::User))
        } else if password is None {
            Err(SetupError::Missing(Variable::Password))
        } else if dbname is None {
            Err(SetupError::Missing(Variable::Dbname))
        } else {
            Ok(
                PoolSettings {
                    host: host->0,
                    port: port_of(port->0@)->0,
                    user: user->0,
                    password: password->0,
                    dbname: dbname->0,
                    recycling: Recycling::Fast,
                },
            )
        }
    }

    /// Checks the five values and gives [`PoolSettings::of_values`].
    pub fn from_values(
        host: Option<String>,
        port: Option<String>,
        user: Option<String>,
        password: Option<String>,
        dbname: Option<String>,
    ) -> (settings: Result<PoolSettings, SetupError>)
        ensures
            settings == PoolSettings::of_values(host, port, user, password, dbname),
            settings is Ok <==> host is Some && port is Some && port_of(port->0@) is Some
                && user is Some && password is Some && dbname is Some,
    {
        let host = match host {
            Some(host) => host,
            None => { return Err(SetupError::Missing(Variable::Host)); },
        };
        let port = match port {
            Some(port) => port,
            None => { return Err(SetupError::Missing(Variable::Port)); },
        };
        let port = match parse_port(port.as_str()) {
            Some(port) => port,
            None => { return Err(SetupError::InvalidPort); },
        };
        let user = match user {
            Some(user) => user,
            None => { return Err(SetupError::Missing(Variable::User)); },
        };
        let password = match password {
            Some(password) => password,
            None => { return Err(SetupError::Missing(Variable::Password)); },
        };
        let dbname = match dbname {
            Some(dbname) => dbname,
            None => { return Err(SetupError::Missing(Variable::Dbname)); },
        };
        Ok(PoolSettings { host, port, user, password, dbname, recycling: Recycling::Fast })
    }
}

/// A pool of connections to the database, as `deadpool_postgres::Pool` keeps
/// it. It opens a connection when one is asked for and none is free, up to
/// its limit, and takes it back when the caller lets go of it. Nothing in
/// this crate looks inside: the pool is made here and handed to the caller,
/// who takes it out of `inner`.
#[verifier::external_body]
pub struct ConnectionPool {
    pub inner: deadpool_postgres::Pool,
}

/// `deadpool_postgres::ConfigError`, the reason a configuration gives no
/// pool. It is carried, never read.
#[verifier::external_type_specification]
#[verifier::external_body]
pub struct ExPoolConfigError(deadpool_postgres::ConfigError);

/// `deadpool::managed::CreatePoolError`, what
/// `deadpool_postgres::Config::create_pool` fails with. It is carried, never
/// read.
#[verifier::external_type_specification]
#[verifier::external_body]
#[verifier::reject_recursive_types(C)]
pub struct ExCreatePoolError<C>(deadpool::managed::CreatePoolError<C>);

/// The settings that a pool was made with: the host, port, user, password
/// and database name that its connections will be opened with, and the way
/// it recycles them.
pub uninterp spec fn made_with(pool: ConnectionPool) -> SettingsView;

/// Calls `deadpool_postgres::Config::create_pool` on a configuration that
/// holds the settings and is otherwise empty, for the Tokio runtime and
/// without TLS. With no URL, no timeout and a runtime given, that call
/// refuses the configuration when the database name is empty and for no
/// other reason. The pool it gives keeps the values of the configuration;
/// where the user is empty it takes the user from the `USER` environment
/// variable instead.
#[verifier::external_body]
fn make_pool(settings: &PoolSettings) -> (made: Result<
    ConnectionPool,
    deadpool_postgres::CreatePoolError,
>)
    ensures
        made is Ok <==> settings.dbname@.len() > 0,
        made matches Ok(pool) ==> made_with(pool).serves(settings@),
{
    let recycling_method = match settings.recycling {
        Recycling::Fast => deadpool_postgres::RecyclingMethod::Fast,
        Recycling::Verified => deadpool_postgres::RecyclingMethod::Verified,
        Recycling::Clean => deadpool_postgres::RecyclingMethod::Clean,
    };
    let mut cfg = deadpool_postgres::Config::new();
    cfg.host = Some(settings.host.clone());
    cfg.port = Some(settings.port);
    cfg.user = Some(settings.user.clone());
    cfg.password = Some(settings.password.clone());
    cfg.dbname = Some(settings.dbname.clone());
    cfg.manager = Some(deadpool_postgres::ManagerConfig { recycling_method });
    let runtime = Some(deadpool_postgres::Runtime::Tokio1);
    Ok(ConnectionPool { inner: cfg.create_pool(runtime, tokio_postgres::NoTls)? })
}

/// What the attempt to make a pool comes to: the pool, or the one error that
/// stands for every reason the pool may have had to refuse the settings.
pub fn pool_or_error(made: Result<ConnectionPool, deadpool_postgres::CreatePoolError>) -> (pool:
    Result<ConnectionPool, SetupError>)
    ensures
        made matches Ok(p) ==> pool == Ok::<ConnectionPool, SetupError>(p),
        made is Err ==> pool == Err::<ConnectionPool, SetupError>(SetupError::Rejected),
{
    match made {
        Ok(pool) => Ok(pool),
        Err(_) => Err(SetupError::Rejected),
    }
}

/// Sets up the pool from the values of the five environment variables. All
/// five must be there and the port must write a port number: a caller finds
/// out with [`PoolSettings::from_values`], and has nothing to serve where it
/// gives an error. The pool is made of exactly these values, with
/// connections recycled the fast way, and is owed whenever the database name
/// is not empty; an empty name is the one thing the pool refuses. No
/// connection is opened: the pool opens them as they are asked for.
pub fn create_pool(
    host: Option<String>,
    port: Option<String>,
    user: Option<String>,
    password: Option<String>,
    dbname: Option<String>,
) -> (pool: Result<ConnectionPool, SetupError>)
    requires
        PoolSettings::of_values(host, port, user, password, dbname) is Ok,
    ensures
        pool is Ok <==> dbname->0@.len() > 0,
        pool is Err ==> pool == Err::<ConnectionPool, SetupError>(SetupError::Rejected),
        pool matches Ok(p) ==> made_with(p).serves(
            PoolSettings::of_values(host, port, user, password, dbname)->Ok_0@,
        ),
{
    match PoolSettings::from_values(host, port, user, password, dbname) {
        Err(e) => Err(e),
        Ok(settings) => pool_or_error(make_pool(&settings)),
    }
}

} // verus!
