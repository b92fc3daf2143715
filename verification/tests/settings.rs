use usuarios_api::database::db::{
    create_pool, parse_port, pool_or_error, PoolSettings, Recycling, SetupError, Variable,
};

fn some(text: &str) -> Option<String> {
    Some(text.to_string())
}

#[test]
fn port_in_plain_digits() {
    assert_eq!(parse_port("5432"), Some(5432));
    assert_eq!(parse_port("80"), Some(80));
    assert_eq!(parse_port("0"), Some(0));
    assert_eq!(parse_port("7"), Some(7));
}

#[test]
fn port_at_the_edges_of_its_range() {
    assert_eq!(parse_port("65535"), Some(65535));
    assert_eq!(parse_port("65536"), None);
    assert_eq!(parse_port("65540"), None);
    assert_eq!(parse_port("70000"), None);
    assert_eq!(parse_port("99999999999999999999999999"), None);
}

#[test]
fn port_with_leading_zeros_or_a_plus_sign() {
    assert_eq!(parse_port("0080"), Some(80));
    assert_eq!(parse_port("000000000000000000065535"), Some(65535));
    assert_eq!(parse_port("+5432"), Some(5432));
    assert_eq!(parse_port("+0"), Some(0));
}

#[test]
fn port_that_is_no_number() {
    assert_eq!(parse_port(""), None);
    assert_eq!(parse_port("+"), None);
    assert_eq!(parse_port("-"), None);
    assert_eq!(parse_port("-1"), None);
    assert_eq!(parse_port("-0"), None);
    assert_eq!(parse_port("++1"), None);
    assert_eq!(parse_port("+-1"), None);
    assert_eq!(parse_port(" 5432"), None);
    assert_eq!(parse_port("5432 "), None);
    assert_eq!(parse_port("54 32"), None);
    assert_eq!(parse_port("5432a"), None);
    assert_eq!(parse_port("a5432"), None);
    assert_eq!(parse_port("0x50"), None);
    assert_eq!(parse_port("5_432"), None);
    assert_eq!(parse_port("54.32"), None);
    assert_eq!(parse_port("porta"), None);
    assert_eq!(parse_port("５４３２"), None);
    assert_eq!(parse_port("54é"), None);
    assert_eq!(parse_port("é"), None);
    assert_eq!(parse_port("99999999999999999999999999x"), None);
}

#[test]
fn port_reads_as_the_standard_library_reads_it() {
    let texts = [
        "", "0", "1", "9", "10", "443", "5432", "65535", "65536", "99999", "+", "-", "+1", "-1",
        "+65535", "+65536", "00", "007", "1 ", " 1", "1a", "a", "١٢", "+é", "4294967297",
        "18446744073709551617", "0000065536", "/", ":", "0/", "0:",
    ];
    for text in texts {
        assert_eq!(parse_port(text), text.parse::<u16>().ok(), "text {:?}", text);
    }
    let mut n: u32 = 0;
    while n <= 70000 {
        let text = format!("{}", n);
        assert_eq!(parse_port(&text), text.parse::<u16>().ok());
        n += 7;
    }
}

#[test]
fn settings_of_five_values() {
    let settings =
        PoolSettings::from_values(some("db.local"), some("5432"), some("ana"), some("s3"), some("loja"));
    assert_eq!(
        settings,
        Ok(PoolSettings {
            host: "db.local".to_string(),
            port: 5432,
            user: "ana".to_string(),
            password: "s3".to_string(),
            dbname: "loja".to_string(),
            recycling: Recycling::Fast,
        })
    );
}

#[test]
fn settings_keep_empty_values() {
    let settings = PoolSettings::from_values(some(""), some("1"), some(""), some(""), some(""));
    assert_eq!(
        settings,
        Ok(PoolSettings {
            host: String::new(),
            port: 1,
            user: String::new(),
            password: String::new(),
            dbname: String::new(),
            recycling: Recycling::Fast,
        })
    );
}

#[test]
fn settings_name_the_missing_value() {
    assert_eq!(
        PoolSettings::from_values(None, some("5432"), some("u"), some("p"), some("d")),
        Err(SetupError::Missing(Variable::Host))
    );
    assert_eq!(
        PoolSettings::from_values(some("h"), None, some("u"), some("p"), some("d")),
        Err(SetupError::Missing(Variable::Port))
    );
    assert_eq!(
        PoolSettings::from_values(some("h"), some("5432"), None, some("p"), some("d")),
        Err(SetupError::Missing(Variable::User))
    );
    assert_eq!(
        PoolSettings::from_values(some("h"), some("5432"), some("u"), None, some("d")),
        Err(SetupError::Missing(Variable::Password))
    );
    assert_eq!(
        PoolSettings::from_values(some("h"), some("5432"), some("u"), some("p"), None),
        Err(SetupError::Missing(Variable::Dbname))
    );
}

#[test]
fn settings_name_the_first_missing_value() {
    assert_eq!(
        PoolSettings::from_values(None, None, None, None, None),
        Err(SetupError::Missing(Variable::Host))
    );
    assert_eq!(
        PoolSettings::from_values(some("h"), None, None, None, None),
        Err(SetupError::Missing(Variable::Port))
    );
    assert_eq!(
        PoolSettings::from_values(some("h"), some("5432"), None, None, None),
        Err(SetupError::Missing(Variable::User))
    );
    assert_eq!(
        PoolSettings::from_values(some("h"), some("5432"), some("u"), None, None),
        Err(SetupError::Missing(Variable::Password))
    );
}

#[test]
fn settings_refuse_a_port_that_is_no_number() {
    assert_eq!(
        PoolSettings::from_values(some("h"), some("porta"), some("u"), some("p"), some("d")),
        Err(SetupError::InvalidPort)
    );
    assert_eq!(
        PoolSettings::from_values(some("h"), some("65536"), some("u"), some("p"), some("d")),
        Err(SetupError::InvalidPort)
    );
    assert_eq!(
        PoolSettings::from_values(some("h"), some(""), some("u"), some("p"), some("d")),
        Err(SetupError::InvalidPort)
    );
}

#[test]
fn settings_refuse_the_port_before_a_missing_user() {
    assert_eq!(
        PoolSettings::from_values(some("h"), some("x"), None, None, None),
        Err(SetupError::InvalidPort)
    );
    assert_eq!(
        PoolSettings::from_values(None, some("x"), None, None, None),
        Err(SetupError::Missing(Variable::Host))
    );
}

#[test]
fn variables_have_their_names() {
    assert_eq!(Variable::Host.name(), "PG_HOST");
    assert_eq!(Variable::Port.name(), "PG_PORT");
    assert_eq!(Variable::User.name(), "PG_USER");
    assert_eq!(Variable::Password.name(), "PG_PASSWORD");
    assert_eq!(Variable::Dbname.name(), "PG_DBNAME");
}

#[test]
fn errors_have_their_words() {
    assert_eq!(SetupError::Missing(Variable::Host).message(), "PG_HOST não definido");
    assert_eq!(SetupError::Missing(Variable::Port).message(), "PG_PORT não definido");
    assert_eq!(SetupError::Missing(Variable::User).message(), "PG_USER não definido");
    assert_eq!(SetupError::Missing(Variable::Password).message(), "PG_PASSWORD não definido");
    assert_eq!(SetupError::Missing(Variable::Dbname).message(), "PG_DBNAME não definido");
    assert_eq!(SetupError::InvalidPort.message(), "PG_PORT inválido");
    assert_eq!(SetupError::Rejected.message(), "Falha ao criar pool de conexões");
}

#[test]
fn pool_is_made_and_opens_no_connection() {
    let pool = create_pool(some("localhost"), some("5432"), some("ana"), some("s3"), some("loja"));
    let pool = match pool {
        Ok(pool) => pool,
        Err(e) => panic!("the pool is to be made, not {:?}", e),
    };
    let status = pool.inner.status();
    assert_eq!(status.size, 0);
    assert_eq!(status.available, 0);
    assert!(status.max_size >= 1);
    assert!(!pool.inner.is_closed());
}

#[test]
fn pool_carries_the_settings() {
    let pool = create_pool(some("db.local"), some("6543"), some("ana"), some("s3"), some("loja"))
        .ok()
        .expect("the pool is to be made");
    let seen = format!("{:?}", pool.inner.manager());
    assert!(seen.contains("host: [Tcp(\"db.local\")]"), "{}", seen);
    assert!(seen.contains("port: [6543]"), "{}", seen);
    assert!(seen.contains("user: Some(\"ana\")"), "{}", seen);
    assert!(seen.contains("password: Some("), "{}", seen);
    assert!(seen.contains("dbname: Some(\"loja\")"), "{}", seen);
    assert!(seen.contains("recycling_method: Fast"), "{}", seen);
}

#[test]
fn pool_is_made_whenever_the_database_has_a_name() {
    assert!(create_pool(some(""), some("0"), some(""), some(""), some("d")).is_ok());
    assert!(create_pool(some("/tmp"), some("65535"), some("u"), some(""), some("d")).is_ok());
    assert!(create_pool(some("h"), some("+5432"), some("u"), some("p"), some(" ")).is_ok());
}

#[test]
fn values_that_are_refused_are_found_before_the_pool() {
    assert_eq!(
        PoolSettings::from_values(None, some("5432"), some("u"), some("p"), some("d")).err(),
        Some(SetupError::Missing(Variable::Host))
    );
    assert_eq!(
        PoolSettings::from_values(some("localhost"), some("abc"), some("u"), some("x"), some("d"))
            .err(),
        Some(SetupError::InvalidPort)
    );
    assert_eq!(SetupError::Missing(Variable::Host).message(), "PG_HOST não definido");
}

#[test]
fn pool_that_is_refused_is_one_error() {
    let made = create_pool(some("h"), some("5432"), some("u"), some("p"), some(""));
    assert_eq!(made.err(), Some(SetupError::Rejected));
    let made = create_pool(some(""), some("1"), some(""), some(""), some(""));
    assert_eq!(made.err(), Some(SetupError::Rejected));
}

#[test]
fn pool_or_error_keeps_the_pool_and_folds_the_errors() {
    let refused = deadpool_postgres::CreatePoolError::Config(
        deadpool_postgres::ConfigError::DbnameMissing,
    );
    assert_eq!(pool_or_error(Err(refused)).err(), Some(SetupError::Rejected));
    let unbuilt = deadpool_postgres::CreatePoolError::Build(
        deadpool_postgres::BuildError::NoRuntimeSpecified,
    );
    assert_eq!(pool_or_error(Err(unbuilt)).err(), Some(SetupError::Rejected));
    let pool = create_pool(some("h"), some("5432"), some("u"), some("p"), some("d"))
        .ok()
        .expect("the pool is to be made");
    let max_size = pool.inner.status().max_size;
    let kept = pool_or_error(Ok(pool)).ok().expect("the pool is kept");
    assert_eq!(kept.inner.status().max_size, max_size);
}
