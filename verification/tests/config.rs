use bencher::config::{
    bencher_licensor, diesel_database_url, into_config_dropshot, into_if_exists, into_level,
    into_log, into_messenger, ConfigError, DatabaseUrl, IfExists, JsonBencher, JsonLogging,
    JsonServer, JsonSmtp, JsonTls, LicensorSource, LogLevel, LoggingIfExists, LoggingLevel,
    LoggingTarget, Messenger, Secret, ServerLog, TlsConfig, DEFAULT_SMTP_PORT,
};

fn smtp(port: Option<u16>, starttls: Option<bool>) -> JsonSmtp {
    JsonSmtp {
        hostname: "smtp.example.com".to_owned(),
        port,
        starttls,
        username: "bencher".to_owned(),
        secret: Secret("hunter2".to_owned()),
        from_name: "Bencher".to_owned(),
        from_email: "info@example.com".to_owned(),
    }
}

#[test]
fn messenger_without_smtp_is_stdout() {
    assert!(matches!(into_messenger(None), Messenger::StdOut));
}

#[test]
fn messenger_defaults_port_and_starttls() {
    match into_messenger(Some(smtp(None, None))) {
        Messenger::Email(email) => {
            assert_eq!(email.hostname, "smtp.example.com");
            assert_eq!(email.port, DEFAULT_SMTP_PORT);
            assert_eq!(email.port, 587);
            assert!(email.starttls);
            assert_eq!(email.username, "bencher");
            assert_eq!(email.secret, Secret("hunter2".to_owned()));
            assert_eq!(email.from_name, Some("Bencher".to_owned()));
            assert_eq!(email.from_email, "info@example.com");
        },
        Messenger::StdOut => panic!("expected email"),
    }
}

#[test]
fn messenger_keeps_given_port_and_starttls() {
    match into_messenger(Some(smtp(Some(25), Some(false)))) {
        Messenger::Email(email) => {
            assert_eq!(email.port, 25);
            assert!(!email.starttls);
        },
        Messenger::StdOut => panic!("expected email"),
    }
}

#[test]
fn database_url_states() {
    assert_eq!(diesel_database_url(None, "/data/bencher.db"), DatabaseUrl::Unset);
    assert_eq!(
        diesel_database_url(Some("/data/bencher.db".to_owned()), "/data/bencher.db"),
        DatabaseUrl::Matches
    );
    assert_eq!(
        diesel_database_url(Some("/tmp/other.db".to_owned()), "/data/bencher.db"),
        DatabaseUrl::Differs("/tmp/other.db".to_owned())
    );
}

#[test]
fn database_url_update_needed_unless_matching() {
    assert!(diesel_database_url(None, "a").needs_update());
    assert!(diesel_database_url(Some("b".to_owned()), "a").needs_update());
    assert!(!diesel_database_url(Some("a".to_owned()), "a").needs_update());
}

#[test]
fn licensor_self_hosted_without_section() {
    let res = bencher_licensor("https://example.com", false, None);
    assert!(matches!(res, Ok(LicensorSource::SelfHosted)));
    let res = bencher_licensor("https://bencher.dev", true, None);
    assert!(matches!(res, Ok(LicensorSource::SelfHosted)));
}

#[test]
fn licensor_cloud_at_hosted_endpoint() {
    let bencher = JsonBencher { private_pem: Secret("pem".to_owned()) };
    match bencher_licensor("https://bencher.dev", true, Some(bencher)) {
        Ok(LicensorSource::BencherCloud { private_pem }) => {
            assert_eq!(private_pem, Secret("pem".to_owned()))
        },
        _ => panic!("expected the hosted licensor"),
    }
}

#[test]
fn licensor_refused_elsewhere() {
    let bencher = JsonBencher { private_pem: Secret("pem".to_owned()) };
    match bencher_licensor("https://example.com", false, Some(bencher)) {
        Err(e) => assert_eq!(e, ConfigError::BencherDev("https://example.com".to_owned())),
        Ok(_) => panic!("expected an error"),
    }
}

#[test]
fn server_config_keeps_fields() {
    let config = into_config_dropshot(JsonServer {
        bind_address: "0.0.0.0:61016".to_owned(),
        request_body_max_bytes: 1 << 20,
        tls: None,
    });
    assert_eq!(config.bind_address, "0.0.0.0:61016");
    assert_eq!(config.request_body_max_bytes, 1 << 20);
    assert!(config.tls.is_none());
}

#[test]
fn server_config_tls_variants() {
    let config = into_config_dropshot(JsonServer {
        bind_address: "127.0.0.1:1".to_owned(),
        request_body_max_bytes: 1,
        tls: Some(JsonTls::AsFile {
            cert_file: "cert.pem".to_owned(),
            key_file: "key.pem".to_owned(),
        }),
    });
    match config.tls {
        Some(TlsConfig::AsFile { cert_file, key_file }) => {
            assert_eq!(cert_file, "cert.pem");
            assert_eq!(key_file, "key.pem");
        },
        _ => panic!("expected file TLS"),
    }
    let config = into_config_dropshot(JsonServer {
        bind_address: "127.0.0.1:1".to_owned(),
        request_body_max_bytes: 1,
        tls: Some(JsonTls::AsBytes { certs: vec![1, 2], key: vec![3] }),
    });
    match config.tls {
        Some(TlsConfig::AsBytes { certs, key }) => {
            assert_eq!(certs, vec![1, 2]);
            assert_eq!(key, vec![3]);
        },
        _ => panic!("expected in-memory TLS"),
    }
}

#[test]
fn levels_map_by_name() {
    assert_eq!(into_level(&LogLevel::Trace), LoggingLevel::Trace);
    assert_eq!(into_level(&LogLevel::Debug), LoggingLevel::Debug);
    assert_eq!(into_level(&LogLevel::Info), LoggingLevel::Info);
    assert_eq!(into_level(&LogLevel::Warn), LoggingLevel::Warn);
    assert_eq!(into_level(&LogLevel::Error), LoggingLevel::Error);
    assert_eq!(into_level(&LogLevel::Critical), LoggingLevel::Critical);
}

#[test]
fn if_exists_map_by_name() {
    assert_eq!(into_if_exists(&IfExists::Fail), LoggingIfExists::Fail);
    assert_eq!(into_if_exists(&IfExists::Truncate), LoggingIfExists::Truncate);
    assert_eq!(into_if_exists(&IfExists::Append), LoggingIfExists::Append);
}

#[test]
fn log_config_terminal_and_file() {
    let config = into_log(JsonLogging {
        name: "bencher".to_owned(),
        log: ServerLog::StderrTerminal { level: LogLevel::Info },
    });
    assert_eq!(config.name, "bencher");
    assert!(matches!(
        config.log,
        LoggingTarget::StderrTerminal { level: LoggingLevel::Info }
    ));
    let config = into_log(JsonLogging {
        name: "api".to_owned(),
        log: ServerLog::File {
            level: LogLevel::Warn,
            path: "/var/log/api.log".to_owned(),
            if_exists: IfExists::Append,
        },
    });
    match config.log {
        LoggingTarget::File { level, path, if_exists } => {
            assert_eq!(level, LoggingLevel::Warn);
            assert_eq!(path, "/var/log/api.log");
            assert_eq!(if_exists, LoggingIfExists::Append);
        },
        _ => panic!("expected a file logger"),
    }
}
