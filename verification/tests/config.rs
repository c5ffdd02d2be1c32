use burley::cli::{listen_address, logging_setup, tls_files, Cli, LogLevel, LoggingSetup};
use burley::request_log::request_log_fields;
use burley::error::{io_message, other_message};
use burley::BurleyError;
use std::path::PathBuf;

fn cli(cert: Option<&str>, key: Option<&str>, debug: bool, tokio_console: bool) -> Cli {
    Cli {
        http_port: 3128,
        https_port: 3129,
        tls_cert: cert.map(PathBuf::from),
        tls_key: key.map(PathBuf::from),
        debug,
        tokio_console,
    }
}

#[test]
fn tls_files_come_in_pairs() {
    let both = cli(Some("cert.pem"), Some("key.pem"), false, false);
    let (c, k) = tls_files(&both).expect("pair").expect("set");
    assert_eq!(c, &PathBuf::from("cert.pem"));
    assert_eq!(k, &PathBuf::from("key.pem"));
    assert!(tls_files(&cli(None, None, false, false)).expect("none").is_none());
    for lone in [cli(Some("cert.pem"), None, false, false), cli(None, Some("key.pem"), false, false)] {
        match tls_files(&lone) {
            Err(BurleyError::Other(m)) => {
                assert_eq!(m, "TLS cert and key must be provided together")
            }
            _ => panic!("a lone TLS file is refused"),
        }
    }
}

#[test]
fn logging_setup_follows_the_flags() {
    assert_eq!(
        logging_setup(&cli(None, None, false, false)),
        LoggingSetup::Lines { level: LogLevel::Info, with_target: false }
    );
    assert_eq!(
        logging_setup(&cli(None, None, true, false)),
        LoggingSetup::Lines { level: LogLevel::Debug, with_target: true }
    );
    assert_eq!(
        logging_setup(&cli(None, None, true, true)),
        LoggingSetup::Console { debug_ignored: true }
    );
    assert_eq!(
        logging_setup(&cli(None, None, false, true)),
        LoggingSetup::Console { debug_ignored: false }
    );
    assert_eq!(LogLevel::Debug.as_str(), "debug");
    assert_eq!(LogLevel::Info.as_str(), "info");
}

#[test]
fn listen_address_is_loopback_with_the_port() {
    assert_eq!(listen_address(3128), "127.0.0.1:3128");
    assert_eq!(listen_address(1), "127.0.0.1:1");
    assert_eq!(listen_address(10), "127.0.0.1:10");
    assert_eq!(listen_address(65535), "127.0.0.1:65535");
}

#[test]
fn error_messages() {
    assert_eq!(BurleyError::Other("boom".to_string()).message(), "Error: boom");
    let io = BurleyError::from(std::io::Error::new(std::io::ErrorKind::Other, "disk gone"));
    assert!(matches!(io, BurleyError::Io(_)));
    assert_eq!(io.message(), "IO Error: disk gone");
    let missing = BurleyError::from(std::io::Error::new(std::io::ErrorKind::NotFound, "missing"));
    assert_eq!(missing.message(), "IO Error: missing");
    assert_eq!(io_message("missing"), "IO Error: missing");
    assert_eq!(io_message(""), "IO Error: ");
    assert_eq!(other_message("boom"), "Error: boom");
}

#[test]
fn builds_request_log_fields_from_context_request_and_body_length() {
    let log = request_log_fields(
        http::Method::POST.to_string(),
        Some("203.0.113.7:54321".rsplit_once(':').expect("valid peer addr").0.to_string()),
        Some("example.test".to_string()),
        "https://example.test/upload?part=1".to_string(),
        512,
        format!("{:?}", http::Version::HTTP_2),
    );

    assert_eq!(log.method, "POST");
    assert_eq!(log.client_ip, "203.0.113.7");
    assert_eq!(log.url, "https://example.test/upload?part=1");
    assert_eq!(log.response_bytes, 512);
    assert_eq!(log.http_version, format!("{:?}", http::Version::HTTP_2));
}

#[test]
fn unknown_client_and_host_are_logged_as_dash() {
    let log = request_log_fields("GET".to_string(), None, None, "/".to_string(), 0, "HTTP/1.1".to_string());
    assert_eq!(log.client_ip, "-");
    assert_eq!(log.http_host, "-");
    let log = log.with_response_bytes(77);
    assert_eq!(log.response_bytes, 77);
    assert_eq!(log.method, "GET");
}
