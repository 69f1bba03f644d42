use std::path::PathBuf;

use block_signer::certificate_files::{
    accept_client_certs, accept_client_key, accept_fault, accept_key_before, accept_roots,
    read_client_certs, read_client_key, read_roots,
};
use block_signer::client_build::{accept_client, accept_client_auth};
use block_signer::tls::{KeyEncoding, PrivateKeyFile};
use block_signer::{
    Address, BlockSigner, CertificateError, ClientBuild, ClientCert, ConnectWant, Connecting,
    FileRead, FromHexError, LocalSigner, PayloadHash, PrivateKey, ReloadStatus, RemoteSigner,
    RemoteSignerConfig, RemoteSignerError, SignResponse, SignStep, WatchEvent,
};

const CA: &str = "\
    MIIBfDCCASGgAwIBAgIUYMEnCZrif0mEFeAlhB3LhbWuLHswCgYIKoZIzj0EAwIwEjEQMA4GA1UE\
    AwwHVGVzdCBDQTAgFw0yNjExMTQyMzU1MDNaGA8yMTI2MTAyMTIzNTUwM1owEjEQMA4GA1UEAwwH\
    VGVzdCBDQTBZMBMGByqGSM49AgEGCCqGSM49AwEHA0IABHOyAfuLXHadjClCjK4saY5jy4FdhHVb\
    YSEuCjtm5RvLuYSlVNBxKf6/JVW+WKF56uZZav81HulrNmvnRRW+PHijUzBRMB0GA1UdDgQWBBRO\
    qMB/KPJTmGTkBKq0XWRV6RauhDAfBgNVHSMEGDAWgBROqMB/KPJTmGTkBKq0XWRV6RauhDAPBgNV\
    HRMBAf8EBTADAQH/MAoGCCqGSM49BAMCA0kAMEYCIQDut5fDSjow57zA/n4j8yK1rqDQ2qq+jZDM\
    qiarTQqa3wIhANxVYqm+sR+YNJZmsrCjhl9YGywSmMLyP6GDH7kEo6gE";
const CLIENT: &str = "\
    MIIBgzCCASmgAwIBAgIUeHYju7QtRic+X8LVNQ5Qfz9R4nAwCgYIKoZIzj0EAwIwFjEUMBIGA1UE\
    AwwLVGVzdCBjbGllbnQwIBcNMjYxMTE0MjM1NTAzWhgPMjEyNjEwMjEyMzU1MDNaMBYxFDASBgNV\
    BAMMC1Rlc3QgY2xpZW50MFkwEwYHKoZIzj0CAQYIKoZIzj0DAQcDQgAErfTumr6Bm3qwU97nnpas\
    +w78zGZy9kmiAG3+I7nU2m2ZBN8uiDdq9C59x6RivoJMrWoutdY4AdT1aaejFU9SNqNTMFEwHQYD\
    VR0OBBYEFMkG655kSwOuHsyTruSPr7joyy7JMB8GA1UdIwQYMBaAFMkG655kSwOuHsyTruSPr7jo\
    yy7JMA8GA1UdEwEB/wQFMAMBAf8wCgYIKoZIzj0EAwIDSAAwRQIhAJjeolMdcNUwJiCEgg6zZyPO\
    xlaH6p9LJFNP9KCqNECIAiApXcQHGpvR29FWul0uLAqSKBKXLTO/ZEeRY56xlHAm2A==";
const KEY_PKCS8: &str = "\
    MIGHAgEAMBMGByqGSM49AgEGCCqGSM49AwEHBG0wawIBAQQg+wN47A4jW6QHa7KhurtVcFwAXsdh\
    vnnzvbepsBm0WnChRANCAASt9O6avoGberBT3ueelqz7DvzMZnL2SaIAbf4judTabZkE3y6IN2r0\
    Ln3HpGK+gkytai611jgB1PVpp6MVT1I2";
const KEY_SEC1: &str = "\
    MHcCAQEEIPsDeOwOI1ukB2uyobq7VXBcAF7HYb558723qbAZtFpwoAoGCCqGSM49AwEHoUQDQgAE\
    rfTumr6Bm3qwU97nnpas+w78zGZy9kmiAG3+I7nU2m2ZBN8uiDdq9C59x6RivoJMrWoutdY4AdT1\
    aaejFU9SNg==";
const OTHER_KEY: &str = "\
    MIGHAgEAMBMGByqGSM49AgEGCCqGSM49AwEHBG0wawIBAQQg5rWnuQInxGRyT1y8KIecb/40NN9S\
    T1Uk87FAQb19tFChRANCAATA2Ge89DV60jJC2QfEG0wcxzpDR8xwDbbYddtVE8+pgNhdQHXLMrRj\
    8FoExZL9tyZg1ZSGA5fbhATzuy1y42I0";
const RSA_CLIENT: &str = "\
    MIIDFzCCAf+gAwIBAgIUOhpwXKgp3hiEnzV+evahtVE6h4YwDQYJKoZIhvcNAQELBQAwGjEYMBYG\
    A1UEAwwPVGVzdCBSU0EgY2xpZW50MCAXDTI2MTExNDIzNTUwM1oYDzIxMjYxMDIxMjM1NTAzWjAa\
    MRgwFgYDVQQDDA9UZXN0IFJTQSBjbGllbnQwggEiMA0GCSqGSIb3DQEBAQUAA4IBDwAwggEKAoIB\
    AQCddpUmeHHd8t2OUxP021M+02Doz+A8s3xKWtgcEvmeG/ll+73529p2+gQT7/rXA/AsmAxaEhsh\
    5smtnbc/mM+5U/gDW2b3Y7iPxU1/vd7x+pt2q550S+BPTCt7MGrPAIFq/ClH2q5JcxAR4dJouZ55\
    DnVYlxz5Fs8CcTqPtlUtPg8+LzmG4U82tSrbv33hr0Eg4OVcK4bmhEzj46SOT30OxPcdNu8OKVi+\
    XRjJo33i4g+PhoQE3VYPd8biRW0YHOyLdEsX4XtIp0fkJ5ycs32gz5s3t+qykXxvVlN7Fjto5BLW\
    wcs2Q2s/PQd++h6ohNfSyBqfeo+TxDtO60RIfmZ1AgMBAAGjUzBRMB0GA1UdDgQWBBQDbEwCJLgB\
    K5LgKnm+8L/WUYn2wzAfBgNVHSMEGDAWgBQDbEwCJLgBK5LgKnm+8L/WUYn2wzAPBgNVHRMBAf8E\
    BTADAQH/MA0GCSqGSIb3DQEBCwUAA4IBAQBlC9FZ5jNInC3IPqH9hw9p3dPO0cmTiqPe/+F5x60m\
    PV3GoPgx48zSmwbJrlLEThF9HkHzJbgO7wfr8Gi30m4PNxZu4tBoxRRX3iqGjF2ZeeoSDl5ZS36M\
    jBhoTP/nO/sQzxYhHBUZ/nXY+x+vwdVWRg58MB/0dSM/n9ZQfBLEignLXhQecPrPWv1OW7JsqqJb\
    cATcc2zmh55+pKL/gG1vfSzNbqjVlWw9YJVK3usqGtacEWkOcz37tJcz9baei+ja87lPNIeLZtFd\
    Hzt0YMJwMlPYiZ+aMtbDL29d4z4DqBIZ3I6QbGre/X1wPOKhRtwzgZlGuijoCa1s7KwZydgk";
const KEY_PKCS1: &str = "\
    MIIEowIBAAKCAQEAnXaVJnhx3fLdjlMT9NtTPtNg6M/gPLN8SlrYHBL5nhv5Zfu9+dvadvoEE+/6\
    1wPwLJgMWhIbIebJrZ23P5jPuVP4A1tm92O4j8VNf73e8fqbdquedEvgT0wrezBqzwCBavwpR9qu\
    SXMQEeHSaLmeeQ51WJcc+RbPAnE6j7ZVLT4PPi85huFPNrUq27994a9BIODlXCuG5oRM4+Okjk99\
    DsT3HTbvDilYvl0YyaN94uIPj4aEBN1WD3fG4kVtGBzsi3RLF+F7SKdH5CecnLN9oM+bN7fqspF8\
    b1ZTexY7aOQS1sHLNkNrPz0HfvoeqITX0sgan3qPk8Q7TutESH5mdQIDAQABAoIBAAK5p+ytxni7\
    KJL7RJvnBNqQQXveByk9yP+ncViRCoFuRgN6FyhhIfePrazjqSF6B7jZ29LeP9p3GlP3KBIBdMzm\
    E2OJfC95ahsQ5N26XUauWez0nO4x1vzAWntME/knrtW5bgR4mC4cv/EzSZc26TN6qNTC7sUv3B7U\
    c1lD5Fb/VkCkHAIptPVmh66bpjBAi7VDMz/BxUneBQdZtIxvCNRH1E/+UlDAOJsgrZ7X3FQM/hQP\
    zi8YLyElcZwH+vLVtCHjyX3Lh4ynV1wRS3db3dHEGc2QJQ/gZoY6P6rw+EDAPCLPqtIGL5MiGFk+\
    7yfDpvktDw4KhBsEaoK9ZZOYHxECgYEA1pADOXQVo10yVZqphX793oOwkuff26mY4acPQY8jABPx\
    T//r+xiVfQlePzcSeviBqA5Ok2WMdD72hp2U2teNH92yuNAgdSW82HFYFXxqMcq5dls+XzMrYRQO\
    K3Bszbi7jQB7hzUC3hf3052LQV88w28AK205/2D2gK4IpVThsxECgYEAu9+TKvOLQ1OPkQFdHJOB\
    CbtIse9anHrcbu8/utGtMMqapICgetrhXKwSmVspUe4yjuCL5rbRiW9TGBlyrX2itZRwg/x6eLGy\
    EFYrGRAS3MMW3KgfzQ8CQc863R9znJV4103iI1kauW5wtdz31H7fTSK3PKUsf9PkWV+CdTL9NSUC\
    gYBOMoxKSyl7sYKfuk9gLOk/SIV49PMcLpJeYzFnNlCOPbZr7pzFla8ds+VaaqrckGdIpXYzuAXZ\
    c/0LELFolLiFTZpOSuQZbdiGlcCBjCdz4Ct5nEV+ErsTlWiYok+1JkeMWwmqPELASMH0qO1QtPID\
    VBgeu58wmNkeCs9x2h6r0QKBgDRZLrOYGuTOosE/xQcSXrEseywBSpkxbryGc5aFmCFxQre1k4HH\
    /WWKGMCccx3+Jh5DmRfXNvl5iIi9hoOq7yxzSQqtzh5VPQ1qRSX9oZPb1EH1oq7LkNBvgrJcciVe\
    TMaJUAqTaGvkxwkVogSWuXfPxYjjaUvQ6d6xSzOG2qD1AoGBANLxsvaQSE5FZI4umRIEy2rkcmBg\
    Ol8JOIoKZcS6hqkvpDJYaa4piFFKocM0KJ6ZvRO4MKajG/k2aQKoXjbGTQQZFRZsEpjQOql2W/6+\
    +5Iob8z8KjKkzzq4OFAHZOdSsE2kUXjUB4byOaemYAilwU4xNQwsQe3Dp+Ga4d3sV4o2";

/// A PEM file of one section.
fn pem(label: &str, body: &str) -> Vec<u8> {
    format!("-----BEGIN {}-----\n{}\n-----END {}-----\n", label, body, label).into_bytes()
}

fn ca() -> FileRead {
    FileRead::Contents(pem("CERTIFICATE", CA))
}

fn client() -> FileRead {
    FileRead::Contents(pem("CERTIFICATE", CLIENT))
}

fn client_key() -> FileRead {
    FileRead::Contents(pem("PRIVATE KEY", KEY_PKCS8))
}

fn why() -> String {
    String::from("why")
}

fn config(ca: bool, client: bool) -> RemoteSignerConfig {
    RemoteSignerConfig {
        endpoint: url::Url::parse("https://signer.example:8545/rpc").unwrap(),
        client_cert: if client {
            Some(ClientCert { cert: PathBuf::from("tls.crt"), key: PathBuf::from("tls.key") })
        } else {
            None
        },
        ca_cert: if ca { Some(PathBuf::from("ca.crt")) } else { None },
        timeout_secs: Some(30),
    }
}

/// Drives a build with the file that each path holds.
fn drive(config: &RemoteSignerConfig, ca: FileRead, cert: FileRead, key: FileRead) -> ClientBuild {
    let mut build = ClientBuild::build_http_client(config);
    for (name, read) in [("ca.crt", ca), ("tls.crt", cert), ("tls.key", key)] {
        match build.wanted(config) {
            Some(path) if path == &PathBuf::from(name) => build = build.supply(config, read),
            _ => {}
        }
    }
    assert!(build.wanted(config).is_none());
    build
}

/// The error about a certificate or a key that a build ended with.
fn refusal(build: ClientBuild) -> CertificateError {
    match build {
        ClientBuild::Finished(Err(RemoteSignerError::CertificateError(error))) => error,
        ClientBuild::Finished(Err(error)) => panic!("{:?}", error),
        _ => panic!("no error"),
    }
}

/// A signer whose service has answered.
fn connected(config: RemoteSignerConfig) -> RemoteSigner {
    let mut connecting = RemoteSigner::new(config);
    loop {
        let name = match connecting.wants() {
            ConnectWant::File(path) => path.clone(),
            ConnectWant::Ping(rpc, method) => {
                assert!(rpc.rpc().is_local());
                assert_eq!(method, "health_status");
                connecting = connecting.pinged(Ok(String::from("v1.0.0")));
                continue;
            }
            ConnectWant::CreateWatcher => {
                connecting = connecting.watcher_created(Ok(()));
                continue;
            }
            ConnectWant::Watch(_) => {
                connecting = connecting.file_watched(Ok(()));
                continue;
            }
            ConnectWant::Nothing => break,
        };
        let read = match name.to_str().unwrap() {
            "ca.crt" => ca(),
            "tls.crt" => client(),
            _ => client_key(),
        };
        connecting = connecting.file_read(read);
    }
    match connecting.finish() {
        Ok(Ok(signer)) => signer,
        Ok(Err(error)) => panic!("{:?}", error),
        Err(_) => panic!("something is left to do"),
    }
}

#[test]
fn build_without_certificates_wants_no_file() {
    let config = config(false, false);
    let build = ClientBuild::build_http_client(&config);
    assert!(build.wanted(&config).is_none());
    assert!(matches!(build, ClientBuild::Finished(Ok(_))));
}

#[test]
fn build_wants_the_configured_files_in_order() {
    let config = config(true, true);
    let build = ClientBuild::build_http_client(&config);
    assert_eq!(build.wanted(&config), Some(&PathBuf::from("ca.crt")));
    let build = build.supply(&config, ca());
    assert_eq!(build.wanted(&config), Some(&PathBuf::from("tls.crt")));
    match &build {
        ClientBuild::ClientCertFile(store) => assert_eq!(store.len(), 1),
        _ => panic!("the client certificate is wanted"),
    }
    let build = build.supply(&config, client());
    assert_eq!(build.wanted(&config), Some(&PathBuf::from("tls.key")));
    let build = build.supply(&config, client_key());
    assert_eq!(build.wanted(&config), None);
    assert!(matches!(build, ClientBuild::Finished(Ok(_))));
}

#[test]
fn build_with_each_set_up_gives_a_client() {
    for (with_ca, with_client) in [(false, false), (true, false), (false, true), (true, true)] {
        let config = config(with_ca, with_client);
        let build = drive(&config, ca(), client(), client_key());
        assert!(matches!(build, ClientBuild::Finished(Ok(_))));
    }
}

#[test]
fn build_without_ca_file_has_no_roots() {
    let config = config(false, true);
    match ClientBuild::build_tls_config(&config) {
        ClientBuild::ClientCertFile(store) => assert!(store.is_empty()),
        _ => panic!("the client certificate is wanted"),
    }
}

#[test]
fn finished_build_takes_no_file() {
    let config = config(false, false);
    let build = ClientBuild::build_http_client(&config).supply(&config, FileRead::NotOpened(why()));
    assert!(matches!(build, ClientBuild::Finished(Ok(_))));
}

#[test]
fn every_key_encoding_is_read() {
    let cases = [
        ("PRIVATE KEY", KEY_PKCS8, KeyEncoding::Pkcs8),
        ("EC PRIVATE KEY", KEY_SEC1, KeyEncoding::Sec1),
        ("RSA PRIVATE KEY", KEY_PKCS1, KeyEncoding::Pkcs1),
    ];
    for (label, body, encoding) in cases {
        let key = read_client_key(FileRead::Contents(pem(label, body))).unwrap_or_else(|error| {
            panic!("{:?}", error)
        });
        assert_eq!(key.encoding, encoding);
        // A sequence in DER.
        assert_eq!(key.der[0], 0x30);
        assert!(key.der.len() < body.len());
    }
}

#[test]
fn build_takes_every_key_encoding() {
    let config = config(true, true);
    let sec1 = FileRead::Contents(pem("EC PRIVATE KEY", KEY_SEC1));
    assert!(matches!(drive(&config, ca(), client(), sec1), ClientBuild::Finished(Ok(_))));
    let pkcs1 = FileRead::Contents(pem("RSA PRIVATE KEY", KEY_PKCS1));
    let rsa = FileRead::Contents(pem("CERTIFICATE", RSA_CLIENT));
    assert!(matches!(drive(&config, ca(), rsa, pkcs1), ClientBuild::Finished(Ok(_))));
}

#[test]
fn key_of_another_certificate_is_refused() {
    let config = config(true, true);
    let other = FileRead::Contents(pem("PRIVATE KEY", OTHER_KEY));
    assert!(matches!(
        refusal(drive(&config, ca(), client(), other)),
        CertificateError::ConfigureClientAuth(_)
    ));
}

#[test]
fn ca_file_errors() {
    let config = config(true, true);
    match refusal(drive(&config, FileRead::NotOpened(why()), client(), client_key())) {
        CertificateError::InvalidCACertificatePath(text) => assert_eq!(text, "why"),
        other => panic!("{:?}", other),
    }
    match refusal(drive(&config, FileRead::NotRead(vec![], why()), client(), client_key())) {
        CertificateError::InvalidCACertificate(text) => assert_eq!(text, "why"),
        other => panic!("{:?}", other),
    }
    let broken = FileRead::Contents(b"-----BEGIN CERTIFICATE-----\nAAAA\n".to_vec());
    assert!(matches!(
        refusal(drive(&config, broken, client(), client_key())),
        CertificateError::InvalidCACertificate(_)
    ));
    // Well-formed PEM around bytes that are no certificate.
    let no_certificate = FileRead::Contents(pem("CERTIFICATE", "AAAA"));
    assert!(matches!(
        refusal(drive(&config, no_certificate, client(), client_key())),
        CertificateError::AddCACertificate(_)
    ));
}

#[test]
fn client_certificate_errors() {
    let config = config(true, true);
    match refusal(drive(&config, ca(), FileRead::NotOpened(why()), client_key())) {
        CertificateError::InvalidClientCertificatePath(text) => assert_eq!(text, "why"),
        other => panic!("{:?}", other),
    }
    match refusal(drive(&config, ca(), FileRead::NotRead(vec![], why()), client_key())) {
        CertificateError::InvalidClientCertificate(text) => assert_eq!(text, "why"),
        other => panic!("{:?}", other),
    }
    let broken = FileRead::Contents(b"-----BEGIN CERTIFICATE-----\nAAAA\n".to_vec());
    assert!(matches!(
        refusal(drive(&config, ca(), broken, client_key())),
        CertificateError::InvalidClientCertificate(_)
    ));
}

#[test]
fn private_key_errors() {
    let config = config(true, true);
    match refusal(drive(&config, ca(), client(), FileRead::NotOpened(why()))) {
        CertificateError::InvalidPrivateKeyPath(text) => assert_eq!(text, "why"),
        other => panic!("{:?}", other),
    }
    match refusal(drive(&config, ca(), client(), FileRead::NotRead(vec![], why()))) {
        CertificateError::InvalidPrivateKey(text) => assert_eq!(text, "why"),
        other => panic!("{:?}", other),
    }
    let broken = FileRead::Contents(format!("-----BEGIN {}-----\nAAAA\n", "PRIVATE KEY").into_bytes());
    assert!(matches!(
        refusal(drive(&config, ca(), client(), broken)),
        CertificateError::InvalidPrivateKey(_)
    ));
    assert!(matches!(
        refusal(drive(&config, ca(), client(), FileRead::Contents(vec![]))),
        CertificateError::NoPrivateKey
    ));
    // A certificate is no key.
    assert!(matches!(
        refusal(drive(&config, ca(), client(), client())),
        CertificateError::NoPrivateKey
    ));
}

#[test]
fn key_before_a_failure_to_read_is_taken() {
    let mut pem = pem("PRIVATE KEY", KEY_PKCS8);
    pem.extend_from_slice(b"the rest is los");
    let whole = read_client_key(client_key()).unwrap_or_else(|error| panic!("{:?}", error));
    let key = read_client_key(FileRead::NotRead(pem.clone(), why()))
        .unwrap_or_else(|error| panic!("{:?}", error));
    assert_eq!((key.encoding, key.der), (whole.encoding, whole.der));
    let config = config(true, true);
    let build = drive(&config, ca(), client(), FileRead::NotRead(pem, why()));
    assert!(matches!(build, ClientBuild::Finished(Ok(_))));
}

#[test]
fn line_without_an_end_is_not_looked_at() {
    let mut pem = pem("PRIVATE KEY", KEY_PKCS8);
    assert_eq!(pem.pop(), Some(b'\n'));
    match read_client_key(FileRead::NotRead(pem.clone(), why())) {
        Err(CertificateError::InvalidPrivateKey(text)) => assert_eq!(text, "why"),
        _ => panic!("the failure to read"),
    }
    // At the end of the file it is.
    assert!(read_client_key(FileRead::Contents(pem.clone())).is_ok());
    pem.push(b'\r');
    assert!(read_client_key(FileRead::NotRead(pem, why())).is_ok());
}

#[test]
fn certificates_before_a_failure_to_read_are_not_taken() {
    let whole = pem("CERTIFICATE", CA);
    let mut half = whole.clone();
    half.truncate(100);
    for read in [whole, half] {
        match read_roots(FileRead::NotRead(read.clone(), why())) {
            Err(CertificateError::InvalidCACertificate(text)) => assert_eq!(text, "why"),
            _ => panic!("the failure to read"),
        }
        match read_client_certs(FileRead::NotRead(read, why())) {
            Err(CertificateError::InvalidClientCertificate(text)) => assert_eq!(text, "why"),
            _ => panic!("the failure to read"),
        }
    }
}

#[test]
fn fault_before_a_failure_to_read_comes_first() {
    let faulty = b"-----BEGIN CERTIFICATE---\nAAAA\n".to_vec();
    let expected = "illegal section start: \"-----BEGIN CERTIFICATE---\\n\"";
    match read_roots(FileRead::NotRead(faulty.clone(), why())) {
        Err(CertificateError::InvalidCACertificate(text)) => assert_eq!(text, expected),
        _ => panic!("the fault"),
    }
    match read_client_key(FileRead::NotRead(faulty, why())) {
        Err(CertificateError::InvalidPrivateKey(text)) => assert_eq!(text, expected),
        _ => panic!("the fault"),
    }
    assert_eq!(accept_fault(Some(String::from("fault")), why()), "fault");
    assert_eq!(accept_fault(Some(String::from("section end \"X\" missing")), why()), "why");
    assert_eq!(accept_fault(None, why()), "why");
    assert!(matches!(
        accept_key_before(Ok(None), why()),
        Err(CertificateError::InvalidPrivateKey(_))
    ));
}

#[test]
fn unended_section_is_said_to_be_one() {
    match read_roots(FileRead::Contents(b"-----BEGIN CERTIFICATE-----\nAAAA\n".to_vec())) {
        Err(CertificateError::InvalidCACertificate(text)) => {
            assert_eq!(text, "section end \"CERTIFICATE\" missing")
        }
        _ => panic!("a section without an end"),
    }
}

#[test]
fn empty_ca_file_trusts_nobody() {
    let config = config(true, false);
    for pem in [b"".to_vec(), b"no section here\n".to_vec()] {
        let roots = read_roots(FileRead::Contents(pem.clone()))
            .unwrap_or_else(|error| panic!("{:?}", error));
        assert!(roots.is_empty());
        let build = ClientBuild::build_http_client(&config).supply(&config, FileRead::Contents(pem));
        assert!(matches!(build, ClientBuild::Finished(Ok(_))));
    }
}

#[test]
fn tls_without_certificates_is_no_error() {
    let build = ClientBuild::build_tls_config(&config(false, false));
    assert!(matches!(build, ClientBuild::Finished(Ok(_))));
}

#[test]
fn address_and_time_limit_play_no_part_for_certificates() {
    let one = config(true, true);
    let mut other = config(true, true);
    other.endpoint = url::Url::parse("http://other.example/").unwrap();
    other.timeout_secs = None;
    for config in [&one, &other] {
        assert!(matches!(
            drive(config, ca(), client(), client_key()),
            ClientBuild::Finished(Ok(_))
        ));
        assert!(matches!(
            refusal(drive(config, ca(), client(), FileRead::Contents(vec![]))),
            CertificateError::NoPrivateKey
        ));
    }
}

#[test]
fn good_files_replace_the_client_after_a_failed_reload() {
    let mut signer = connected(config(true, true));
    signer.certificate_event(WatchEvent::Modified);
    assert!(matches!(
        signer.certificate_file(FileRead::NotOpened(why())),
        ReloadStatus::Failed(_)
    ));
    assert!(signer.client().rpc().is_local());
    signer.certificate_event(WatchEvent::Modified);
    signer.certificate_file(ca());
    signer.certificate_file(client());
    assert!(matches!(signer.certificate_file(client_key()), ReloadStatus::Reloaded));
    assert!(!signer.client().rpc().is_local());
}

#[test]
fn first_bad_file_decides_the_error() {
    let config = config(true, true);
    let build = drive(
        &config,
        FileRead::NotOpened(String::from("ca")),
        FileRead::NotOpened(String::from("cert")),
        FileRead::NotOpened(String::from("key")),
    );
    assert!(matches!(refusal(build), CertificateError::InvalidCACertificatePath(_)));
    let build = drive(
        &config,
        ca(),
        FileRead::NotOpened(String::from("cert")),
        FileRead::NotOpened(String::from("key")),
    );
    assert!(matches!(refusal(build), CertificateError::InvalidClientCertificatePath(_)));
}

#[test]
fn sections_of_a_file_are_read_in_order() {
    let mut both = pem("CERTIFICATE", CLIENT);
    both.extend_from_slice(b"something else\n");
    both.extend_from_slice(&pem("CERTIFICATE", CA));
    let certs = read_client_certs(FileRead::Contents(both.clone())).unwrap_or_else(|error| {
        panic!("{:?}", error)
    });
    let first = read_client_certs(client()).unwrap_or_else(|error| panic!("{:?}", error));
    let second = read_client_certs(ca()).unwrap_or_else(|error| panic!("{:?}", error));
    assert_eq!(certs, vec![first[0].clone(), second[0].clone()]);
    assert_ne!(first[0], pem("CERTIFICATE", CLIENT));

    let roots = read_roots(FileRead::Contents(both)).unwrap_or_else(|error| panic!("{:?}", error));
    assert_eq!(roots.len(), 2);
    assert_ne!(roots.roots[0].subject, roots.roots[1].subject);
    let alone = read_roots(ca()).unwrap_or_else(|error| panic!("{:?}", error));
    assert_eq!(alone.roots[0], roots.roots[1]);
}

#[test]
fn one_bad_root_refuses_the_file() {
    let good = read_client_certs(ca()).unwrap_or_else(|error| panic!("{:?}", error));
    assert!(accept_roots(Ok(vec![good[0].clone()])).is_ok());
    assert!(accept_roots(Ok(vec![])).is_ok());
    assert!(matches!(
        accept_roots(Ok(vec![good[0].clone(), vec![0, 1, 2], good[0].clone()])),
        Err(CertificateError::AddCACertificate(_))
    ));
    assert!(matches!(
        accept_roots(Err(why())),
        Err(CertificateError::InvalidCACertificate(_))
    ));
}

#[test]
fn what_was_read_is_taken_as_it_is() {
    assert!(matches!(
        accept_client_certs(Err(why())),
        Err(CertificateError::InvalidClientCertificate(_))
    ));
    match accept_client_certs(Ok(vec![vec![1], vec![2]])) {
        Ok(certs) => assert_eq!(certs, vec![vec![1], vec![2]]),
        Err(error) => panic!("{:?}", error),
    }
    assert!(matches!(accept_client_key(Err(why())), Err(CertificateError::InvalidPrivateKey(_))));
    assert!(matches!(accept_client_key(Ok(None)), Err(CertificateError::NoPrivateKey)));
    let key = PrivateKeyFile { encoding: KeyEncoding::Sec1, der: vec![7] };
    match accept_client_key(Ok(Some(key))) {
        Ok(key) => assert_eq!((key.encoding, key.der), (KeyEncoding::Sec1, vec![7])),
        Err(error) => panic!("{:?}", error),
    }
}

#[test]
fn failures_of_the_outside_builds_are_passed_on() {
    match accept_client(Err(why())) {
        Err(RemoteSignerError::BuildError(text)) => assert_eq!(text, "why"),
        _ => panic!("a build error"),
    }
    match refusal(accept_client_auth(&config(false, true), Err(why()))) {
        CertificateError::ConfigureClientAuth(text) => assert_eq!(text, "why"),
        other => panic!("{:?}", other),
    }
}

#[test]
fn watched_files_are_those_of_the_client_and_the_ca() {
    let names = |config: &RemoteSignerConfig| -> Vec<String> {
        config.watched_files().iter().map(|path| path.to_str().unwrap().to_string()).collect()
    };
    assert_eq!(names(&config(true, true)), vec!["tls.crt", "tls.key", "ca.crt"]);
    assert_eq!(names(&config(false, true)), vec!["tls.crt", "tls.key"]);
    assert!(names(&config(true, false)).is_empty());
    assert!(names(&config(false, false)).is_empty());
}

#[test]
fn clones_of_a_configuration_are_the_same() {
    let config = config(true, true);
    assert_eq!(format!("{:?}", config.clone()), format!("{:?}", config));
}

#[test]
fn certificates_are_watched_exactly_with_a_client_certificate() {
    assert!(!connected(config(false, false)).is_certificate_watching_enabled());
    assert!(!connected(config(true, false)).is_certificate_watching_enabled());
    assert!(connected(config(false, true)).is_certificate_watching_enabled());
    assert!(connected(config(true, true)).is_certificate_watching_enabled());
}

#[test]
fn connected_signer_keeps_its_configuration() {
    let signer = connected(config(true, true));
    assert_eq!(format!("{:?}", signer.config()), format!("{:?}", config(true, true)));
    assert!(signer.client().rpc().is_local());
    assert!(signer.wanted_certificate().is_none());
}

#[test]
fn connection_ends_with_a_build_error() {
    let connecting = RemoteSigner::new(config(true, false));
    assert!(matches!(connecting.wants(), ConnectWant::File(_)));
    let connecting = connecting.file_read(FileRead::NotOpened(why()));
    assert!(matches!(connecting.wants(), ConnectWant::Nothing));
    assert!(matches!(
        connecting.finish(),
        Ok(Err(RemoteSignerError::CertificateError(CertificateError::InvalidCACertificatePath(_))))
    ));
}

#[test]
fn connection_ends_with_a_ping_error() {
    let connecting = RemoteSigner::new(config(false, false)).pinged(Err(why()));
    match connecting.finish() {
        Ok(Err(RemoteSignerError::PingError(text))) => assert_eq!(text, "why"),
        _ => panic!("a ping error"),
    }
}

/// A connection whose watcher is to be created.
fn starting_watcher(with_ca: bool) -> Connecting {
    let connecting = RemoteSigner::new(config(with_ca, true));
    let connecting = if with_ca { connecting.file_read(ca()) } else { connecting };
    connecting.file_read(client()).file_read(client_key()).pinged(Ok(String::from("v1")))
}

#[test]
fn connection_watches_the_certificate_files_in_order() {
    for (with_ca, names) in
        [(true, vec!["tls.crt", "tls.key", "ca.crt"]), (false, vec!["tls.crt", "tls.key"])]
    {
        let connecting = starting_watcher(with_ca);
        assert!(matches!(connecting.wants(), ConnectWant::CreateWatcher));
        let mut connecting = connecting.watcher_created(Ok(()));
        for name in names {
            match connecting.wants() {
                ConnectWant::Watch(path) => assert_eq!(path, &PathBuf::from(name)),
                _ => panic!("a file is to be watched"),
            }
            connecting = connecting.file_watched(Ok(()));
        }
        assert!(matches!(connecting.wants(), ConnectWant::Nothing));
        assert!(matches!(connecting.finish(), Ok(Ok(_))));
    }
}

#[test]
fn first_watcher_failure_is_reported() {
    // The watcher itself, then the certificate, the key and the CA file.
    for bad in 0..4 {
        let outcome = |i: usize| {
            if i >= bad { Err(format!("failure {}", i)) } else { Ok(()) }
        };
        let mut connecting = starting_watcher(true).watcher_created(outcome(0));
        for i in 1..4 {
            connecting = connecting.file_watched(outcome(i));
        }
        match connecting.finish() {
            Ok(Err(RemoteSignerError::CertificateWatcherError(text))) => {
                assert_eq!(text, format!("failure {}", bad))
            }
            _ => panic!("a watcher error"),
        }
    }
}

#[test]
fn connection_ignores_what_it_did_not_want() {
    let connecting = RemoteSigner::new(config(true, false));
    let connecting =
        connecting.pinged(Ok(why())).watcher_created(Err(why())).file_watched(Err(why()));
    assert!(matches!(connecting.wants(), ConnectWant::File(_)));
    let connecting = match connecting.finish() {
        Err(connecting) => connecting,
        Ok(_) => panic!("something is left to do"),
    };
    let connecting = connecting.file_read(ca()).file_read(FileRead::NotOpened(why()));
    assert!(matches!(connecting.wants(), ConnectWant::Ping(_, _)));
    let connecting = connecting.pinged(Ok(why())).pinged(Err(why()));
    assert!(matches!(connecting.finish(), Ok(Ok(_))));
}

#[test]
fn other_notices_change_nothing() {
    let mut signer = connected(config(true, true));
    assert!(matches!(signer.certificate_event(WatchEvent::Other), ReloadStatus::Ignored));
    assert!(matches!(signer.certificate_event(WatchEvent::Failed(why())), ReloadStatus::Ignored));
    assert!(signer.wanted_certificate().is_none());
    assert!(signer.client().rpc().is_local());
    assert!(matches!(signer.certificate_file(ca()), ReloadStatus::Ignored));
    assert!(signer.client().rpc().is_local());
}

#[test]
fn modification_reloads_the_client() {
    let mut signer = connected(config(true, true));
    assert!(matches!(signer.certificate_event(WatchEvent::Modified), ReloadStatus::Reading));
    assert_eq!(signer.wanted_certificate(), Some(&PathBuf::from("ca.crt")));
    assert!(matches!(signer.certificate_file(ca()), ReloadStatus::Reading));
    assert_eq!(signer.wanted_certificate(), Some(&PathBuf::from("tls.crt")));
    assert!(matches!(signer.certificate_file(client()), ReloadStatus::Reading));
    assert_eq!(signer.wanted_certificate(), Some(&PathBuf::from("tls.key")));
    assert!(signer.client().rpc().is_local());
    assert!(matches!(signer.certificate_file(client_key()), ReloadStatus::Reloaded));
    assert!(!signer.client().rpc().is_local());
    assert!(signer.wanted_certificate().is_none());
    assert!(signer.is_certificate_watching_enabled());
    assert_eq!(format!("{:?}", signer.config()), format!("{:?}", config(true, true)));
}

#[test]
fn failed_reload_keeps_the_client() {
    let mut signer = connected(config(false, true));
    assert!(matches!(signer.certificate_event(WatchEvent::Modified), ReloadStatus::Reading));
    assert!(matches!(signer.certificate_file(client()), ReloadStatus::Reading));
    match signer.certificate_file(FileRead::Contents(vec![])) {
        ReloadStatus::Failed(RemoteSignerError::CertificateError(
            CertificateError::NoPrivateKey,
        )) => {}
        other => panic!("{:?}", other),
    }
    assert!(signer.client().rpc().is_local());
    assert!(signer.wanted_certificate().is_none());
    // The next modification starts afresh.
    assert!(matches!(signer.certificate_event(WatchEvent::Modified), ReloadStatus::Reading));
    assert_eq!(signer.wanted_certificate(), Some(&PathBuf::from("tls.crt")));
}

#[test]
fn signer_keeps_the_last_good_client() {
    let mut signer = connected(config(false, true));
    signer.certificate_event(WatchEvent::Modified);
    signer.certificate_file(client());
    assert!(matches!(signer.certificate_file(client_key()), ReloadStatus::Reloaded));
    assert!(!signer.client().rpc().is_local());
    signer.certificate_event(WatchEvent::Modified);
    assert!(matches!(
        signer.certificate_file(FileRead::NotOpened(why())),
        ReloadStatus::Failed(_)
    ));
    signer.certificate_event(WatchEvent::Other);
    // Not the client that it began with, which was a local one.
    assert!(!signer.client().rpc().is_local());
    assert!(signer.wanted_certificate().is_none());
}

#[test]
fn modification_starts_a_reload_over() {
    let mut signer = connected(config(true, true));
    signer.certificate_event(WatchEvent::Modified);
    signer.certificate_file(ca());
    assert_eq!(signer.wanted_certificate(), Some(&PathBuf::from("tls.crt")));
    signer.certificate_event(WatchEvent::Modified);
    assert_eq!(signer.wanted_certificate(), Some(&PathBuf::from("ca.crt")));
}

#[test]
fn request_goes_through_the_client_of_the_signer() {
    let is_local = |signer: &RemoteSigner| {
        let request = signer.sign_block_v1(PayloadHash([9; 32]), 8453, Address([3; 20]));
        match signer.sign_block(PayloadHash([9; 32]), 8453, Address([3; 20])) {
            SignStep::Call(same) => assert!(std::ptr::eq(same.client, request.client)),
            _ => panic!("a remote signer has its service called"),
        }
        assert!(std::ptr::eq(request.client, signer.client()));
        request.client.rpc().is_local()
    };
    let mut signer = connected(config(false, true));
    assert!(is_local(&signer));
    // Up to the end of a reload the old client serves, and behind it the new one.
    signer.certificate_event(WatchEvent::Modified);
    assert!(is_local(&signer));
    signer.certificate_file(client());
    assert!(is_local(&signer));
    signer.certificate_file(client_key());
    assert!(!is_local(&signer));
}

#[test]
fn request_carries_what_was_asked_for() {
    let signer = connected(config(false, false));
    let call = signer.sign_block_v1(PayloadHash([9; 32]), 8453, Address([3; 20])).call;
    assert_eq!(call.method(), "opsigner_signBlockPayload");
    assert_eq!(call.params.domain, [0; 32]);
    assert_eq!(call.params.chain_id, 8453);
    assert_eq!(call.params.payload_hash, [9; 32]);
    assert_eq!(call.params.sender_address, Address([3; 20]));
    match signer.sign_block(PayloadHash([9; 32]), 8453, Address([3; 20])) {
        SignStep::Call(same) => assert_eq!(same.call, call),
        _ => panic!("a remote signer has its service called"),
    }
}

#[test]
fn answers_complete_a_call() {
    let signer = connected(config(false, false));
    let call = signer.sign_block_v1(PayloadHash([9; 32]), 8453, Address([3; 20])).call;
    match call.complete(Err(why())) {
        Err(RemoteSignerError::SigningRPCError(text)) => assert_eq!(text, "why"),
        other => panic!("{:?}", other),
    }
    assert!(matches!(
        call.complete(Ok(SignResponse { signature: String::from("0x1") })),
        Err(RemoteSignerError::InvalidSignatureHex(FromHexError::OddLength))
    ));
    assert!(matches!(
        call.complete(Ok(SignResponse { signature: String::from("0x1234") })),
        Err(RemoteSignerError::InvalidSignatureLength(2))
    ));
}

#[test]
fn service_with_the_key_signs_as_a_local_signer() {
    let local = LocalSigner::new(PrivateKey::from_bytes([5; 32]).unwrap());
    let expected = local.sign_block_sync(PayloadHash([9; 32]), 8453).unwrap();
    let answer = format!(
        "0x{}{}{:02x}",
        hex::encode(expected.r),
        hex::encode(expected.s),
        if expected.y_parity { 28 } else { 27 }
    );
    let signer = connected(config(false, false));
    let call = signer.sign_block_v1(PayloadHash([9; 32]), 8453, Address([3; 20])).call;
    assert_eq!(call.complete(Ok(SignResponse { signature: answer })).unwrap(), expected);
}
