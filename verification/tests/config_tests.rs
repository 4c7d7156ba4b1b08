use pod_server::config::{Config, ConfigError};
use pod_server::messages::{Ipv4Address, SocketAddress};

#[test]
fn config_from_args_address() {
    let args = vec!["test program", "-a", "100.20.20.10:9090"];
    let args: Vec<String> = args.iter().map(|&arg| String::from(arg)).collect();
    let config_dut = Config::from_args(&args).unwrap();
    let expected_address = SocketAddress::new(Ipv4Address::new(100, 20, 20, 10), 9090);
    assert_eq!(config_dut.address.ip, expected_address.ip);
    assert_eq!(config_dut.address.port, expected_address.port);
}

#[test]
fn config_from_args_buffer_size() {
    let args = vec!["test program", "-b", "512"];
    let args: Vec<String> = args.iter().map(|&arg| String::from(arg)).collect();

    let config_dut = Config::from_args(&args).unwrap();
    let expected_size: usize = 512;

    assert_eq!(config_dut.buffer_size, expected_size);
}

#[test]
fn config_from_args_buffer_size_and_address() {
    let args = vec!["test program", "-b", "1024", "-a", "250.230.210.120:1000"];
    let args: Vec<String> = args.iter().map(|arg| String::from(*arg)).collect();

    let config_dut = Config::from_args(&args).unwrap();

    let expected_address = SocketAddress::new(Ipv4Address::new(250, 230, 210, 120), 1000);
    let expected_size: usize = 1024;

    assert_eq!(config_dut.address.ip, expected_address.ip);
    assert_eq!(config_dut.address.port, expected_address.port);
    assert_eq!(config_dut.buffer_size, expected_size);
}

#[test]
fn config_defaults_when_no_flags_given() {
    let args: Vec<String> = vec![String::from("test program")];
    let config_dut = Config::from_args(&args).unwrap();
    assert_eq!(config_dut, Config::default());
    assert_eq!(config_dut.address.ip, Ipv4Address::new(127, 0, 0, 1));
    assert_eq!(config_dut.address.port, 8080);
    assert_eq!(config_dut.buffer_size, 256);
}

#[test]
fn config_odd_argument_count_is_usage_error() {
    // Program name plus one lone flag: an even total, so the pairs do
    // not line up.
    let args: Vec<String> = vec![String::from("test program"), String::from("-b")];
    assert_eq!(
        Config::from_args(&args),
        Err(ConfigError::InvalidArgumentCount)
    );
}

#[test]
fn config_rejects_malformed_addresses() {
    for bad in [
        "100.20.20.10",      // no port
        "100.20.20:9090",    // three octets
        "1.2.3.4.5:9090",    // five octets
        "256.1.1.1:9090",    // octet out of range
        "a.b.c.d:9090",      // not decimal
        "1.2.3.4:65536",     // port out of range
        "1.2.3.4:90:90",     // two colons
        "1.2.3.:9090",       // empty octet
        "",                  // empty value
    ] {
        let args: Vec<String> = vec![
            String::from("test program"),
            String::from("-a"),
            String::from(bad),
        ];
        assert_eq!(
            Config::from_args(&args),
            Err(ConfigError::InvalidAddress),
            "address {:?} should be rejected",
            bad
        );
    }
}

#[test]
fn config_rejects_malformed_buffer_sizes() {
    for bad in ["", "12x", "-5", "99999999999999999999999999"] {
        let args: Vec<String> = vec![
            String::from("test program"),
            String::from("-b"),
            String::from(bad),
        ];
        assert_eq!(
            Config::from_args(&args),
            Err(ConfigError::InvalidBufferSize),
            "buffer size {:?} should be rejected",
            bad
        );
    }
}

#[test]
fn config_front_most_repeated_flag_wins() {
    let args: Vec<String> = ["test program", "-b", "100", "-b", "200"]
        .iter()
        .map(|&a| String::from(a))
        .collect();
    let config_dut = Config::from_args(&args).unwrap();
    assert_eq!(config_dut.buffer_size, 100);
}

#[test]
fn config_ignores_unknown_flags() {
    let args: Vec<String> = ["test program", "-x", "whatever", "-b", "64"]
        .iter()
        .map(|&a| String::from(a))
        .collect();
    let config_dut = Config::from_args(&args).unwrap();
    assert_eq!(config_dut.buffer_size, 64);
    assert_eq!(config_dut.address.port, 8080);
}
