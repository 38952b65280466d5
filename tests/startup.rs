use mccat::address::{Family, IpAddress, MulticastEndpoint};
use mccat::command::{parse_cmdline, parse_command, parse_port, run, Command, InputError};
use mccat::socket::{socket_setup, Role, SocketSetup};

fn args(v: &[&str]) -> Vec<String> {
    v.iter().map(|s| s.to_string()).collect()
}

const GROUP_V4: u32 = 0xEF01_0203; // 239.1.2.3
const GROUP_V6: u128 = 0xFF02_0000_0000_0000_0000_0000_0000_0001; // ff02::1

#[test]
fn multicast_blocks() {
    assert!(IpAddress::V4(0xE000_0000).is_multicast());
    assert!(IpAddress::V4(0xEFFF_FFFF).is_multicast());
    assert!(!IpAddress::V4(0xDFFF_FFFF).is_multicast());
    assert!(!IpAddress::V4(0xF000_0000).is_multicast());
    assert!(!IpAddress::V4(0x7F00_0001).is_multicast());
    assert!(IpAddress::V6(0xFF00 << 112).is_multicast());
    assert!(IpAddress::V6(u128::MAX).is_multicast());
    assert!(!IpAddress::V6(0xFEFF << 112 | 1).is_multicast());
    assert!(!IpAddress::V6(1).is_multicast());
}

#[test]
fn families() {
    assert_eq!(IpAddress::V4(GROUP_V4).family(), Family::V4);
    assert_eq!(IpAddress::V6(GROUP_V6).family(), Family::V6);
}

#[test]
fn non_multicast_refused_in_every_mode() {
    for cmd in [Command::Listen, Command::Send, Command::Ping] {
        let a = IpAddress::V4(0x0A00_0001);
        assert_eq!(run(cmd, a, 5000), Err(InputError::NotMulticast(a)));
        let b = IpAddress::V6(1);
        assert_eq!(run(cmd, b, 5000), Err(InputError::NotMulticast(b)));
    }
}

#[test]
fn listen_binds_group_port_and_joins_v4() {
    let a = IpAddress::V4(GROUP_V4);
    let s = run(Command::Listen, a, 5000).unwrap();
    assert_eq!(s.command, Command::Listen);
    assert_eq!(s.endpoint, MulticastEndpoint { addr: a, port: 5000 });
    assert_eq!(
        s.setup,
        SocketSetup { family: Family::V4, bind_port: 5000, join: Some(a), connect: None }
    );
}

#[test]
fn listen_binds_group_port_and_joins_v6() {
    let a = IpAddress::V6(GROUP_V6);
    let s = run(Command::Listen, a, 7).unwrap();
    assert_eq!(
        s.setup,
        SocketSetup { family: Family::V6, bind_port: 7, join: Some(a), connect: None }
    );
}

#[test]
fn send_binds_ephemeral_port_and_connects() {
    let a = IpAddress::V6(GROUP_V6);
    let ep = MulticastEndpoint { addr: a, port: 9000 };
    let s = run(Command::Send, a, 9000).unwrap();
    assert_eq!(
        s.setup,
        SocketSetup { family: Family::V6, bind_port: 0, join: None, connect: Some(ep) }
    );
}

#[test]
fn ping_binds_ephemeral_port_unconnected() {
    let a = IpAddress::V4(GROUP_V4);
    let ep = MulticastEndpoint { addr: a, port: 9000 };
    assert_eq!(
        socket_setup(ep, Role::Pinger),
        SocketSetup { family: Family::V4, bind_port: 0, join: None, connect: None }
    );
    assert_eq!(run(Command::Ping, a, 9000).unwrap().setup, socket_setup(ep, Role::Pinger));
}

#[test]
fn cmdline_needs_three_arguments() {
    assert_eq!(parse_cmdline(&args(&[])).unwrap_err(), InputError::Usage);
    assert_eq!(parse_cmdline(&args(&["listen", "239.1.2.3"])).unwrap_err(), InputError::Usage);
    assert_eq!(
        parse_cmdline(&args(&["listen", "239.1.2.3", "5000", "x"])).unwrap_err(),
        InputError::Usage
    );
}

#[test]
fn cmdline_rejects_unknown_mode() {
    assert_eq!(parse_cmdline(&args(&["shout", "239.1.2.3", "5000"])).unwrap_err(), InputError::Usage);
    assert_eq!(parse_command(&"Listen".to_string()), Err(InputError::Usage));
    assert_eq!(parse_command(&"".to_string()), Err(InputError::Usage));
}

#[test]
fn cmdline_accepts_each_mode() {
    let cl = parse_cmdline(&args(&["listen", "239.1.2.3", "5000"])).unwrap();
    assert_eq!(cl.command, Command::Listen);
    assert_eq!(cl.address, "239.1.2.3");
    assert_eq!(cl.port, 5000);
    let cl = parse_cmdline(&args(&["send", "127.0.0.1", "80"])).unwrap();
    assert_eq!(cl.command, Command::Send);
    assert_eq!(cl.address, "127.0.0.1");
    assert_eq!(cl.port, 80);
    let cl = parse_cmdline(&args(&["ping", "ff02::1", "+1"])).unwrap();
    assert_eq!(cl.command, Command::Ping);
    assert_eq!(cl.port, 1);
}

#[test]
fn cmdline_rejects_bad_port() {
    for port in ["65536", "-1", "", "x", "5000 "] {
        assert_eq!(
            parse_cmdline(&args(&["send", "239.1.2.3", port])).unwrap_err(),
            InputError::InvalidPort
        );
    }
}

#[test]
fn cmdline_reports_usage_before_port() {
    assert_eq!(parse_cmdline(&args(&["shout", "239.1.2.3", "x"])).unwrap_err(), InputError::Usage);
    assert_eq!(parse_cmdline(&args(&["send", "x"])).unwrap_err(), InputError::Usage);
}

#[test]
fn port_texts() {
    assert_eq!(parse_port("5000"), Ok(5000));
    assert_eq!(parse_port("+80"), Ok(80));
    assert_eq!(parse_port("0"), Ok(0));
    assert_eq!(parse_port("007"), Ok(7));
    assert_eq!(parse_port("65535"), Ok(65535));
    assert_eq!(parse_port("65536"), Err(InputError::InvalidPort));
    assert_eq!(parse_port("99999999999999999999"), Err(InputError::InvalidPort));
    assert_eq!(parse_port(""), Err(InputError::InvalidPort));
    assert_eq!(parse_port("+"), Err(InputError::InvalidPort));
    assert_eq!(parse_port("-1"), Err(InputError::InvalidPort));
    assert_eq!(parse_port("80a"), Err(InputError::InvalidPort));
    assert_eq!(parse_port(" 80"), Err(InputError::InvalidPort));
    assert_eq!(parse_port("8٠"), Err(InputError::InvalidPort));
}

#[test]
fn port_parse_agrees_with_std() {
    for t in ["1", "+1", "65535", "65536", "", "+", "++1", "-0", "1 ", "12x", "٣"] {
        assert_eq!(parse_port(t).ok(), t.parse::<u16>().ok(), "{:?}", t);
    }
}
