use cipher_echo::address::{parse_port, Endpoint, HostAddress};
use cipher_echo::networking_util::{
    check_valid_ip, client_arg_validation, client_connect, client_response_handler, client_startup,
    find_address, format_send, is_alphabetic, server_arg_validation, server_startup, setup_server,
};
use cipher_echo::ProtocolError;

fn args(items: &[&str]) -> Vec<String> {
    items.iter().map(|s| s.to_string()).collect()
}

#[test]
fn client_takes_five_arguments() {
    assert_eq!(client_arg_validation(&args(&["client", "hello", "abc", "127.0.0.1", "8080"])), Ok(()));
    let usage = Err("[CLIENT] Usage: <message> <key> <IP address> <port>".to_string());
    assert_eq!(client_arg_validation(&args(&[])), usage);
    assert_eq!(client_arg_validation(&args(&["client", "hello", "abc", "127.0.0.1"])), usage);
    assert_eq!(
        client_arg_validation(&args(&["client", "hello", "abc", "127.0.0.1", "8080", "x"])),
        usage
    );
}

#[test]
fn client_count_is_checked_before_the_key() {
    assert_eq!(
        client_arg_validation(&args(&["client", "hello", "a1c", "127.0.0.1"])),
        Err("[CLIENT] Usage: <message> <key> <IP address> <port>".to_string())
    );
}

#[test]
fn client_key_must_be_ascii_letters() {
    let refused = Err("[CLIENT] the key must be ascii alphabetic".to_string());
    for key in ["a1c", "a b", "a|b", "abc!", "clé", "ключ", "0", " "] {
        assert_eq!(client_arg_validation(&args(&["client", "hello", key, "127.0.0.1", "80"])), refused);
    }
    for key in ["a", "Z", "abc", "MiXeD", "thequickbrownfox"] {
        assert_eq!(client_arg_validation(&args(&["client", "hello", key, "127.0.0.1", "80"])), Ok(()));
    }
}

#[test]
fn client_key_must_not_be_empty() {
    assert_eq!(
        client_arg_validation(&args(&["client", "hello", "", "127.0.0.1", "80"])),
        Err("[CLIENT] the key must be ascii alphabetic".to_string())
    );
    assert!(!is_alphabetic(""));
}

#[test]
fn client_validation_looks_at_nothing_but_count_and_key() {
    assert_eq!(client_arg_validation(&args(&["", "", "k", "not an address", "no port"])), Ok(()));
}

#[test]
fn is_alphabetic_agrees_with_the_standard_predicate() {
    for c in (0u32..0x300).filter_map(char::from_u32) {
        let text = c.to_string();
        assert_eq!(is_alphabetic(&text), c.is_ascii_alphabetic());
        let padded = format!("a{}z", c);
        assert_eq!(is_alphabetic(&padded), c.is_ascii_alphabetic());
    }
}

#[test]
fn server_takes_three_arguments() {
    assert_eq!(server_arg_validation(&args(&["server", "127.0.0.1", "8080"])), Ok(()));
    let usage = Err("Usage: <path> <port>".to_string());
    assert_eq!(server_arg_validation(&args(&[])), usage);
    assert_eq!(server_arg_validation(&args(&["server", "127.0.0.1"])), usage);
    assert_eq!(server_arg_validation(&args(&["server", "127.0.0.1", "8080", "x"])), usage);
}

#[test]
fn unparsed_address_is_invalid() {
    assert_eq!(check_valid_ip(None), Err("Invalid IP address".to_string()));
}

#[test]
fn unspecified_address_is_not_allowed() {
    let refused = Err("IP address not allowed for use".to_string());
    assert_eq!(check_valid_ip(Some(HostAddress::V4([0, 0, 0, 0]))), refused);
    assert_eq!(check_valid_ip(Some(HostAddress::V6([0; 8]))), refused);
}

#[test]
fn multicast_address_is_not_allowed() {
    let refused = Err("IP address not allowed for use".to_string());
    assert_eq!(check_valid_ip(Some(HostAddress::V4([224, 0, 0, 1]))), refused);
    assert_eq!(check_valid_ip(Some(HostAddress::V4([239, 255, 255, 255]))), refused);
    assert_eq!(check_valid_ip(Some(HostAddress::V6([0xff02, 0, 0, 0, 0, 0, 0, 1]))), refused);
    assert_eq!(check_valid_ip(Some(HostAddress::V6([0xff00, 0, 0, 0, 0, 0, 0, 0]))), refused);
}

#[test]
fn other_addresses_are_allowed() {
    let allowed = [
        HostAddress::V4([127, 0, 0, 1]),
        HostAddress::V4([10, 0, 0, 1]),
        HostAddress::V4([223, 255, 255, 255]),
        HostAddress::V4([240, 0, 0, 0]),
        HostAddress::V4([255, 255, 255, 255]),
        HostAddress::V4([0, 0, 0, 1]),
        HostAddress::V4([1, 0, 0, 0]),
        HostAddress::V6([0, 0, 0, 0, 0, 0, 0, 1]),
        HostAddress::V6([1, 0, 0, 0, 0, 0, 0, 0]),
        HostAddress::V6([0xfe80, 0, 0, 0, 0, 0, 0, 1]),
        HostAddress::V6([0xfeff, 0xffff, 0, 0, 0, 0, 0, 0]),
        HostAddress::V6([0x2001, 0xdb8, 0, 0, 0, 0, 0, 1]),
    ];
    for address in allowed {
        assert_eq!(check_valid_ip(Some(address)), Ok(()));
    }
}

#[test]
fn address_classes_go_by_the_leading_part() {
    for first in 0..=255u8 {
        let a = HostAddress::V4([first, 1, 2, 3]);
        assert_eq!(a.is_multicast(), (224..=239).contains(&first));
        assert!(!a.is_unspecified());
    }
    for high in 0..=255u16 {
        let a = HostAddress::V6([high << 8, 0, 0, 0, 0, 0, 0, 1]);
        assert_eq!(a.is_multicast(), high == 0xff);
        assert!(!a.is_unspecified());
    }
    for i in 0..8 {
        let mut groups = [0u16; 8];
        groups[i] = 1;
        assert!(!HostAddress::V6(groups).is_unspecified());
    }
    for i in 0..4 {
        let mut octets = [0u8; 4];
        octets[i] = 1;
        assert!(!HostAddress::V4(octets).is_unspecified());
    }
}

#[test]
fn port_is_an_optional_plus_and_digits() {
    assert_eq!(parse_port("8080"), Some(8080));
    assert_eq!(parse_port("0"), Some(0));
    assert_eq!(parse_port("65535"), Some(65535));
    assert_eq!(parse_port("+443"), Some(443));
    assert_eq!(parse_port("00080"), Some(80));
    assert_eq!(parse_port("0000000000000000000000000000065535"), Some(65535));
}

#[test]
fn port_refuses_everything_else() {
    for text in [
        "", "+", "-", "-1", "-0", "65536", "99999", "4294967296", "100000000000000000000",
        " 80", "80 ", "8 0", "+ 80", "++80", "+-80", "80+", "0x50", "8_080", "80.0", "eighty",
        "８０", "٨٠", "80\n", "\t80", "1e3",
    ] {
        assert_eq!(parse_port(text), None);
    }
}

#[test]
fn port_agrees_with_the_standard_parser() {
    for n in 0u32..70000 {
        let plain = n.to_string();
        assert_eq!(parse_port(&plain), plain.parse::<u16>().ok());
    }
    for n in (0u32..70000).step_by(7) {
        for text in [format!("+{}", n), format!("0{}", n), format!("-{}", n), format!("{} ", n)] {
            assert_eq!(parse_port(&text), text.parse::<u16>().ok());
        }
    }
    for c in (0u32..0x250).filter_map(char::from_u32) {
        for text in [c.to_string(), format!("{}1", c), format!("1{}", c), format!("+{}", c)] {
            assert_eq!(parse_port(&text), text.parse::<u16>().ok());
        }
    }
}

#[test]
fn client_connects_to_the_fourth_and_fifth_argument() {
    let address = HostAddress::V4([192, 168, 1, 20]);
    assert_eq!(
        client_connect(&args(&["client", "hello", "abc", "192.168.1.20", "8080"]), address),
        Ok(Endpoint { address, port: 8080 })
    );
    let v6 = HostAddress::V6([0, 0, 0, 0, 0, 0, 0, 1]);
    assert_eq!(
        client_connect(&args(&["client", "hello", "abc", "::1", "+1"]), v6),
        Ok(Endpoint { address: v6, port: 1 })
    );
}

#[test]
fn client_port_that_does_not_parse_is_invalid() {
    let address = HostAddress::V4([192, 168, 1, 20]);
    for port in ["", "http", "65536", "-1", "80 "] {
        assert_eq!(
            client_connect(&args(&["client", "hello", "abc", "192.168.1.20", port]), address),
            Err("[SERVER] Invalid port".to_string())
        );
    }
}

#[test]
fn server_listens_on_the_second_and_third_argument() {
    let address = HostAddress::V4([127, 0, 0, 1]);
    assert_eq!(
        setup_server(&args(&["server", "127.0.0.1", "9000"]), address),
        Ok(Endpoint { address, port: 9000 })
    );
    assert_eq!(
        setup_server(&args(&["server", "127.0.0.1", "0"]), address),
        Ok(Endpoint { address, port: 0 })
    );
    assert_eq!(
        setup_server(&args(&["server", "127.0.0.1", "port"]), address),
        Err("[SERVER] Invalid port".to_string())
    );
}

#[test]
fn client_sends_lowercase_key_delimiter_message() {
    assert_eq!(
        format_send(args(&["client", "hello", "abc", "127.0.0.1", "8080"])),
        Ok(b"abc|hello".to_vec())
    );
    assert_eq!(
        format_send(args(&["client", "Hello, World!", "KeY", "127.0.0.1", "8080"])),
        Ok(b"key|Hello, World!".to_vec())
    );
    assert_eq!(format_send(args(&["client", "", "k"])), Ok(b"k|".to_vec()));
}

#[test]
fn client_message_goes_out_as_its_utf8_bytes() {
    assert_eq!(
        format_send(args(&["client", "héllo", "abc", "127.0.0.1", "8080"])),
        Ok("abc|héllo".as_bytes().to_vec())
    );
}

#[test]
fn client_frame_that_does_not_fit_is_refused() {
    let fits = "m".repeat(1020);
    let frame = format_send(args(&["client", &fits, "abc", "127.0.0.1", "8080"])).unwrap();
    assert_eq!(frame.len(), 1024);
    let too_long = "m".repeat(1021);
    assert_eq!(
        format_send(args(&["client", &too_long, "abc", "127.0.0.1", "8080"])),
        Err(ProtocolError::FrameTooLarge)
    );
    // 511 two-byte characters and the four bytes of "abc|" make 1026 bytes.
    let wide = "é".repeat(511);
    assert_eq!(
        format_send(args(&["client", &wide, "abc", "127.0.0.1", "8080"])),
        Err(ProtocolError::FrameTooLarge)
    );
}

#[test]
fn reply_is_the_received_bytes_unmodified() {
    let mut buffer = [0u8; 1024];
    buffer[..9].copy_from_slice(b"abc|hdjln");
    assert_eq!(client_response_handler(&buffer, Some(9)), Some(b"abc|hdjln".to_vec()));
    assert_eq!(client_response_handler(&buffer, Some(0)), Some(Vec::new()));
    assert_eq!(client_response_handler(&buffer, Some(1024)), Some(buffer.to_vec()));
    assert_eq!(client_response_handler(b"\xff\x00|", Some(3)), Some(b"\xff\x00|".to_vec()));
}

#[test]
fn failed_receive_gives_no_reply() {
    let buffer = [7u8; 1024];
    assert_eq!(client_response_handler(&buffer, None), None);
}

#[test]
fn first_address_that_is_ipv4_and_no_loopback_is_found() {
    let addresses = vec![
        HostAddress::V4([127, 0, 0, 1]),
        HostAddress::V6([0xfe80, 0, 0, 0, 0, 0, 0, 1]),
        HostAddress::V4([192, 168, 1, 20]),
        HostAddress::V4([10, 0, 0, 1]),
    ];
    assert_eq!(find_address(&addresses), Some([192, 168, 1, 20]));
}

#[test]
fn no_address_is_found_among_loopback_and_ipv6() {
    assert_eq!(find_address(&Vec::new()), None);
    let addresses = vec![
        HostAddress::V4([127, 0, 0, 1]),
        HostAddress::V4([127, 255, 0, 3]),
        HostAddress::V6([0, 0, 0, 0, 0, 0, 0, 1]),
        HostAddress::V6([0x2001, 0xdb8, 0, 0, 0, 0, 0, 1]),
    ];
    assert_eq!(find_address(&addresses), None);
}

#[test]
fn found_address_need_not_be_otherwise_usable() {
    assert_eq!(find_address(&vec![HostAddress::V4([0, 0, 0, 0])]), Some([0, 0, 0, 0]));
    assert_eq!(find_address(&vec![HostAddress::V4([126, 0, 0, 1])]), Some([126, 0, 0, 1]));
    assert_eq!(find_address(&vec![HostAddress::V4([128, 0, 0, 1])]), Some([128, 0, 0, 1]));
}

#[test]
fn client_startup_gives_the_endpoint_when_all_is_well() {
    let address = HostAddress::V4([127, 0, 0, 1]);
    assert_eq!(
        client_startup(&args(&["client", "hello", "abc", "127.0.0.1", "8080"]), Some(address)),
        Ok(Endpoint { address, port: 8080 })
    );
}

#[test]
fn client_startup_reports_the_first_check_that_fails() {
    let good = Some(HostAddress::V4([127, 0, 0, 1]));
    let unspecified = Some(HostAddress::V4([0, 0, 0, 0]));
    assert_eq!(
        client_startup(&args(&["client", "hello", "a1c"]), None),
        Err("[CLIENT] Usage: <message> <key> <IP address> <port>".to_string())
    );
    assert_eq!(
        client_startup(&args(&["client", "hello", "a1c", "nowhere", "port"]), None),
        Err("[CLIENT] the key must be ascii alphabetic".to_string())
    );
    assert_eq!(
        client_startup(&args(&["client", "hello", "abc", "nowhere", "port"]), None),
        Err("Ip address error: Invalid IP address".to_string())
    );
    assert_eq!(
        client_startup(&args(&["client", "hello", "abc", "0.0.0.0", "port"]), unspecified),
        Err("Ip address error: IP address not allowed for use".to_string())
    );
    assert_eq!(
        client_startup(&args(&["client", "hello", "abc", "127.0.0.1", "port"]), good),
        Err("[SERVER] Invalid port".to_string())
    );
}

#[test]
fn server_startup_gives_the_endpoint_when_all_is_well() {
    let address = HostAddress::V6([0, 0, 0, 0, 0, 0, 0, 1]);
    assert_eq!(
        server_startup(&args(&["server", "::1", "9000"]), Some(address)),
        Ok(Endpoint { address, port: 9000 })
    );
}

#[test]
fn server_startup_reports_the_first_check_that_fails() {
    let good = Some(HostAddress::V4([127, 0, 0, 1]));
    let multicast = Some(HostAddress::V4([224, 0, 0, 1]));
    assert_eq!(
        server_startup(&args(&["server", "127.0.0.1"]), good),
        Err("Usage: <path> <port>".to_string())
    );
    assert_eq!(
        server_startup(&args(&["server", "nowhere", "port"]), None),
        Err("Ip address error: Invalid IP address".to_string())
    );
    assert_eq!(
        server_startup(&args(&["server", "224.0.0.1", "port"]), multicast),
        Err("Ip address error: IP address not allowed for use".to_string())
    );
    assert_eq!(
        server_startup(&args(&["server", "127.0.0.1", "70000"]), good),
        Err("[SERVER] Invalid port".to_string())
    );
}

#[test]
fn receive_beyond_the_buffer_gives_no_reply() {
    assert_eq!(client_response_handler(b"abc|hdjln", Some(10)), None);
    assert_eq!(client_response_handler(b"", Some(1)), None);
    assert_eq!(client_response_handler(b"", Some(0)), Some(Vec::new()));
}
