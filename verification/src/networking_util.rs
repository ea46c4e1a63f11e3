//! What client and server settle before and around their transport calls:
//! whether the command line is acceptable, where to connect or to listen,
//! which bytes to send and which of the received bytes are the reply.
//!
//! Nothing here touches a socket. The caller parses an address, makes the
//! transport calls and hands the outcome in as plain values.

use vstd::prelude::*;
use vstd::slice::slice_subrange;
use vstd::slice::slice_to_vec;
use vstd::string::is_ascii_spec_bytes;
use vstd::string::StringExecFns;
use vstd::utf8::encode_utf8;
use vstd::utf8::is_ascii_chars_encode_utf8;
use crate::address::parse_port;
use crate::address::port_of;
use crate::address::Endpoint;
use crate::address::HostAddress;
use crate::cipher::is_letter;
use crate::cipher::valid_key;
use crate::error::ProtocolError;
use crate::framing::encode_frame;
use crate::framing::frame_bytes;
use crate::framing::FRAME_CAPACITY;

verus! {

/// How many arguments the client takes, the program's own name included.
pub const CLIENT_ARGUMENTS: usize = 5;

/// How many arguments the server takes, the program's own name included.
pub const SERVER_ARGUMENTS: usize = 3;

/// `c` is an ASCII letter of either case.
pub open spec fn is_letter_char(c: char) -> bool {
    ('a' <= c <= 'z') || ('A' <= c <= 'Z')
}

/// `text` is non-empty and made of ASCII letters only: what a key must be.
pub open spec fn alphabetic_text(text: Seq<char>) -> bool {
    &&& text.len() > 0
    &&& forall|i: int| 0 <= i < text.len() ==> is_letter_char(#[trigger] text[i])
}

/// Tells whether `text` may serve as a key.
pub fn is_alphabetic(text: &str) -> (r: bool)
    ensures
        r == alphabetic_text(text@),
{
    if !text.is_ascii() {
        proof {
            let i = choose|i: int|
                0 <= i < text@.len() && !('\0' <= #[trigger] text@[i] <= '\u{7f}');
            assert(!is_letter_char(text@[i]));
        }
        return false;
    }
    let bytes: &[u8] = text.as_bytes();
    proof {
        is_ascii_spec_bytes(text);
    }
    if bytes.len() == 0 {
        return false;
    }
    let mut i: usize = 0;
    while i < bytes.len()
        invariant
            i <= bytes@.len(),
            bytes@.len() == text@.len(),
            forall|j: int| 0 <= j < bytes@.len() ==> bytes@[j] == text@[j] as u8,
            forall|j: int| 0 <= j < text@.len() ==> '\0' <= #[trigger] text@[j] <= '\u{7f}',
            forall|j: int| 0 <= j < i ==> is_letter_char(#[trigger] text@[j]),
        decreases bytes.len() - i,
    {
        if !is_letter(bytes[i]) {
            assert(!is_letter_char(text@[i as int]));
            return false;
        }
        assert(is_letter_char(text@[i as int]));
        i += 1;
    }
    true
}

/// A text that passes as a key on the command line is, as bytes, a key that
/// the transform accepts.
pub proof fn alphabetic_text_is_valid_key(text: Seq<char>)
    requires
        alphabetic_text(text),
    ensures
        valid_key(encode_utf8(text)),
{
    assert forall|i: int| 0 <= i < text.len() implies '\0' <= #[trigger] text[i] <= '\u{7f}' by {
        assert(is_letter_char(text[i]));
    }
    is_ascii_chars_encode_utf8(text);
    let bytes = encode_utf8(text);
    assert forall|i: int| 0 <= i < bytes.len() implies crate::cipher::spec_is_letter(
        #[trigger] bytes[i],
    ) by {
        assert(is_letter_char(text[i]));
        assert(bytes[i] == text[i] as u8);
    }
}

/// Checks the client's command line: the program's name, a message, a key,
/// an address and a port.
///
/// A count other than five is refused with the usage line. With five
/// arguments, the key (the third) must be non-empty and made of ASCII
/// letters only. Nothing else is looked at here.
pub fn client_arg_validation(args: &Vec<String>) -> (r: Result<(), String>)
    ensures
        args@.len() != CLIENT_ARGUMENTS ==> r is Err && r->Err_0@
            == "[CLIENT] Usage: <message> <key> <IP address> <port>"@,
        args@.len() == CLIENT_ARGUMENTS && !alphabetic_text(args@[2]@) ==> r is Err && r->Err_0@
            == "[CLIENT] the key must be ascii alphabetic"@,
        args@.len() == CLIENT_ARGUMENTS && alphabetic_text(args@[2]@) ==> r is Ok,
{
    if args.len() != CLIENT_ARGUMENTS {
        return Err(String::from_str("[CLIENT] Usage: <message> <key> <IP address> <port>"));
    }
    if !is_alphabetic(args[2].as_str()) {
        return Err(String::from_str("[CLIENT] the key must be ascii alphabetic"));
    }
    Ok(())
}

/// Checks the server's command line: the program's name, an address and a
/// port. A count other than three is refused with the usage line.
pub fn server_arg_validation(args: &Vec<String>) -> (r: Result<(), String>)
    ensures
        args@.len() != SERVER_ARGUMENTS ==> r is Err && r->Err_0@ == "Usage: <path> <port>"@,
        args@.len() == SERVER_ARGUMENTS ==> r is Ok,
{
    if args.len() != SERVER_ARGUMENTS {
        Err(String::from_str("Usage: <path> <port>"))
    } else {
        Ok(())
    }
}

/// Decides whether an address may be used.
///
/// `address` is what parsing the argument gave, `None` where it did not
/// parse. An address that did not parse is invalid; a multicast or an
/// unspecified address is not allowed; any other is accepted.
pub fn check_valid_ip(address: Option<HostAddress>) -> (r: Result<(), String>)
    ensures
        address is None ==> r is Err && r->Err_0@ == "Invalid IP address"@,
        address matches Some(a) && !a.usable() ==> r is Err && r->Err_0@
            == "IP address not allowed for use"@,
        address matches Some(a) && a.usable() ==> r is Ok,
{
    match address {
        None => Err(String::from_str("Invalid IP address")),
        Some(a) => {
            if a.is_multicast() || a.is_unspecified() {
                Err(String::from_str("IP address not allowed for use"))
            } else {
                Ok(())
            }
        },
    }
}

/// The endpoint for `address` and the port that `text` writes.
fn endpoint_for(address: HostAddress, text: &str) -> (r: Result<Endpoint, String>)
    ensures
        match port_of(text@) {
            Some(port) => r is Ok && r->Ok_0 == (Endpoint { address, port }),
            None => r is Err && r->Err_0@ == "[SERVER] Invalid port"@,
        },
{
    match parse_port(text) {
        Some(port) => Ok(Endpoint { address, port }),
        None => Err(String::from_str("[SERVER] Invalid port")),
    }
}

/// Works out where the client connects.
///
/// `args` is the client's command line and `address` its fourth argument,
/// parsed. The port is read from the fifth argument; the endpoint pairs
/// the two. The only failure is a port that does not parse.
pub fn client_connect(args: &Vec<String>, address: HostAddress) -> (r: Result<Endpoint, String>)
    requires
        args@.len() >= CLIENT_ARGUMENTS,
    ensures
        match port_of(args@[4]@) {
            Some(port) => r is Ok && r->Ok_0 == (Endpoint { address, port }),
            None => r is Err && r->Err_0@ == "[SERVER] Invalid port"@,
        },
{
    endpoint_for(address, args[4].as_str())
}

/// Works out where the server listens.
///
/// `args` is the server's command line and `address` its second argument,
/// parsed. The port is read from the third argument; the endpoint pairs
/// the two. The only failure is a port that does not parse.
pub fn setup_server(args: &Vec<String>, address: HostAddress) -> (r: Result<Endpoint, String>)
    requires
        args@.len() >= SERVER_ARGUMENTS,
    ensures
        match port_of(args@[2]@) {
            Some(port) => r is Ok && r->Ok_0 == (Endpoint { address, port }),
            None => r is Err && r->Err_0@ == "[SERVER] Invalid port"@,
        },
{
    endpoint_for(address, args[2].as_str())
}

/// What is printed for an address that [`check_valid_ip`] refused with
/// `reason`.
fn address_error(reason: String) -> (line: String)
    ensures
        line@ == "Ip address error: "@ + reason@,
{
    String::from_str("Ip address error: ").concat(reason.as_str())
}

/// Everything the client settles before it connects, in order: the
/// command line, the address, the port.
///
/// `args` is the command line and `address` what parsing its fourth
/// argument gave, `None` where it did not parse or is not there. The
/// first check that fails decides the line to print, and the process is
/// to exit with a non-zero status without having connected. Only when all
/// pass is there an endpoint to connect to.
pub fn client_startup(args: &Vec<String>, address: Option<HostAddress>) -> (r: Result<
    Endpoint,
    String,
>)
    ensures
        args@.len() != CLIENT_ARGUMENTS ==> r is Err && r->Err_0@
            == "[CLIENT] Usage: <message> <key> <IP address> <port>"@,
        args@.len() == CLIENT_ARGUMENTS && !alphabetic_text(args@[2]@) ==> r is Err && r->Err_0@
            == "[CLIENT] the key must be ascii alphabetic"@,
        args@.len() == CLIENT_ARGUMENTS && alphabetic_text(args@[2]@) ==> match address {
            None => r is Err && r->Err_0@ == "Ip address error: "@ + "Invalid IP address"@,
            Some(a) => if !a.usable() {
                r is Err && r->Err_0@ == "Ip address error: "@ + "IP address not allowed for use"@
            } else {
                match port_of(args@[4]@) {
                    None => r is Err && r->Err_0@ == "[SERVER] Invalid port"@,
                    Some(port) => r is Ok && r->Ok_0 == (Endpoint { address: a, port }),
                }
            },
        },
{
    match client_arg_validation(args) {
        Err(e) => {
            return Err(e);
        },
        Ok(()) => {},
    }
    match check_valid_ip(address) {
        Err(e) => {
            return Err(address_error(e));
        },
        Ok(()) => {},
    }
    match address {
        Some(a) => client_connect(args, a),
        None => Err(address_error(String::from_str("Invalid IP address"))),
    }
}

/// Everything the server settles before it listens, in order: the command
/// line, the address, the port.
///
/// `args` is the command line and `address` what parsing its second
/// argument gave, `None` where it did not parse or is not there. The
/// first check that fails decides the line to print, and the process is
/// to exit with a non-zero status without having listened. Only when all
/// pass is there an endpoint to listen on.
pub fn server_startup(args: &Vec<String>, address: Option<HostAddress>) -> (r: Result<
    Endpoint,
    String,
>)
    ensures
        args@.len() != SERVER_ARGUMENTS ==> r is Err && r->Err_0@ == "Usage: <path> <port>"@,
        args@.len() == SERVER_ARGUMENTS ==> match address {
            None => r is Err && r->Err_0@ == "Ip address error: "@ + "Invalid IP address"@,
            Some(a) => if !a.usable() {
                r is Err && r->Err_0@ == "Ip address error: "@ + "IP address not allowed for use"@
            } else {
                match port_of(args@[2]@) {
                    None => r is Err && r->Err_0@ == "[SERVER] Invalid port"@,
                    Some(port) => r is Ok && r->Ok_0 == (Endpoint { address: a, port }),
                }
            },
        },
{
    match server_arg_validation(args) {
        Err(e) => {
            return Err(e);
        },
        Ok(()) => {},
    }
    match check_valid_ip(address) {
        Err(e) => {
            return Err(address_error(e));
        },
        Ok(()) => {},
    }
    match address {
        Some(a) => setup_server(args, a),
        None => Err(address_error(String::from_str("Invalid IP address"))),
    }
}

/// Builds the bytes that the client sends: the frame of its key (the third
/// argument) and its message (the second), each taken as its UTF-8 bytes.
///
/// Fails with `FrameTooLarge` exactly when the frame would not fit the
/// transmission buffer.
pub fn format_send(args: Vec<String>) -> (r: Result<Vec<u8>, ProtocolError>)
    requires
        args@.len() >= 3,
    ensures
        ({
            let key = encode_utf8(args@[2]@);
            let message = encode_utf8(args@[1]@);
            if key.len() + 1 + message.len() <= FRAME_CAPACITY {
                r is Ok && r->Ok_0@ == frame_bytes(key, message)
            } else {
                r == Err::<Vec<u8>, ProtocolError>(ProtocolError::FrameTooLarge)
            }
        }),
{
    encode_frame(args[2].as_str().as_bytes(), args[1].as_str().as_bytes())
}

/// Picks the reply out of the client's receive buffer.
///
/// `received` is what the read reported: the number of bytes it put into
/// `buffer`, or `None` where it failed. The reply is exactly those bytes,
/// unmodified; a failed read gives no reply and is no error. A read said
/// to have brought more bytes than the buffer holds counts as failed.
pub fn client_response_handler(buffer: &[u8], received: Option<usize>) -> (r: Option<Vec<u8>>)
    ensures
        match received {
            Some(n) => if n <= buffer@.len() {
                r is Some && r->0@ == buffer@.take(n as int)
            } else {
                r is None
            },
            None => r is None,
        },
{
    match received {
        Some(n) => if n <= buffer.len() {
            Some(slice_to_vec(slice_subrange(buffer, 0, n)))
        } else {
            None
        },
        None => None,
    }
}

/// `a` is an IPv4 address other than the host's own loopback addresses.
pub open spec fn routable_v4(a: HostAddress) -> bool {
    a is V4 && !a.loopback_v4()
}

/// Picks the address to announce: the first IPv4 address in `addresses`
/// that is no loopback address. `None` when there is no such address.
pub fn find_address(addresses: &Vec<HostAddress>) -> (r: Option<[u8; 4]>)
    ensures
        match r {
            Some(octets) => exists|i: int|
                0 <= i < addresses@.len() && #[trigger] addresses@[i] == HostAddress::V4(octets)
                    && routable_v4(addresses@[i]) && forall|j: int|
                    0 <= j < i ==> !routable_v4(#[trigger] addresses@[j]),
            None => forall|j: int|
                0 <= j < addresses@.len() ==> !routable_v4(#[trigger] addresses@[j]),
        },
{
    let mut i: usize = 0;
    while i < addresses.len()
        invariant
            i <= addresses@.len(),
            forall|j: int| 0 <= j < i ==> !routable_v4(#[trigger] addresses@[j]),
        decreases addresses.len() - i,
    {
        match addresses[i] {
            HostAddress::V4(octets) => {
                if octets[0] != 127 {
                    assert(addresses@[i as int] == HostAddress::V4(octets));
                    return Some(octets);
                }
            },
            HostAddress::V6(_) => {},
        }
        i += 1;
    }
    None
}

} // verus!
