use vstd::prelude::*;
use crate::address::{IpAddress, MulticastEndpoint, family_spec, is_multicast_spec};
use crate::socket::{Role, SocketSetup, socket_setup, socket_setup_spec};

verus! {

/// The three session modes.
#[derive(Clone, Copy, Debug, PartialEq, Eq, Structural)]
pub enum Command {
    Listen,
    Send,
    Ping,
}

/// Rejected input; every variant is of the invalid-input kind.
#[derive(Clone, Copy, Debug, PartialEq, Eq, Structural)]
pub enum InputError {
    /// Wrong number of arguments, or an unknown mode name.
    Usage,
    /// The address text is no IP address.
    InvalidAddress,
    /// The port text is no number from 0 to 65535.
    InvalidPort,
    /// The address is valid but not multicast.
    NotMulticast(IpAddress),
}

/// The arguments after the program name, with the mode and the port
/// resolved and the address still as text.
#[derive(Debug)]
pub struct CommandLine {
    pub command: Command,
    pub address: String,
    pub port: u16,
}

/// A session ready to start: its mode, its validated endpoint, and how its
/// socket is to be set up.
#[derive(Clone, Copy, Debug, PartialEq, Eq, Structural)]
pub struct Session {
    pub command: Command,
    pub endpoint: MulticastEndpoint,
    pub setup: SocketSetup,
}

/// The mode that a mode name selects.
pub open spec fn command_spec(name: Seq<char>) -> Option<Command> {
    if name == "listen"@ {
        Some(Command::Listen)
    } else if name == "send"@ {
        Some(Command::Send)
    } else if name == "ping"@ {
        Some(Command::Ping)
    } else {
        None
    }
}

/// The socket role of each mode.
pub open spec fn role_spec(c: Command) -> Role {
    match c {
        Command::Listen => Role::Listener,
        Command::Send => Role::Sender,
        Command::Ping => Role::Pinger,
    }
}

pub open spec fn is_ascii_digit(c: char) -> bool {
    '0' <= c && c <= '9'
}

pub open spec fn digit_value(c: char) -> int {
    c as int - '0' as int
}

/// The number that a string of decimal digits spells.
pub open spec fn digits_value(s: Seq<char>) -> int
    decreases s.len(),
{
    if s.len() == 0 {
        0
    } else {
        digits_value(s.drop_last()) * 10 + digit_value(s.last())
    }
}

/// The digits of a number's text: all of it but a leading `+`.
pub open spec fn unsigned_digits(s: Seq<char>) -> Seq<char> {
    if s.len() > 0 && s[0] == '+' {
        s.skip(1)
    } else {
        s
    }
}

/// The port that a text spells: an optional `+`, then one or more decimal
/// digits whose value is at most 65535.
pub open spec fn port_spec(s: Seq<char>) -> Option<u16> {
    let d = unsigned_digits(s);
    if d.len() > 0 && (forall|i: int| 0 <= i < d.len() ==> is_ascii_digit(#[trigger] d[i]))
        && digits_value(d) <= u16::MAX {
        Some(digits_value(d) as u16)
    } else {
        None
    }
}

/// What starting a session on a parsed address yields: the invalid-input
/// error for a non-multicast address, else the session with its socket
/// plan for the mode's role.
pub open spec fn run_spec(command: Command, addr: IpAddress, port: u16) -> Result<
    Session,
    InputError,
> {
    if !is_multicast_spec(addr) {
        Err(InputError::NotMulticast(addr))
    } else {
        let ep = MulticastEndpoint { addr, port };
        Ok(Session { command, endpoint: ep, setup: socket_setup_spec(ep, role_spec(command)) })
    }
}

/// Resolves a mode name.
pub fn parse_command(name: &String) -> (r: Result<Command, InputError>)
    ensures
        r matches Ok(c) ==> command_spec(name@) == Some(c),
        r is Err ==> command_spec(name@) is None && r == Err::<Command, InputError>(
            InputError::Usage,
        ),
{
    if *name == "listen".to_owned() {
        Ok(Command::Listen)
    } else if *name == "send".to_owned() {
        Ok(Command::Send)
    } else if *name == "ping".to_owned() {
        Ok(Command::Ping)
    } else {
        Err(InputError::Usage)
    }
}

/// Parses a port number: an optional `+`, then decimal digits with a value
/// of at most 65535.
pub fn parse_port(text: &str) -> (r: Result<u16, InputError>)
    ensures
        r matches Ok(p) ==> port_spec(text@) == Some(p),
        r is Err ==> port_spec(text@) is None && r == Err::<u16, InputError>(
            InputError::InvalidPort,
        ),
{
    let n: usize = text.unicode_len();
    let mut start: usize = 0;
    if n > 0 && text.get_char(0) == '+' {
        start = 1;
    }
    let ghost d = unsigned_digits(text@);
    assert(d =~= text@.subrange(start as int, n as int));
    if start == n {
        return Err(InputError::InvalidPort);
    }
    // `value` saturates at one past the largest port.
    let mut value: u32 = 0;
    let mut i: usize = start;
    while i < n
        invariant
            start <= i <= n,
            n == text@.len(),
            d == text@.subrange(start as int, n as int),
            d == unsigned_digits(text@),
            forall|j: int| 0 <= j < i - start ==> is_ascii_digit(#[trigger] d[j]),
            value as int == if digits_value(d.take(i - start)) <= u16::MAX {
                digits_value(d.take(i - start))
            } else {
                u16::MAX + 1
            },
        decreases n - i,
    {
        let c = text.get_char(i);
        if !('0' <= c && c <= '9') {
            assert(d[i - start] == c);
            return Err(InputError::InvalidPort);
        }
        let ghost prev = d.take(i - start);
        let digit: u32 = (c as u32) - ('0' as u32);
        value = value * 10 + digit;
        if value > 65535 {
            value = 65536;
        }
        i = i + 1;
        assert(d.take(i - start).drop_last() =~= prev);
        assert(d.take(i - start).last() == c);
    }
    assert(d.take(n - start) =~= d);
    if value > 65535 {
        Err(InputError::InvalidPort)
    } else {
        Ok(value as u16)
    }
}

/// Checks the argument count, resolves the mode name and parses the port.
/// `args` holds the arguments after the program name: mode, address, port.
pub fn parse_cmdline(args: &Vec<String>) -> (r: Result<CommandLine, InputError>)
    ensures
        args@.len() != 3 ==> r == Err::<CommandLine, InputError>(InputError::Usage),
        args@.len() == 3 && command_spec(args@[0]@) is None ==> r == Err::<
            CommandLine,
            InputError,
        >(InputError::Usage),
        args@.len() == 3 && command_spec(args@[0]@) is Some && port_spec(args@[2]@) is None
            ==> r == Err::<CommandLine, InputError>(InputError::InvalidPort),
        args@.len() == 3 && command_spec(args@[0]@) is Some && port_spec(args@[2]@) is Some
            ==> (r matches Ok(cl) && Some(cl.command) == command_spec(args@[0]@)
            && cl.address@ == args@[1]@ && Some(cl.port) == port_spec(args@[2]@)),
{
    if args.len() != 3 {
        return Err(InputError::Usage);
    }
    let command = parse_command(&args[0])?;
    let port = parse_port(args[2].as_str())?;
    Ok(CommandLine { command, address: args[1].clone(), port })
}

/// Starts a session on a parsed address and port: refuses an address that
/// is not multicast before any socket is made, and otherwise plans the
/// socket for the mode.
pub fn run(command: Command, addr: IpAddress, port: u16) -> (r: Result<Session, InputError>)
    ensures
        r == run_spec(command, addr, port),
        r matches Ok(s) ==> s.endpoint.wf(),
{
    if !addr.is_multicast() {
        return Err(InputError::NotMulticast(addr));
    }
    let endpoint = MulticastEndpoint { addr, port };
    let role = match command {
        Command::Listen => Role::Listener,
        Command::Send => Role::Sender,
        Command::Ping => Role::Pinger,
    };
    Ok(Session { command, endpoint, setup: socket_setup(endpoint, role) })
}

/// Every mode refuses an address that is not multicast with the
/// invalid-input error naming that address, whatever the port, and plans
/// no socket for it.
pub proof fn non_multicast_is_refused(command: Command, addr: IpAddress, port: u16)
    requires
        !is_multicast_spec(addr),
    ensures
        run_spec(command, addr, port) == Err::<Session, InputError>(InputError::NotMulticast(addr)),
{
}

/// For every multicast address of either family and every port, a listen
/// session is accepted, and its socket binds the unspecified address of the
/// group's family on that port and joins the group, without connecting.
pub proof fn listener_binds_and_joins(addr: IpAddress, port: u16)
    requires
        is_multicast_spec(addr),
    ensures
        run_spec(Command::Listen, addr, port) matches Ok(s) && s.setup.family == family_spec(addr)
            && s.setup.bind_port == port && s.setup.join == Some(addr) && s.setup.connect is None
            && s.endpoint == (MulticastEndpoint { addr, port }),
{
}

} // verus!
