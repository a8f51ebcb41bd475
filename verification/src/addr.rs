//! Node addresses and their rendering.

use vstd::prelude::*;
use vstd::string::*;

verus! {

/// Address of a remote node as it is kept in configuration.
#[derive(Clone, Debug, PartialEq, Eq, Hash, Default)]
pub struct PersistableHostAddr {
    pub host: String,
    pub port: u16,
}

/// Address of a remote node as message payloads carry it.
#[derive(Clone, Debug, PartialEq, Eq)]
pub struct HostAddr {
    pub host: String,
    pub port: u32,
}

/// Settings of one RPC client.
#[derive(Clone, Debug)]
pub struct ClientConfig {
    pub address: PersistableHostAddr,
    /// Timeout of a request.
    pub timeout: u32,
    /// Number of retries.
    pub retry: u32,
}

/// The character of a decimal digit.
pub open spec fn digit_char(d: nat) -> char {
    if d == 0 {
        '0'
    } else if d == 1 {
        '1'
    } else if d == 2 {
        '2'
    } else if d == 3 {
        '3'
    } else if d == 4 {
        '4'
    } else if d == 5 {
        '5'
    } else if d == 6 {
        '6'
    } else if d == 7 {
        '7'
    } else if d == 8 {
        '8'
    } else {
        '9'
    }
}

/// A number in decimal, without sign or leading zeros.
pub open spec fn decimal(n: nat) -> Seq<char>
    decreases n,
{
    if n < 10 {
        seq![digit_char(n)]
    } else {
        decimal(n / 10).push(digit_char(n % 10))
    }
}

/// The scheme that every rendered address starts with.
pub open spec fn uri_scheme() -> Seq<char> {
    seq!['h', 't', 't', 'p', ':', '/', '/']
}

/// `http://`, the host, a colon, and the port in decimal.
pub open spec fn spec_uri(host: Seq<char>, port: u16) -> Seq<char> {
    uri_scheme() + host + seq![':'] + decimal(port as nat)
}

fn digit_str(d: u16) -> (s: &'static str)
    requires
        d < 10,
    ensures
        s@ =~= seq![digit_char(d as nat)],
{
    proof {
        reveal_strlit("0");
        reveal_strlit("1");
        reveal_strlit("2");
        reveal_strlit("3");
        reveal_strlit("4");
        reveal_strlit("5");
        reveal_strlit("6");
        reveal_strlit("7");
        reveal_strlit("8");
        reveal_strlit("9");
    }
    if d == 0 {
        "0"
    } else if d == 1 {
        "1"
    } else if d == 2 {
        "2"
    } else if d == 3 {
        "3"
    } else if d == 4 {
        "4"
    } else if d == 5 {
        "5"
    } else if d == 6 {
        "6"
    } else if d == 7 {
        "7"
    } else if d == 8 {
        "8"
    } else {
        "9"
    }
}

/// Appends `n` in decimal to `out`.
pub fn push_decimal(out: &mut String, n: u16)
    ensures
        final(out)@ == old(out)@ + decimal(n as nat),
    decreases n,
{
    if n >= 10 {
        push_decimal(out, n / 10);
    }
    out.append(digit_str(n % 10));
    assert(out@ =~= old(out)@ + decimal(n as nat));
}

impl PersistableHostAddr {
    /// Renders the address as a URI with the fixed scheme.
    pub fn as_uri(&self) -> (uri: String)
        ensures
            uri@ == spec_uri(self.host@, self.port),
    {
        let mut uri = String::from_str("http://");
        uri.append(self.host.as_str());
        uri.append(":");
        proof {
            reveal_strlit("http://");
            reveal_strlit(":");
            assert(uri@ =~= uri_scheme() + self.host@ + seq![':']);
        }
        push_decimal(&mut uri, self.port);
        uri
    }

    /// An address is usable iff it names a host and a port.
    pub open spec fn spec_is_valid(&self) -> bool {
        self.host@.len() > 0 && self.port > 0
    }

    /// Whether the host is non-empty and the port is not zero.
    pub fn is_valid(&self) -> (valid: bool)
        ensures
            valid == self.spec_is_valid(),
    {
        !self.host.as_str().is_empty() && self.port > 0
    }

    /// The address of this node: the discovered host name, or an empty host
    /// where none was found, with `port` cut to its low 16 bits.
    pub fn local(hostname: Option<String>, port: usize) -> (addr: Self)
        ensures
            addr.host@ == (match hostname {
                Some(name) => name@,
                None => Seq::<char>::empty(),
            }),
            addr.port == port as u16,
            addr.port == port % 0x1_0000,
    {
        let host = match hostname {
            Some(name) => name,
            None => String::new(),
        };
        assert(port as u16 == port % 0x1_0000) by (bit_vector);
        Self { host, port: #[verifier::truncate] (port as u16) }
    }
}

/// Converts a configured address to the form that message payloads carry.
pub fn to_host_addr(hashable: &PersistableHostAddr) -> (addr: HostAddr)
    ensures
        addr.host@ == hashable.host@,
        addr.port == hashable.port,
{
    HostAddr { host: hashable.host.clone(), port: hashable.port as u32 }
}

/// A command's output without its last character, the line end.
pub open spec fn spec_without_line_end(raw: Seq<char>) -> Seq<char> {
    if raw.len() > 0 {
        raw.drop_last()
    } else {
        raw
    }
}

/// The host name in what the host-name command printed: its output without
/// the last character. `output` is nothing where the command could not be
/// run, and then so is the name.
pub fn hostname(output: Option<String>) -> (name: Option<String>)
    ensures
        output is None <==> name is None,
        output is Some ==> name->Some_0@ == spec_without_line_end(output->Some_0@),
{
    match output {
        None => None,
        Some(raw) => {
            let length: usize = raw.as_str().unicode_len();
            if length == 0 {
                Some(raw)
            } else {
                Some(String::from_str(raw.as_str().substring_char(0, length - 1)))
            }
        },
    }
}

} // verus!
