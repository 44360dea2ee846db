//! How a run is set up: which role the command line selects, which port the
//! server listens on, which ports are tried in turn, and the address a client
//! connects to.
use vstd::prelude::*;
use crate::config::Config;
use crate::decimal::{all_digits, decimal, lemma_decimal_reads_back, numeral_value, push_decimal};

verus! {

/// What a run of the program does.
#[derive(Debug, PartialEq, Eq)]
pub enum Role {
    /// Client that finds the server through its UDP broadcast (the positional
    /// clipboard id is the port to listen on).
    LegacyClient(u16),
    /// Server on a fixed port, taken from `--port` or from the configuration.
    Server,
    /// Client connecting to the `IP:PORT` given with `--connect`.
    Connect(String),
    /// Client connecting to the address in the configuration.
    FromConfig,
}

/// Picks the role from the command line: a positional clipboard id selects the
/// legacy client; otherwise `--listen` selects the server; otherwise
/// `--connect` selects a client of that address; otherwise the client reads
/// the configuration.
pub fn choose_role(clipboard: Option<u16>, listen: bool, connect: Option<String>) -> (role: Role)
    ensures
        match clipboard {
            Some(id) => role == Role::LegacyClient(id),
            None => if listen {
                role == Role::Server
            } else {
                match connect {
                    Some(addr) => role == Role::Connect(addr),
                    None => role == Role::FromConfig,
                }
            },
        },
{
    match clipboard {
        Some(id) => Role::LegacyClient(id),
        None => {
            if listen {
                Role::Server
            } else {
                match connect {
                    Some(addr) => Role::Connect(addr),
                    None => Role::FromConfig,
                }
            }
        },
    }
}

/// The port the server starts from: `--port` when given, else the configured one.
pub fn listen_port(port: Option<u16>, config: &Config) -> (chosen: u16)
    ensures
        chosen == match port {
            Some(p) => p,
            None => config.server_port,
        },
{
    match port {
        Some(p) => p,
        None => config.server_port,
    }
}

/// How many consecutive ports, from the given one on, are tried.
pub const PORT_TRIES: u16 = 5;

/// The number of ports in the range that starts at `base`: `PORT_TRIES`, fewer
/// when the range would pass the highest port number.
pub open spec fn port_span(base: u16) -> int {
    if base + PORT_TRIES <= 65536 {
        PORT_TRIES as int
    } else {
        65536 - base
    }
}

/// The port a server tries at its `attempt`-th bind, counting from 0; none once
/// every port of the range has been tried.
pub open spec fn server_port_at(base: u16, attempt: int) -> Option<u16> {
    if 0 <= attempt < port_span(base) {
        Some((base + attempt) as u16)
    } else {
        None
    }
}

/// The port a client tries at its `attempt`-th connection, counting from 0: it
/// goes through the range again and again.
pub open spec fn client_port_at(base: u16, attempt: int) -> u16 {
    (base + attempt % port_span(base)) as u16
}

fn span(base: u16) -> (n: u16)
    ensures
        n == port_span(base),
        1 <= n <= PORT_TRIES,
{
    if base <= 65535 - PORT_TRIES + 1 {
        PORT_TRIES
    } else {
        ((65535 - base) + 1) as u16
    }
}

/// The ports a server binds in turn: each port of the range once, in
/// increasing order. The server stops at the first port it can bind.
pub struct ServerPorts {
    pub base: u16,
    /// How many ports have been handed out so far.
    pub attempt: u16,
}

impl ServerPorts {
    /// Starts at the given port.
    pub fn new(base: u16) -> (ports: ServerPorts)
        ensures
            ports.base == base,
            ports.attempt == 0,
    {
        ServerPorts { base, attempt: 0 }
    }

    /// The next port to try after a failed bind, or `None` when every port of
    /// the range has failed and the server gives up.
    pub fn next_port(&mut self) -> (port: Option<u16>)
        ensures
            port == server_port_at(old(self).base, old(self).attempt as int),
            final(self).base == old(self).base,
            final(self).attempt == if port is Some {
                old(self).attempt + 1
            } else {
                old(self).attempt as int
            },
    {
        let n: u16 = span(self.base);
        if self.attempt < n {
            let port: u16 = self.base + self.attempt;
            self.attempt = self.attempt + 1;
            Some(port)
        } else {
            None
        }
    }
}

/// The ports a client connects to in turn: round the range again and again,
/// until a connection succeeds.
pub struct ClientPorts {
    pub base: u16,
    /// Where in the range the next attempt is (taken modulo the range size).
    pub offset: u16,
}

impl ClientPorts {
    /// Starts at the given port.
    pub fn new(base: u16) -> (ports: ClientPorts)
        ensures
            ports.base == base,
            ports.offset == 0,
    {
        ClientPorts { base, offset: 0 }
    }

    /// The port for the next connection attempt; the one after it follows in
    /// the range, back to the first port after the last.
    pub fn next_port(&mut self) -> (port: u16)
        ensures
            port == client_port_at(old(self).base, old(self).offset as int),
            final(self).base == old(self).base,
            final(self).offset == (old(self).offset + 1) % port_span(old(self).base),
    {
        let n: u16 = span(self.base);
        let current: u16 = self.offset % n;
        proof {
            lemma_next_offset(self.offset as int, n as int);
        }
        self.offset = (current + 1) % n;
        self.base + current
    }
}

/// After `k` attempts of a client, its offset is `k` modulo the range size, so
/// its `k`-th port is `client_port_at(base, k)`.
pub proof fn law_client_offset_counts_attempts(base: u16, k: int)
    requires
        k >= 0,
    ensures
        (k % port_span(base) + 1) % port_span(base) == (k + 1) % port_span(base),
        client_port_at(base, k % port_span(base)) == client_port_at(base, k),
{
    let n: int = port_span(base);
    lemma_next_offset(k, n);
    vstd::arithmetic::div_mod::lemma_mod_twice(k, n);
}

proof fn lemma_next_offset(x: int, m: int)
    requires
        m > 0,
    ensures
        (x % m + 1) % m == (x + 1) % m,
{
    vstd::arithmetic::div_mod::lemma_add_mod_noop(x, 1, m);
    vstd::arithmetic::div_mod::lemma_add_mod_noop(x % m, 1, m);
    vstd::arithmetic::div_mod::lemma_mod_twice(x, m);
}

/// The server tries each port of the range once, in increasing order from the
/// given port, and at most `PORT_TRIES` of them.
pub proof fn law_server_tries_each_port_once(base: u16, i: int, j: int)
    requires
        server_port_at(base, i) is Some,
        server_port_at(base, j) is Some,
    ensures
        server_port_at(base, i) == Some((base + i) as u16),
        base <= base + i <= base + PORT_TRIES - 1,
        i < j ==> server_port_at(base, i)->0 < server_port_at(base, j)->0,
        server_port_at(base, i) == server_port_at(base, j) ==> i == j,
{
}

/// The client goes round the same ports as the server, and comes back to the
/// first port after trying them all.
pub proof fn law_client_cycles_through_server_ports(base: u16, attempt: int)
    requires
        attempt >= 0,
    ensures
        client_port_at(base, attempt + port_span(base)) == client_port_at(base, attempt),
        server_port_at(base, attempt % port_span(base)) == Some(client_port_at(base, attempt)),
        client_port_at(base, 0) == base,
{
    let n: int = port_span(base);
    assert((attempt + n) % n == attempt % n) by {
        vstd::arithmetic::div_mod::lemma_mod_add_multiples_vanish(attempt, n);
    }
    assert(0 <= attempt % n < n) by {
        vstd::arithmetic::div_mod::lemma_mod_bound(attempt, n);
    }
}

/// The server binds the given port and the next ones, `PORT_TRIES` in all
/// (fewer only where they would pass port 65535), one at a time in increasing
/// order, and gives up after the last.
pub proof fn law_server_port_sequence(base: u16, attempt: int)
    ensures
        (0 <= attempt < 5 && base + attempt <= 65535) ==> server_port_at(base, attempt) == Some(
            (base + attempt) as u16,
        ),
        !(0 <= attempt < 5 && base + attempt <= 65535) ==> server_port_at(base, attempt) is None,
{
}

/// The client's ports: at its `k`-th attempt it connects to `base + k mod m`,
/// where `m` is 5, or the number of ports from `base` to 65535 when fewer. It
/// thus reaches each port the server may bind, the `i`-th of them at its
/// `i`-th attempt.
pub proof fn law_client_port_sequence(base: u16, k: int)
    requires
        k >= 0,
    ensures
        client_port_at(base, k) == base + k % (if base <= 65531 {
            5
        } else {
            65536 - base
        }),
        (0 <= k < 5 && base + k <= 65535) ==> server_port_at(base, k) == Some(
            client_port_at(base, k),
        ),
{
    let m: int = port_span(base);
    assert(0 <= k % m < m) by {
        vstd::arithmetic::div_mod::lemma_mod_bound(k, m);
    }
    if 0 <= k < m {
        vstd::arithmetic::div_mod::lemma_small_mod(k as nat, m as nat);
    }
}

/// After a client attempt, the next one goes on with the following port, and
/// comes back to the given port after the last one of the range.
pub proof fn law_client_next_offset(base: u16, offset: int)
    requires
        offset >= 0,
    ensures
        (offset + 1) % port_span(base) == (if offset % port_span(base) + 1 < (if base
            <= 65531 {
            5
        } else {
            65536 - base
        }) {
            offset % port_span(base) + 1
        } else {
            0
        }),
{
    let m: int = port_span(base);
    lemma_next_offset(offset, m);
    assert(0 <= offset % m < m) by {
        vstd::arithmetic::div_mod::lemma_mod_bound(offset, m);
    }
    if offset % m + 1 < m {
        vstd::arithmetic::div_mod::lemma_small_mod((offset % m + 1) as nat, m as nat);
    } else {
        vstd::arithmetic::div_mod::lemma_mod_self_0(m);
    }
}

/// The address text is the whole host, then `:`, then the port's decimal
/// numeral, which reads back as the port and holds no colon.
pub proof fn law_address_keeps_host_and_port(host: Seq<char>, port: u16)
    ensures
        address_text(host, port).len() > host.len() + 1,
        address_text(host, port).take(host.len() as int) == host,
        address_text(host, port)[host.len() as int] == ':',
        all_digits(address_text(host, port).skip(host.len() + 1int)),
        numeral_value(address_text(host, port).skip(host.len() + 1int)) == port,
{
    lemma_decimal_reads_back(port as nat);
    let a: Seq<char> = address_text(host, port);
    assert(a.take(host.len() as int) =~= host);
    assert(a.skip(host.len() + 1int) =~= decimal(port as nat));
}

/// The address text for a host and port: `host:port`.
pub open spec fn address_text(host: Seq<char>, port: u16) -> Seq<char> {
    host + seq![':'] + decimal(port as nat)
}

/// The address a client connects to for the given host and port.
pub fn connect_address(host: &str, port: u16) -> (addr: String)
    ensures
        addr@ == address_text(host@, port),
{
    proof {
        reveal_strlit(":");
    }
    let mut addr = String::new();
    addr.append(host);
    addr.append(":");
    push_decimal(&mut addr, port);
    assert(addr@ =~= address_text(host@, port));
    addr
}

} // verus!
