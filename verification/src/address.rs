//! Network addresses, and the URL under which a listening server is reached.
use crate::text::{decimal, decimal_text, decimal_text_is_digits, decimal_text_is_injective};
use vstd::prelude::*;
use vstd::string::StringExecFns;

verus! {

/// An IP address: the four octets of an IPv4 address, or the eight segments of an IPv6 address,
/// the most significant first.
#[derive(Clone, Copy, Debug, PartialEq, Eq, Structural)]
pub enum IpAddr {
    V4(u8, u8, u8, u8),
    V6(u16, u16, u16, u16, u16, u16, u16, u16),
}

/// An IP address and a port.
#[derive(Clone, Copy, Debug, PartialEq, Eq, Structural)]
pub struct SocketAddr {
    pub ip: IpAddr,
    pub port: u16,
}

/// The address that a server listens on.
pub enum ServerAddr {
    /// The octets of an IPv4 address, the most significant first, and a port.
    V4 { octets: (u8, u8, u8, u8), port: u16 },
    /// The segments of an IPv6 address, the most significant first, and a port.
    V6 {
        segments: (u16, u16, u16, u16, u16, u16, u16, u16),
        port: u16,
        /// The standard notation of the IPv6 address.
        ip_text: String,
        /// The standard notation of the whole address.
        text: String,
    },
}

/// The dotted decimal notation of an IPv4 address.
pub open spec fn dotted_text(octets: (u8, u8, u8, u8)) -> Seq<char> {
    decimal_text(octets.0 as nat) + "."@ + decimal_text(octets.1 as nat) + "."@ + decimal_text(
        octets.2 as nat,
    ) + "."@ + decimal_text(octets.3 as nat)
}

impl IpAddr {
    /// The addresses of the host itself: 127.0.0.0/8 in IPv4 and ::1 in IPv6.
    pub open spec fn loopback(self) -> bool {
        match self {
            IpAddr::V4(a, _, _, _) => a == 127,
            IpAddr::V6(..) => self == IpAddr::V6(0, 0, 0, 0, 0, 0, 0, 1),
        }
    }

    /// The address whose bits are all zero.
    pub open spec fn unspecified(self) -> bool {
        match self {
            IpAddr::V4(..) => self == IpAddr::V4(0, 0, 0, 0),
            IpAddr::V6(..) => self == IpAddr::V6(0, 0, 0, 0, 0, 0, 0, 0),
        }
    }

    /// Whether this is an address of the host itself.
    pub fn is_loopback(&self) -> (r: bool)
        ensures
            r == self.loopback(),
            r == match *self {
                IpAddr::V4(a, _, _, _) => a == 127,
                IpAddr::V6(a, b, c, d, e, f, g, h) => a == 0 && b == 0 && c == 0 && d == 0 && e == 0
                    && f == 0 && g == 0 && h == 1,
            },
    {
        match *self {
            IpAddr::V4(a, _, _, _) => a == 127,
            IpAddr::V6(a, b, c, d, e, f, g, h) => {
                a == 0 && b == 0 && c == 0 && d == 0 && e == 0 && f == 0 && g == 0 && h == 1
            },
        }
    }

    /// Whether this is the address that stands for all addresses of the host.
    pub fn is_unspecified(&self) -> (r: bool)
        ensures
            r == self.unspecified(),
            r == match *self {
                IpAddr::V4(a, b, c, d) => a == 0 && b == 0 && c == 0 && d == 0,
                IpAddr::V6(a, b, c, d, e, f, g, h) => a == 0 && b == 0 && c == 0 && d == 0 && e == 0
                    && f == 0 && g == 0 && h == 0,
            },
    {
        match *self {
            IpAddr::V4(a, b, c, d) => a == 0 && b == 0 && c == 0 && d == 0,
            IpAddr::V6(a, b, c, d, e, f, g, h) => {
                a == 0 && b == 0 && c == 0 && d == 0 && e == 0 && f == 0 && g == 0 && h == 0
            },
        }
    }
}

impl ServerAddr {
    /// The IP address.
    pub open spec fn ip(self) -> IpAddr {
        match self {
            ServerAddr::V4 { octets: (a, b, c, d), .. } => IpAddr::V4(a, b, c, d),
            ServerAddr::V6 { segments: (a, b, c, d, e, f, g, h), .. } => IpAddr::V6(
                a,
                b,
                c,
                d,
                e,
                f,
                g,
                h,
            ),
        }
    }

    /// The port.
    pub open spec fn port(self) -> u16 {
        match self {
            ServerAddr::V4 { port, .. } => port,
            ServerAddr::V6 { port, .. } => port,
        }
    }

    /// The notation of the IP address.
    pub open spec fn ip_text(self) -> Seq<char> {
        match self {
            ServerAddr::V4 { octets, .. } => dotted_text(octets),
            ServerAddr::V6 { ip_text, .. } => ip_text@,
        }
    }

    /// The notation of the whole address.
    pub open spec fn text(self) -> Seq<char> {
        match self {
            ServerAddr::V4 { octets, port } => dotted_text(octets) + ":"@ + decimal_text(
                port as nat,
            ),
            ServerAddr::V6 { text, .. } => text@,
        }
    }

    /// Whether the notation of an IPv6 address is one: it holds no bracket, and the notation of
    /// the whole address starts with it, in brackets.
    pub open spec fn well_written(self) -> bool {
        match self {
            ServerAddr::V4 { .. } => true,
            ServerAddr::V6 { ip_text, text, .. } => {
                &&& !ip_text@.contains(']')
                &&& ("["@ + ip_text@).is_prefix_of(text@)
            },
        }
    }

    /// Whether a browser on the same machine reaches this address as `localhost`.
    pub open spec fn local(self) -> bool {
        self.ip().loopback() || self.ip().unspecified()
    }

    /// The host part of the server's URL: `localhost` for an address of this machine, otherwise
    /// the IP address, in brackets if it is an IPv6 address.
    pub open spec fn host_text(self) -> Seq<char> {
        if self.local() {
            "localhost"@
        } else if self is V6 {
            "["@ + self.ip_text() + "]"@
        } else {
            self.ip_text()
        }
    }

    /// The part of the server's URL that follows the host. The default ports of the two schemes
    /// are left out.
    pub open spec fn port_suffix(self) -> Seq<char> {
        if self.port() == 443 || self.port() == 80 {
            Seq::empty()
        } else {
            ":"@ + decimal_text(self.port() as nat)
        }
    }

    /// The server's URL.
    pub open spec fn uri_text(self) -> Seq<char> {
        let scheme = if self.port() == 443 {
            "https://"@
        } else {
            "http://"@
        };
        scheme + self.host_text() + self.port_suffix()
    }

    /// The address without its notation.
    pub fn socket_addr(&self) -> (addr: SocketAddr)
        ensures
            addr.ip == self.ip(),
            addr.port == self.port(),
            match *self {
                ServerAddr::V4 { octets, port } => addr == (SocketAddr {
                    ip: IpAddr::V4(octets.0, octets.1, octets.2, octets.3),
                    port,
                }),
                ServerAddr::V6 { segments, port, .. } => addr == (SocketAddr {
                    ip: IpAddr::V6(
                        segments.0,
                        segments.1,
                        segments.2,
                        segments.3,
                        segments.4,
                        segments.5,
                        segments.6,
                        segments.7,
                    ),
                    port,
                }),
            },
    {
        match self {
            ServerAddr::V4 { octets, port } => SocketAddr {
                ip: IpAddr::V4(octets.0, octets.1, octets.2, octets.3),
                port: *port,
            },
            ServerAddr::V6 { segments, port, .. } => SocketAddr {
                ip: IpAddr::V6(
                    segments.0,
                    segments.1,
                    segments.2,
                    segments.3,
                    segments.4,
                    segments.5,
                    segments.6,
                    segments.7,
                ),
                port: *port,
            },
        }
    }

    /// The notation of the whole address.
    pub fn notation(&self) -> (r: String)
        ensures
            r@ == self.text(),
            match *self {
                ServerAddr::V4 { octets, port } => r@ == decimal_text(octets.0 as nat) + "."@ + decimal_text(octets.1 as nat)
                    + "."@ + decimal_text(octets.2 as nat) + "."@ + decimal_text(octets.3 as nat)
                    + ":"@ + decimal_text(port as nat),
                ServerAddr::V6 { text, .. } => r@ == text@,
            },
    {
        match self {
            ServerAddr::V4 { octets, port } => dotted(*octets).concat(":").concat(
                decimal(*port as u64).as_str(),
            ),
            ServerAddr::V6 { text, .. } => text.clone(),
        }
    }

    /// The host part of the server's URL.
    pub fn host(&self) -> (r: String)
        ensures
            r@ == self.host_text(),
            match *self {
                ServerAddr::V4 { octets, .. } => r@ == if octets.0 == 127 || octets == (0u8, 0u8, 0u8, 0u8) {
                    "localhost"@
                } else {
                    decimal_text(octets.0 as nat) + "."@ + decimal_text(octets.1 as nat)
                    + "."@ + decimal_text(octets.2 as nat) + "."@ + decimal_text(octets.3 as nat)
                },
                ServerAddr::V6 { segments, ip_text, .. } => r@ == if segments == (0u16, 0u16, 0u16, 0u16, 0u16, 0u16, 0u16, 0u16)
                    || segments == (0u16, 0u16, 0u16, 0u16, 0u16, 0u16, 0u16, 1u16) {
                    "localhost"@
                } else {
                    "["@ + ip_text@ + "]"@
                },
            },
    {
        let ip = self.socket_addr().ip;
        if ip.is_loopback() || ip.is_unspecified() {
            "localhost".to_owned()
        } else {
            match self {
                // An IPv6 address is put in brackets to tell it from the port's `:`.
                ServerAddr::V6 { ip_text, .. } => "[".to_owned().concat(ip_text.as_str()).concat(
                    "]",
                ),
                ServerAddr::V4 { octets, .. } => dotted(*octets),
            }
        }
    }

    /// The URL under which the server is reached.
    pub fn index_uri(&self) -> (r: String)
        ensures
            r@ == self.uri_text(),
            match *self {
                ServerAddr::V4 { octets, port } => r@ == (if port == 443 {
                    "https://"@
                } else {
                    "http://"@
                }) + (if octets.0 == 127 || octets == (0u8, 0u8, 0u8, 0u8) {
                    "localhost"@
                } else {
                    decimal_text(octets.0 as nat) + "."@ + decimal_text(octets.1 as nat)
                    + "."@ + decimal_text(octets.2 as nat) + "."@ + decimal_text(octets.3 as nat)
                }) + (if port == 443 || port == 80 {
                    Seq::<char>::empty()
                } else {
                    ":"@ + decimal_text(port as nat)
                }),
                ServerAddr::V6 { segments, port, ip_text, .. } => r@ == (if port == 443 {
                    "https://"@
                } else {
                    "http://"@
                }) + (if segments == (0u16, 0u16, 0u16, 0u16, 0u16, 0u16, 0u16, 0u16)
                    || segments == (0u16, 0u16, 0u16, 0u16, 0u16, 0u16, 0u16, 1u16) {
                    "localhost"@
                } else {
                    "["@ + ip_text@ + "]"@
                }) + (if port == 443 || port == 80 {
                    Seq::<char>::empty()
                } else {
                    ":"@ + decimal_text(port as nat)
                }),
            },
    {
        let host = self.host();
        let r = match self.socket_addr().port {
            443 => "https://".to_owned().concat(host.as_str()),
            80 => "http://".to_owned().concat(host.as_str()),
            port => {
                "http://".to_owned().concat(host.as_str()).concat(":").concat(
                    decimal(port as u64).as_str(),
                )
            },
        };
        assert(r@ =~= self.uri_text());
        r
    }
}

fn dotted(octets: (u8, u8, u8, u8)) -> (r: String)
    ensures
        r@ == dotted_text(octets),
{
    decimal(octets.0 as u64).concat(".").concat(decimal(octets.1 as u64).as_str()).concat(
        ".",
    ).concat(decimal(octets.2 as u64).as_str()).concat(".").concat(
        decimal(octets.3 as u64).as_str(),
    )
}

/// A dotted decimal notation is split at its first dot in one way only.
proof fn first_dot_splits(m: nat, r: Seq<char>, n: nat, s: Seq<char>)
    requires
        decimal_text(m) + "."@ + r == decimal_text(n) + "."@ + s,
    ensures
        m == n,
        r == s,
{
    reveal_strlit(".");
    decimal_text_is_digits(m);
    decimal_text_is_digits(n);
    let (dm, dn) = (decimal_text(m), decimal_text(n));
    let (left, right) = (dm + "."@ + r, dn + "."@ + s);
    assert(left[dm.len() as int] == '.');
    assert(right[dn.len() as int] == '.');
    if dm.len() < dn.len() {
        assert(right[dm.len() as int] == dn[dm.len() as int]);
    }
    if dn.len() < dm.len() {
        assert(left[dn.len() as int] == dm[dn.len() as int]);
    }
    assert(left.take(dm.len() as int) =~= dm);
    assert(right.take(dn.len() as int) =~= dn);
    assert(left.skip(dm.len() as int + 1) =~= r);
    assert(right.skip(dn.len() as int + 1) =~= s);
    decimal_text_is_injective(m, n);
}

proof fn joined_from_the_right(
    a: Seq<char>,
    b: Seq<char>,
    c: Seq<char>,
    d: Seq<char>,
    dot: Seq<char>,
)
    ensures
        a + dot + b + dot + c + dot + d == a + dot + (b + dot + (c + dot + d)),
{
    assert(a + dot + b + dot + c + dot + d =~= a + dot + (b + dot + (c + dot + d)));
}

/// Different IPv4 addresses have different notations.
pub proof fn dotted_text_is_injective(x: (u8, u8, u8, u8), y: (u8, u8, u8, u8))
    requires
        dotted_text(x) == dotted_text(y),
    ensures
        x == y,
{
    let (x3, y3) = (decimal_text(x.3 as nat), decimal_text(y.3 as nat));
    let (x2, y2) = (
        decimal_text(x.2 as nat) + "."@ + x3,
        decimal_text(y.2 as nat) + "."@ + y3,
    );
    let (x1, y1) = (
        decimal_text(x.1 as nat) + "."@ + x2,
        decimal_text(y.1 as nat) + "."@ + y2,
    );
    joined_from_the_right(
        decimal_text(x.0 as nat),
        decimal_text(x.1 as nat),
        decimal_text(x.2 as nat),
        x3,
        "."@,
    );
    joined_from_the_right(
        decimal_text(y.0 as nat),
        decimal_text(y.1 as nat),
        decimal_text(y.2 as nat),
        y3,
        "."@,
    );
    first_dot_splits(x.0 as nat, x1, y.0 as nat, y1);
    first_dot_splits(x.1 as nat, x2, y.1 as nat, y2);
    first_dot_splits(x.2 as nat, x3, y.2 as nat, y3);
    decimal_text_is_injective(x.3 as nat, y.3 as nat);
}

/// A dotted decimal notation consists of digits and dots.
pub proof fn dotted_text_is_digits_and_dots(octets: (u8, u8, u8, u8))
    ensures
        dotted_text(octets).len() > 0,
        forall|i: int|
            0 <= i < dotted_text(octets).len() ==> '0' <= #[trigger] dotted_text(octets)[i] <= '9'
                || dotted_text(octets)[i] == '.',
{
    reveal_strlit(".");
    decimal_text_is_digits(octets.0 as nat);
    decimal_text_is_digits(octets.1 as nat);
    decimal_text_is_digits(octets.2 as nat);
    decimal_text_is_digits(octets.3 as nat);
}

/// A host that has no `:` and does not start like one in brackets.
spec fn plain_host(host: Seq<char>) -> bool {
    &&& host.len() > 0
    &&& host[0] != '['
    &&& forall|i: int| 0 <= i < host.len() ==> #[trigger] host[i] != ':'
}

/// A host in brackets, with no closing bracket before its end.
spec fn bracketed_host(host: Seq<char>) -> bool {
    &&& host.len() > 1
    &&& host[0] == '['
    &&& host.last() == ']'
    &&& forall|i: int| 0 <= i < host.len() - 1 ==> #[trigger] host[i] != ']'
}

proof fn host_ends_where_port_starts(h1: Seq<char>, r1: Seq<char>, h2: Seq<char>, r2: Seq<char>)
    requires
        plain_host(h1) || bracketed_host(h1),
        plain_host(h2) || bracketed_host(h2),
        r1.len() > 0 ==> r1[0] == ':',
        r2.len() > 0 ==> r2[0] == ':',
        h1 + r1 == h2 + r2,
    ensures
        h1.len() <= h2.len(),
{
    let whole = h1 + r1;
    assert(whole[0] == h1[0]);
    assert((h2 + r2)[0] == h2[0]);
    if h2.len() < h1.len() {
        if plain_host(h1) {
            assert(whole.len() == h2.len() + r2.len());
            assert((h2 + r2)[h2.len() as int] == r2[0]);
            assert(whole[h2.len() as int] == h1[h2.len() as int]);
        } else {
            assert((h2 + r2)[h2.len() - 1] == h2.last());
            assert(whole[h2.len() - 1] == h1[h2.len() - 1]);
        }
    }
}

impl ServerAddr {
    proof fn host_shape(self)
        requires
            self.well_written(),
        ensures
            self.local() || self is V4 ==> plain_host(self.host_text()),
            !self.local() && self is V6 ==> bracketed_host(self.host_text()),
    {
        let host = self.host_text();
        if self.local() {
            reveal_strlit("localhost");
            assert(plain_host(host));
        } else if self is V6 {
            reveal_strlit("[");
            reveal_strlit("]");
            assert forall|i: int| 0 <= i < host.len() - 1 implies #[trigger] host[i] != ']' by {
                if i > 0 {
                    assert(host[i] == self.ip_text()[i - 1]);
                    assert(self.ip_text().contains(self.ip_text()[i - 1]));
                }
            }
            assert(bracketed_host(host));
        } else {
            dotted_text_is_digits_and_dots(self->octets);
            assert(plain_host(host));
        }
    }

    proof fn notation_start(self)
        requires
            self.well_written(),
        ensures
            self.text().len() > 0,
            (self.text()[0] == '[') == (self is V6),
    {
        reveal_strlit("[");
        match self {
            ServerAddr::V4 { octets, .. } => {
                dotted_text_is_digits_and_dots(octets);
                assert(self.text()[0] == dotted_text(octets)[0]);
            },
            ServerAddr::V6 { ip_text, .. } => {
                assert(("["@ + ip_text@)[0] == '[');
            },
        }
    }

    proof fn uri_parts(self)
        ensures
            self.port() == 443 ==> self.uri_text() == "https://"@ + (self.host_text()
                + self.port_suffix()),
            self.port() != 443 ==> self.uri_text() == "http://"@ + (self.host_text()
                + self.port_suffix()),
            self.port_suffix().len() > 0 ==> self.port_suffix()[0] == ':',
    {
        reveal_strlit(":");
        if self.port() == 443 {
            assert(self.uri_text() =~= "https://"@ + (self.host_text() + self.port_suffix()));
        } else {
            assert(self.uri_text() =~= "http://"@ + (self.host_text() + self.port_suffix()));
        }
    }
}

/// A server's URL tells its host and its port apart: servers with the same URL have the same host
/// part and the same port. Unless they are reached as `localhost`, they have the same IP address
/// too: in IPv4 the address itself, in IPv6 its notation.
pub proof fn uri_identifies_host_and_port(a: ServerAddr, b: ServerAddr)
    requires
        a.well_written(),
        b.well_written(),
        a.uri_text() == b.uri_text(),
    ensures
        a.host_text() == b.host_text(),
        a.port() == b.port(),
        !a.local() && !b.local() ==> a.ip_text() == b.ip_text() && (a is V4) == (b is V4),
        !a.local() && !b.local() && a is V4 ==> a.ip() == b.ip(),
{
    reveal_strlit("https://");
    reveal_strlit("http://");
    a.host_shape();
    b.host_shape();
    a.uri_parts();
    b.uri_parts();
    assert((a.port() == 443) == (b.port() == 443)) by {
        assert(a.uri_text()[4] == if a.port() == 443 {
            's'
        } else {
            ':'
        });
        assert(b.uri_text()[4] == if b.port() == 443 {
            's'
        } else {
            ':'
        });
    }
    let (ha, ra) = (a.host_text(), a.port_suffix());
    let (hb, rb) = (b.host_text(), b.port_suffix());
    let n: int = if a.port() == 443 {
        8
    } else {
        7
    };
    assert(a.uri_text().skip(n) =~= ha + ra);
    assert(b.uri_text().skip(n) =~= hb + rb);
    host_ends_where_port_starts(ha, ra, hb, rb);
    host_ends_where_port_starts(hb, rb, ha, ra);
    assert((ha + ra).take(ha.len() as int) =~= ha);
    assert((hb + rb).take(hb.len() as int) =~= hb);
    assert((ha + ra).skip(ha.len() as int) =~= ra);
    assert((hb + rb).skip(hb.len() as int) =~= rb);
    if a.port() != 443 {
        reveal_strlit(":");
        if a.port() != 80 && b.port() != 80 {
            assert(ra.skip(1) =~= decimal_text(a.port() as nat));
            assert(rb.skip(1) =~= decimal_text(b.port() as nat));
            decimal_text_is_injective(a.port() as nat, b.port() as nat);
        }
    }
    if !a.local() && !b.local() {
        if a is V4 && b is V4 {
            dotted_text_is_injective(a->octets, b->octets);
        } else if a is V6 && b is V6 {
            reveal_strlit("[");
            reveal_strlit("]");
            assert(ha.subrange(1, ha.len() - 1) =~= a.ip_text());
            assert(hb.subrange(1, hb.len() - 1) =~= b.ip_text());
        }
    }
}

/// The notation of a server's address tells IPv4 from IPv6, and in IPv4 it tells the address and
/// the port.
pub proof fn notation_identifies_ipv4_server(a: ServerAddr, b: ServerAddr)
    requires
        a.well_written(),
        b.well_written(),
        a.text() == b.text(),
    ensures
        (a is V4) == (b is V4),
        a is V4 ==> a.ip() == b.ip() && a.port() == b.port(),
{
    reveal_strlit("[");
    reveal_strlit(":");
    a.notation_start();
    b.notation_start();
    if a is V4 {
        let (ha, hb) = (dotted_text(a->octets), dotted_text(b->octets));
        let (pa, pb) = (decimal_text(a.port() as nat), decimal_text(b.port() as nat));
        dotted_text_is_digits_and_dots(a->octets);
        dotted_text_is_digits_and_dots(b->octets);
        assert(a.text() =~= ha + (":"@ + pa));
        assert(b.text() =~= hb + (":"@ + pb));
        host_ends_where_port_starts(ha, ":"@ + pa, hb, ":"@ + pb);
        host_ends_where_port_starts(hb, ":"@ + pb, ha, ":"@ + pa);
        assert(a.text().take(ha.len() as int) =~= ha);
        assert(b.text().take(hb.len() as int) =~= hb);
        assert(a.text().skip(ha.len() as int + 1) =~= pa);
        assert(b.text().skip(hb.len() as int + 1) =~= pb);
        dotted_text_is_injective(a->octets, b->octets);
        decimal_text_is_injective(a.port() as nat, b.port() as nat);
    }
}

/// The URL of an IPv4 server names `localhost` exactly if its address is one of 127.0.0.0/8 or
/// 0.0.0.0, and the address itself otherwise. The port is told unless it is the default one of
/// the scheme, which is `https` on port 443 alone.
pub proof fn url_of_ipv4_server(octets: (u8, u8, u8, u8), port: u16)
    ensures
        ({
            let addr = ServerAddr::V4 { octets, port };
            let ip = decimal_text(octets.0 as nat) + "."@ + decimal_text(octets.1 as nat) + "."@
                + decimal_text(octets.2 as nat) + "."@ + decimal_text(octets.3 as nat);
            let host = if octets.0 == 127 || octets == (0u8, 0u8, 0u8, 0u8) {
                "localhost"@
            } else {
                ip
            };
            &&& addr.text() == ip + ":"@ + decimal_text(port as nat)
            &&& addr.host_text() == host
            &&& port == 443 ==> addr.uri_text() == "https://"@ + host
            &&& port == 80 ==> addr.uri_text() == "http://"@ + host
            &&& port != 443 && port != 80 ==> addr.uri_text() == "http://"@ + host + ":"@
                + decimal_text(port as nat)
        }),
{
    let addr = ServerAddr::V4 { octets, port };
    if port == 443 {
        assert(addr.uri_text() =~= "https://"@ + addr.host_text());
    } else if port == 80 {
        assert(addr.uri_text() =~= "http://"@ + addr.host_text());
    } else {
        assert(addr.uri_text() =~= "http://"@ + addr.host_text() + ":"@ + decimal_text(
            port as nat,
        ));
    }
}

/// The URL of an IPv6 server names `localhost` exactly if its address is ::1 or ::, and the
/// address itself, in brackets, otherwise. The port is told as in the URL of an IPv4 server.
pub proof fn url_of_ipv6_server(
    segments: (u16, u16, u16, u16, u16, u16, u16, u16),
    port: u16,
    ip_text: String,
    text: String,
)
    ensures
        ({
            let addr = ServerAddr::V6 { segments, port, ip_text, text };
            let host = if segments == (0u16, 0u16, 0u16, 0u16, 0u16, 0u16, 0u16, 0u16) || segments == (
                0u16,
                0u16,
                0u16,
                0u16,
                0u16,
                0u16,
                0u16,
                1u16,
            ) {
                "localhost"@
            } else {
                "["@ + ip_text@ + "]"@
            };
            &&& addr.text() == text@
            &&& addr.host_text() == host
            &&& port == 443 ==> addr.uri_text() == "https://"@ + host
            &&& port == 80 ==> addr.uri_text() == "http://"@ + host
            &&& port != 443 && port != 80 ==> addr.uri_text() == "http://"@ + host + ":"@
                + decimal_text(port as nat)
        }),
{
    let addr = ServerAddr::V6 { segments, port, ip_text, text };
    if port == 443 {
        assert(addr.uri_text() =~= "https://"@ + addr.host_text());
    } else if port == 80 {
        assert(addr.uri_text() =~= "http://"@ + addr.host_text());
    } else {
        assert(addr.uri_text() =~= "http://"@ + addr.host_text() + ":"@ + decimal_text(
            port as nat,
        ));
    }
}

/// A server that listens on an IPv4 address of the network is reached by that address, and only
/// one that listens on 127.0.0.0/8 or 0.0.0.0 as `localhost`.
pub proof fn ipv4_server_is_reached_where_it_listens(
    octets: (u8, u8, u8, u8),
    port: u16,
    host: String,
    uri: String,
)
    ensures
        call_ensures(ServerAddr::host, (&ServerAddr::V4 { octets, port },), host) ==> {
            &&& octets.0 == 127 || octets == (0u8, 0u8, 0u8, 0u8) ==> host@ == "localhost"@
            &&& octets.0 != 127 && octets != (0u8, 0u8, 0u8, 0u8) ==> host@ == decimal_text(
                octets.0 as nat,
            ) + "."@ + decimal_text(octets.1 as nat) + "."@ + decimal_text(octets.2 as nat) + "."@
                + decimal_text(octets.3 as nat)
        },
        call_ensures(ServerAddr::host, (&ServerAddr::V4 { octets, port },), host) && call_ensures(
            ServerAddr::index_uri,
            (&ServerAddr::V4 { octets, port },),
            uri,
        ) ==> {
            &&& port == 443 ==> uri@ == "https://"@ + host@
            &&& port == 80 ==> uri@ == "http://"@ + host@
            &&& port != 443 && port != 80 ==> uri@ == "http://"@ + host@ + ":"@ + decimal_text(
                port as nat,
            )
        },
{
    url_of_ipv4_server(octets, port);
}

} // verus!
