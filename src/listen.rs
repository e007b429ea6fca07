use vstd::prelude::*;

verus! {

/// Whether `c` is an ASCII decimal digit.
pub open spec fn is_digit(c: char) -> bool {
    '0' <= c && c <= '9'
}

/// The value of a decimal digit.
pub open spec fn digit_value(c: char) -> int {
    c as int - '0' as int
}

/// The number that a string of decimal digits writes.
pub open spec fn decimal_value(s: Seq<char>) -> int
    decreases s.len(),
{
    if s.len() == 0 {
        0
    } else {
        decimal_value(s.drop_last()) * 10 + digit_value(s.last())
    }
}

/// The digits of a port number: the text without one optional leading `+`.
pub open spec fn port_digits(s: Seq<char>) -> Seq<char> {
    if s.len() > 0 && s[0] == '+' {
        s.drop_first()
    } else {
        s
    }
}

/// Whether `s` writes a port number: an optional `+`, then one or more decimal digits whose
/// value fits in 16 bits.
pub open spec fn is_port(s: Seq<char>) -> bool {
    let d = port_digits(s);
    &&& d.len() > 0
    &&& forall|i: int| 0 <= i < d.len() ==> is_digit(#[trigger] d[i])
    &&& decimal_value(d) <= 65535
}

/// The port number that `s` writes.
pub open spec fn port_value(s: Seq<char>) -> int {
    decimal_value(port_digits(s))
}

/// A decimal value capped just above the largest port, so that it fits in a machine word.
pub open spec fn capped(v: int) -> int {
    if v > 65535 {
        65536
    } else {
        v
    }
}

proof fn lemma_decimal_value_nonnegative(s: Seq<char>)
    requires
        forall|i: int| 0 <= i < s.len() ==> is_digit(#[trigger] s[i]),
    ensures
        decimal_value(s) >= 0,
    decreases s.len(),
{
    if s.len() > 0 {
        assert(is_digit(s[s.len() - 1]));
        lemma_decimal_value_nonnegative(s.drop_last());
    }
}

/// Reads a port number: an optional `+`, then decimal digits whose value fits in 16 bits.
pub fn parse_port(text: &str) -> (r: Option<u16>)
    ensures
        r is Some <==> is_port(text@),
        r is Some ==> r->0 == port_value(text@),
{
    let n = text.unicode_len();
    let mut start: usize = 0;
    if n > 0 && text.get_char(0) == '+' {
        start = 1;
    }
    let ghost d = port_digits(text@);
    assert(d =~= text@.subrange(start as int, n as int));
    if start == n {
        return None;
    }
    let mut i: usize = start;
    let mut v: u32 = 0;
    assert(text@.subrange(start as int, i as int) =~= Seq::<char>::empty());
    while i < n
        invariant
            start <= i <= n,
            n == text@.len(),
            d == text@.subrange(start as int, n as int),
            d == port_digits(text@),
            forall|j: int| start <= j < i ==> is_digit(#[trigger] text@[j]),
            v as int == capped(decimal_value(text@.subrange(start as int, i as int))),
        decreases n - i,
    {
        let c = text.get_char(i);
        if !('0' <= c && c <= '9') {
            assert(d[i - start] == c);
            assert(!is_digit(d[i - start]));
            return None;
        }
        let ghost before = text@.subrange(start as int, i as int);
        let ghost after = text@.subrange(start as int, i + 1);
        proof {
            assert(after.drop_last() =~= before);
            assert forall|j: int| 0 <= j < before.len() implies is_digit(#[trigger] before[j]) by {
                assert(before[j] == text@[start + j]);
            }
            lemma_decimal_value_nonnegative(before);
        }
        let w: u32 = v * 10 + (c as u32 - '0' as u32);
        v = if w > 65535 {
            65536
        } else {
            w
        };
        i = i + 1;
    }
    assert(text@.subrange(start as int, n as int) == d);
    if v > 65535 {
        None
    } else {
        Some(v as u16)
    }
}

/// Where the server listens.
#[derive(Debug)]
pub enum ListenAddr {
    /// Every interface, on a port.
    AllInterfaces(u16),
    /// A `host:port` address, still to be read as a socket address.
    HostPort(String),
}

/// Why a listen address was refused.
#[derive(Clone, Copy, Debug, PartialEq, Eq, Structural)]
pub enum ListenAddrError {
    /// The text after `:` is not a port number.
    InvalidPort,
}

/// Reads a listen address. `:<port>` listens on every interface; anything else is a
/// `host:port` address handed on whole.
pub fn parse_listen_addr(addr: &str) -> (r: Result<ListenAddr, ListenAddrError>)
    ensures
        addr@.len() > 0 && addr@[0] == ':' ==> match r {
            Ok(ListenAddr::AllInterfaces(port)) => is_port(addr@.drop_first()) && port
                == port_value(addr@.drop_first()),
            Err(ListenAddrError::InvalidPort) => !is_port(addr@.drop_first()),
            _ => false,
        },
        !(addr@.len() > 0 && addr@[0] == ':') ==> (r matches Ok(ListenAddr::HostPort(s)) && s@
            == addr@),
{
    let n = addr.unicode_len();
    if n > 0 && addr.get_char(0) == ':' {
        let rest = addr.substring_char(1, n);
        assert(rest@ =~= addr@.drop_first());
        match parse_port(rest) {
            Some(port) => Ok(ListenAddr::AllInterfaces(port)),
            None => Err(ListenAddrError::InvalidPort),
        }
    } else {
        Ok(ListenAddr::HostPort(String::from_str(addr)))
    }
}

} // verus!
