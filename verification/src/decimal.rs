//! Numbers in decimal, and the socket address that is built from one.

use vstd::prelude::*;

verus! {

/// `String::push` appends the given character to the end of the string.
pub assume_specification[ String::push ](s: &mut String, c: char)
    ensures
        final(s)@ == old(s)@.push(c),
;

/// The character of the decimal digit `d`.
pub open spec fn digit(d: nat) -> char
    recommends
        d < 10,
{
    (48 + d) as char
}

/// `n` in decimal, most significant digit first, without leading zeros.
pub open spec fn decimal(n: nat) -> Seq<char>
    decreases n,
{
    if n < 10 {
        seq![digit(n)]
    } else {
        decimal(n / 10).push(digit(n % 10))
    }
}

/// The number that a sequence of decimal digits stands for.
pub open spec fn decimal_value(digits: Seq<char>) -> int
    decreases digits.len(),
{
    if digits.len() == 0 {
        0
    } else {
        10 * decimal_value(digits.drop_last()) + (digits.last() as int - 48)
    }
}

/// The text `host:port`.
pub open spec fn socket_address_model(host: Seq<char>, port: nat) -> Seq<char> {
    host.push(':') + decimal(port)
}

/// Appends `n` in decimal.
pub fn push_decimal(text: &mut String, n: u64)
    ensures
        final(text)@ == old(text)@ + decimal(n as nat),
    decreases n,
{
    if n >= 10 {
        push_decimal(text, n / 10);
    }
    let c: char = (48 + (n % 10) as u8) as char;
    text.push(c);
}

/// The address `server_address:server_port` of a server.
pub fn socket_address(server_address: String, server_port: u16) -> (address: String)
    ensures
        address@ == socket_address_model(server_address@, server_port as nat),
{
    let mut address = server_address;
    address.push(':');
    push_decimal(&mut address, server_port as u64);
    address
}

/// A number below ten is written as its one digit. A digit behind a number that is not
/// zero is written behind that number.
pub proof fn law_decimal_is_written_digit_by_digit(n: nat, d: nat)
    requires
        d < 10,
    ensures
        ({
            let c = ('0' as int + d) as char;
            &&& '0' <= c <= '9'
            &&& decimal(d) == seq![c]
            &&& n > 0 ==> decimal((10 * n + d) as nat) == decimal(n).push(c)
        }),
{
    if n > 0 {
        assert((10 * n + d) / 10 == n);
        assert((10 * n + d) % 10 == d as int);
    }
}

/// A digit behind other digits makes ten times their value and its own; no digits are
/// worth nothing.
pub proof fn law_decimal_value_of_one_more_digit(digits: Seq<char>, c: char)
    requires
        '0' <= c <= '9',
    ensures
        decimal_value(Seq::<char>::empty()) == 0,
        decimal_value(digits.push(c)) == 10 * decimal_value(digits) + (c as int - '0' as int),
{
    assert(digits.push(c).drop_last() =~= digits);
}

/// A socket address is the host, one colon behind it, and behind that nothing but the
/// port in decimal.
pub proof fn law_socket_address_is_host_colon_port(host: Seq<char>, port: nat)
    ensures
        ({
            let address = socket_address_model(host, port);
            let n = host.len() as int;
            &&& address.take(n) == host
            &&& address.len() > n
            &&& address[n] == ':'
            &&& address.skip(n + 1) == decimal(port)
        }),
{
    let address = socket_address_model(host, port);
    let n = host.len() as int;
    assert(address.take(n) =~= host);
    assert(address.skip(n + 1) =~= decimal(port));
}

/// Reading a number back from its decimal digits gives that number, and the
/// digits hold nothing but digits.
pub proof fn law_decimal_reads_back(n: nat)
    ensures
        decimal_value(decimal(n)) == n,
        decimal(n).len() > 0,
        forall|i: int| 0 <= i < decimal(n).len() ==> '0' <= #[trigger] decimal(n)[i] <= '9',
    decreases n,
{
    reveal_with_fuel(decimal_value, 2);
    if n >= 10 {
        law_decimal_reads_back(n / 10);
        assert(decimal(n).last() as int == 48 + n % 10);
        assert(decimal(n).drop_last() =~= decimal(n / 10));
    } else {
        assert(decimal(n).drop_last() =~= Seq::<char>::empty());
    }
}

/// Two socket addresses are the same text only if host and port are the same.
pub proof fn law_socket_address_is_unambiguous(
    host1: Seq<char>,
    port1: nat,
    host2: Seq<char>,
    port2: nat,
)
    requires
        socket_address_model(host1, port1) == socket_address_model(host2, port2),
    ensures
        host1 == host2,
        port1 == port2,
{
    law_decimal_reads_back(port1);
    law_decimal_reads_back(port2);
    let a1 = socket_address_model(host1, port1);
    let a2 = socket_address_model(host2, port2);
    assert(a1.len() == host1.len() + 1 + decimal(port1).len());
    assert(a2.len() == host2.len() + 1 + decimal(port2).len());
    assert(a1[host1.len() as int] == ':');
    assert(a2[host2.len() as int] == ':');
    if host1.len() < host2.len() {
        assert(a1[host2.len() as int] == decimal(port1)[host2.len() - host1.len() - 1]);
    } else if host2.len() < host1.len() {
        assert(a2[host1.len() as int] == decimal(port2)[host1.len() - host2.len() - 1]);
    }
    assert(host1.len() == host2.len());
    assert(host1 =~= a1.take(host1.len() as int));
    assert(host2 =~= a2.take(host2.len() as int));
    assert(decimal(port1) =~= a1.skip(host1.len() as int + 1));
    assert(decimal(port2) =~= a2.skip(host2.len() as int + 1));
}

} // verus!
