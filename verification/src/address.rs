//! Where the server is found: its port, the address that the window shows,
//! and the address that the port probe connects to.

use vstd::prelude::*;
use vstd::string::*;

verus! {

/// The port on which the server listens.
pub const SERVER_PORT: u16 = 3000;

/// The ten decimal digits, in order of value.
pub open spec fn decimal_digits() -> Seq<char> {
    "0123456789"@
}

/// A number in decimal, without leading zeros.
pub open spec fn decimal(n: nat) -> Seq<char>
    decreases n,
{
    if n < 10 {
        seq![decimal_digits()[n as int]]
    } else {
        decimal(n / 10) + seq![decimal_digits()[(n % 10) as int]]
    }
}

/// The loopback address and a port, as the port probe connects to them.
pub open spec fn probe_target(port: u16) -> Seq<char> {
    "127.0.0.1:"@ + decimal(port as nat)
}

/// The address under which a server on the given port is shown.
pub open spec fn address_on(port: u16) -> Seq<char> {
    "http://localhost:"@ + decimal(port as nat)
}

/// The address at which the server is reached, and which the window is told
/// to show.
pub open spec fn server_address() -> Seq<char> {
    address_on(SERVER_PORT)
}

/// The server's port is written `3000`, and its address is
/// `http://localhost:3000`.
pub proof fn lemma_server_address()
    ensures
        decimal(SERVER_PORT as nat) == "3000"@,
        server_address() == "http://localhost:3000"@,
        probe_target(SERVER_PORT) == "127.0.0.1:3000"@,
{
    reveal_strlit("0123456789");
    reveal_strlit("3000");
    reveal_strlit("http://localhost:");
    reveal_strlit("http://localhost:3000");
    reveal_strlit("127.0.0.1:");
    reveal_strlit("127.0.0.1:3000");
    reveal_with_fuel(decimal, 5);
    assert(decimal(3) =~= seq!['3']);
    assert(decimal(30) =~= seq!['3', '0']);
    assert(decimal(300) =~= seq!['3', '0', '0']);
    assert(decimal(3000) =~= seq!['3', '0', '0', '0']);
    assert(decimal(SERVER_PORT as nat) =~= "3000"@);
    assert(server_address() =~= "http://localhost:3000"@);
    assert(probe_target(SERVER_PORT) =~= "127.0.0.1:3000"@);
}

/// The one-character text of a decimal digit.
fn digit_piece(value: u16) -> (piece: &'static str)
    requires
        value < 10,
    ensures
        piece@ == seq![decimal_digits()[value as int]],
{
    proof {
        reveal_strlit("0123456789");
    }
    let digits = "0123456789";
    let piece = digits.substring_ascii(value as usize, value as usize + 1);
    assert(piece@ =~= seq![decimal_digits()[value as int]]);
    piece
}

/// Writes a number in decimal.
pub fn decimal_text(n: u16) -> (text: String)
    ensures
        text@ == decimal(n as nat),
    decreases n,
{
    if n < 10 {
        String::from_str(digit_piece(n))
    } else {
        let mut text = decimal_text(n / 10);
        text.append(digit_piece(n % 10));
        text
    }
}

/// The address that the port probe connects to: the loopback address and
/// the port.
pub fn probe_address(port: u16) -> (address: String)
    ensures
        address@ == probe_target(port),
{
    let mut address = String::from_str("127.0.0.1:");
    address.append(decimal_text(port).as_str());
    address
}

/// The address that the window is told to show.
pub fn notification_address() -> (address: String)
    ensures
        address@ == server_address(),
{
    let mut address = String::from_str("http://localhost:");
    address.append(decimal_text(SERVER_PORT).as_str());
    address
}

} // verus!
