//! Commands of the peer-to-peer shell.
//!
//! `echo <node_id> <msg>` sends `msg` to a peer, `transfer <node_id>` sends
//! the configured file to a peer, and `exit` stops the program.  A node id
//! is an unsigned 64-bit integer written in decimal, with an optional
//! leading `+`, as Rust's `u64` parser accepts it.
use vstd::prelude::*;
use vstd::slice::slice_to_vec;
use vstd::string::StringSliceAdditionalSpecFns;

use crate::controller::ControllerCommand;

verus! {

/// Whether a byte is an ASCII decimal digit.
pub open spec fn is_digit(b: u8) -> bool {
    48 <= b <= 57
}

/// The value of a string of decimal digits, most significant first.
pub open spec fn decimal_value(digits: Seq<u8>) -> nat
    decreases digits.len(),
{
    if digits.len() == 0 {
        0
    } else {
        decimal_value(digits.drop_last()) * 10 + (digits.last() - 48) as nat
    }
}

/// The digits of a number text: the text without a leading `+`.
pub open spec fn unsigned_digits(text: Seq<u8>) -> Seq<u8> {
    if text.len() > 0 && text[0] == 43 {
        text.drop_first()
    } else {
        text
    }
}

/// The value of a decimal `u64` text, or `None` when it is empty, holds
/// anything but digits after an optional `+`, or does not fit in 64 bits.
pub open spec fn parse_u64_spec(text: Seq<u8>) -> Option<u64> {
    let digits = unsigned_digits(text);
    if digits.len() > 0 && (forall|i: int| 0 <= i < digits.len() ==> is_digit(#[trigger] digits[i]))
        && decimal_value(digits) <= u64::MAX {
        Some(decimal_value(digits) as u64)
    } else {
        None
    }
}

/// The decimal digits of a number, without leading zeros (`0` is `"0"`).
pub open spec fn decimal_digits(n: nat) -> Seq<u8>
    decreases n,
{
    if n < 10 {
        seq![(n + 48) as u8]
    } else {
        decimal_digits(n / 10).push(((n % 10) + 48) as u8)
    }
}

proof fn lemma_prefix_value_grows(digits: Seq<u8>, i: int)
    requires
        0 <= i <= digits.len(),
        forall|k: int| 0 <= k < digits.len() ==> is_digit(#[trigger] digits[k]),
    ensures
        decimal_value(digits.take(i)) <= decimal_value(digits),
    decreases digits.len() - i,
{
    if i < digits.len() {
        lemma_prefix_value_grows(digits, i + 1);
        assert(digits.take(i + 1).drop_last() == digits.take(i));
        assert(digits.take(i + 1).last() == digits[i]);
        assert(is_digit(digits[i]));
    } else {
        assert(digits.take(i) == digits);
    }
}

/// Parse a node id: a decimal `u64`, optionally preceded by `+`.
pub fn parse_node_id(text: &str) -> (id: Option<u64>)
    ensures
        id == parse_u64_spec(text.spec_bytes()),
{
    let bytes = text.as_bytes();
    let len = bytes.len();
    let start: usize = if len > 0 && bytes[0] == 43u8 {
        1
    } else {
        0
    };
    let ghost digits = unsigned_digits(bytes@);
    assert(digits == bytes@.subrange(start as int, len as int));
    if start == len {
        return None;
    }
    let mut value: u64 = 0;
    let mut i: usize = start;
    while i < len
        invariant
            start <= i <= len,
            start < len,
            len == bytes@.len(),
            bytes@ == text.spec_bytes(),
            digits == unsigned_digits(bytes@),
            digits == bytes@.subrange(start as int, len as int),
            value == decimal_value(digits.take(i - start)),
            forall|k: int| 0 <= k < i - start ==> is_digit(#[trigger] digits[k]),
        decreases len - i,
    {
        let b = bytes[i];
        proof {
            assert(digits[i - start] == b);
            assert(digits.take(i - start + 1).drop_last() == digits.take(i - start));
            assert(digits.take(i - start + 1).last() == b);
        }
        if b < 48u8 || b > 57u8 {
            assert(!is_digit(digits[i - start]));
            return None;
        }
        let d = (b - 48u8) as u64;
        match value.checked_mul(10) {
            Some(tens) => match tens.checked_add(d) {
                Some(next) => {
                    value = next;
                },
                None => {
                    proof { lemma_too_large(digits, (i - start) as int); }
                    return None;
                },
            },
            None => {
                proof { lemma_too_large(digits, (i - start) as int); }
                return None;
            },
        }
        i = i + 1;
    }
    assert(digits.take(len - start) == digits);
    Some(value)
}

/// When the value of a prefix of all-digit text (including its next digit)
/// exceeds `u64::MAX`, the text does not parse.
proof fn lemma_too_large(digits: Seq<u8>, j: int)
    requires
        0 <= j < digits.len(),
        decimal_value(digits.take(j + 1)) > u64::MAX,
        forall|k: int| 0 <= k < j ==> is_digit(#[trigger] digits[k]),
    ensures
        !((forall|k: int| 0 <= k < digits.len() ==> is_digit(#[trigger] digits[k]))
            && decimal_value(digits) <= u64::MAX),
{
    if forall|k: int| 0 <= k < digits.len() ==> is_digit(#[trigger] digits[k]) {
        lemma_prefix_value_grows(digits, j + 1);
    }
}

/// Every `u64` written in decimal parses back to itself.
pub proof fn lemma_parse_decimal_digits(n: u64)
    ensures
        parse_u64_spec(decimal_digits(n as nat)) == Some(n),
{
    lemma_decimal_digits(n as nat);
    assert(decimal_digits(n as nat)[0] != 43);
}

proof fn lemma_decimal_digits(n: nat)
    ensures
        decimal_digits(n).len() > 0,
        forall|k: int|
            0 <= k < decimal_digits(n).len() ==> is_digit(#[trigger] decimal_digits(n)[k]),
        decimal_value(decimal_digits(n)) == n,
        decimal_digits(n)[0] != 43,
    decreases n,
{
    if n >= 10 {
        lemma_decimal_digits(n / 10);
        let d = decimal_digits(n);
        assert(d.drop_last() == decimal_digits(n / 10));
        assert(d.last() == ((n % 10) + 48) as u8);
        assert((d.last() - 48) as nat == n % 10);
        assert(decimal_value(d) == decimal_value(decimal_digits(n / 10)) * 10 + n % 10);
        assert((n / 10) * 10 + n % 10 == n);
        assert(d[0] == decimal_digits(n / 10)[0]);
        assert forall|k: int| 0 <= k < d.len() implies is_digit(#[trigger] d[k]) by {
            if k < d.len() - 1 {
                assert(d[k] == decimal_digits(n / 10)[k]);
            }
        }
    } else {
        let d = decimal_digits(n);
        assert(d.drop_last() == Seq::<u8>::empty());
        assert(decimal_value(Seq::<u8>::empty()) == 0);
    }
}

/// A message to send to one peer.
#[derive(PartialEq, Eq, Debug, Clone)]
pub struct Unicast {
    pub peer: u64,
    pub payload: Vec<u8>,
}

/// The `echo` command: send the bytes of `msg` to the peer whose id is
/// written in `node_id`, which must parse as a node id.
pub fn echo_request(node_id: &str, msg: &str) -> (req: Unicast)
    requires
        parse_u64_spec(node_id.spec_bytes()) is Some,
    ensures
        Some(req.peer) == parse_u64_spec(node_id.spec_bytes()),
        req.payload@ == msg.spec_bytes(),
{
    let peer = parse_node_id(node_id).unwrap();
    Unicast { peer, payload: slice_to_vec(msg.as_bytes()) }
}

/// The `transfer` command: the peer to send the configured file to, whose
/// id is written in `node_id`, which must parse as a node id.
pub fn transfer_request(node_id: &str) -> (peer: u64)
    requires
        parse_u64_spec(node_id.spec_bytes()) is Some,
    ensures
        Some(peer) == parse_u64_spec(node_id.spec_bytes()),
{
    parse_node_id(node_id).unwrap()
}

/// The `exit` command: the command handed to the controller loop.
pub fn exit_request() -> (cmd: ControllerCommand)
    ensures
        cmd == ControllerCommand::Exit,
{
    ControllerCommand::Exit
}

/// The shell commands.
#[derive(PartialEq, Eq, Structural, Debug, Clone, Copy)]
pub enum CommandKind {
    Echo,
    Transfer,
    Exit,
}

/// The text the shell prints after a command: `ok` after `echo` and
/// `transfer`, nothing after `exit`.
pub fn command_reply(kind: CommandKind) -> (reply: Option<String>)
    ensures
        match kind {
            CommandKind::Exit => reply is None,
            _ => reply matches Some(text) && text@ == "ok"@,
        },
{
    match kind {
        CommandKind::Exit => None,
        _ => Some("ok".to_string()),
    }
}

} // verus!
