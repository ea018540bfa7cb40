//! Encoding of the sender's control messages: a single Open Sound Control
//! message carrying the fixed address and one integer argument.
//!
//! The byte layout is pinned down exactly: the ASCII address bytes padded
//! with one to four nulls to a multiple of four, the type-tag string `,i`
//! padded the same way, then the argument as four big-endian bytes. The
//! actual serialisation is done by the `rosc` crate behind a single trusted
//! wrapper whose contract states that layout.

use vstd::prelude::*;

verus! {

/// Rounds a byte count up to the next multiple of four, as the message
/// format pads its strings.
pub open spec fn pad4(n: nat) -> nat {
    if n % 4 == 0 {
        n
    } else {
        (n + (4 - n % 4)) as nat
    }
}

/// The bytes of an ASCII string, one byte per character.
pub open spec fn ascii_bytes(s: Seq<char>) -> Seq<u8> {
    Seq::new(s.len(), |i: int| s[i] as u8)
}

/// A string as the message format carries it: its bytes, null-terminated,
/// padded with nulls to a multiple of four bytes (one to four nulls).
pub open spec fn padded_string_bytes(b: Seq<u8>) -> Seq<u8> {
    b + Seq::new((pad4(b.len() + 1) - b.len()) as nat, |i: int| 0u8)
}

/// A 32-bit integer as four big-endian bytes of its two's-complement value.
pub open spec fn be_bytes_of_i32(v: i32) -> Seq<u8> {
    let u: int = if v >= 0 {
        v as int
    } else {
        v + 0x1_0000_0000
    };
    seq![
        ((u / 0x100_0000) % 0x100) as u8,
        ((u / 0x1_0000) % 0x100) as u8,
        ((u / 0x100) % 0x100) as u8,
        (u % 0x100) as u8,
    ]
}

/// The encoded message for an ASCII address and one integer argument: the
/// padded address, the padded type tags `,i`, then the argument.
pub open spec fn int_message_bytes(addr: Seq<char>, value: i32) -> Seq<u8> {
    padded_string_bytes(ascii_bytes(addr)) + seq![44u8, 105u8, 0u8, 0u8] + be_bytes_of_i32(value)
}

/// The address every message of this sender carries.
pub open spec fn press_address() -> Seq<char> {
    "/input/UseRight"@
}

/// The bytes of this sender's message for the given argument: `1` for a
/// press, `0` for a release.
pub open spec fn press_message_bytes(value: i32) -> Seq<u8> {
    int_message_bytes(press_address(), value)
}

/// Relies on `rosc::encoder::encode`: a message with one integer argument is
/// encoded as the null-padded address, the null-padded type tags `,i`, then
/// the argument as four big-endian bytes; for in-memory output it never
/// fails.
#[verifier::external_body]
fn rosc_encode_int_message(addr: &str, value: i32) -> (r: Vec<u8>)
    requires
        addr.is_ascii(),
    ensures
        r@ == int_message_bytes(addr@, value),
{
    let msg = rosc::OscMessage { addr: addr.to_string(), args: vec![rosc::OscType::Int(value)] };
    rosc::encoder::encode(&rosc::OscPacket::Message(msg)).unwrap_or_default()
}

/// Encodes one control message carrying the given value to the fixed
/// address.
pub fn encode_value(value: i32) -> (r: Vec<u8>)
    ensures
        r@ == press_message_bytes(value),
{
    let addr = "/input/UseRight";
    proof {
        reveal_strlit("/input/UseRight");
    }
    rosc_encode_int_message(addr, value)
}

/// Law: the big-endian argument bytes determine the argument, so two
/// messages with different values always differ.
pub proof fn lemma_be_bytes_injective(v1: i32, v2: i32)
    requires
        be_bytes_of_i32(v1) == be_bytes_of_i32(v2),
    ensures
        v1 == v2,
{
    let u1: int = if v1 >= 0 { v1 as int } else { v1 + 0x1_0000_0000 };
    let u2: int = if v2 >= 0 { v2 as int } else { v2 + 0x1_0000_0000 };
    assert(be_bytes_of_i32(v1)[0] == be_bytes_of_i32(v2)[0]);
    assert(be_bytes_of_i32(v1)[1] == be_bytes_of_i32(v2)[1]);
    assert(be_bytes_of_i32(v1)[2] == be_bytes_of_i32(v2)[2]);
    assert(be_bytes_of_i32(v1)[3] == be_bytes_of_i32(v2)[3]);
    assert(u1 == (u1 / 0x100_0000) * 0x100_0000 + ((u1 / 0x1_0000) % 0x100) * 0x1_0000 + ((u1
        / 0x100) % 0x100) * 0x100 + (u1 % 0x100)) by (nonlinear_arith)
        requires
            0 <= u1 < 0x1_0000_0000,
    ;
    assert(u2 == (u2 / 0x100_0000) * 0x100_0000 + ((u2 / 0x1_0000) % 0x100) * 0x1_0000 + ((u2
        / 0x100) % 0x100) * 0x100 + (u2 % 0x100)) by (nonlinear_arith)
        requires
            0 <= u2 < 0x1_0000_0000,
    ;
}

/// Law: the messages for two values are the same length, agree on every byte
/// before the argument, and differ as wholes exactly when the values differ.
pub proof fn lemma_messages_differ_only_in_value(v1: i32, v2: i32)
    ensures
        press_message_bytes(v1).len() == 24,
        press_message_bytes(v1).subrange(0, 20) =~= press_message_bytes(v2).subrange(0, 20),
        v1 != v2 ==> press_message_bytes(v1) != press_message_bytes(v2),
{
    reveal_strlit("/input/UseRight");
    assert(press_address().len() == 15);
    assert(press_message_bytes(v1).subrange(0, 20) =~= press_message_bytes(v2).subrange(0, 20));
    if press_message_bytes(v1) == press_message_bytes(v2) {
        assert(be_bytes_of_i32(v1) =~= be_bytes_of_i32(v2)) by {
            assert forall|i: int| 0 <= i < 4 implies be_bytes_of_i32(v1)[i] == be_bytes_of_i32(
                v2,
            )[i] by {
                assert(press_message_bytes(v1)[20 + i] == press_message_bytes(v2)[20 + i]);
            }
        }
        lemma_be_bytes_injective(v1, v2);
    }
}

} // verus!
