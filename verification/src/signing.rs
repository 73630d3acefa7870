//! The signing-service request: what is sent and how the answer is read.
//!
//! The HTTP exchange itself is transport work outside this core; here the
//! request body is built and the response is interpreted.

use vstd::prelude::*;
use crate::error::HolochainError;
use crate::hashing::Address;
use crate::hashing::append_bytes;
use crate::hashing::utf8_of;

verus! {

/// One byte, escaped for inclusion in a serialized string value: quote
/// and backslash, the five named control escapes, and the numeric form
/// for every other control byte.
pub open spec fn esc_byte(b: u8) -> Seq<u8> {
    if b == 34 {
        seq![92u8, 34u8]
    } else if b == 92 {
        seq![92u8, 92u8]
    } else if b == 8 {
        seq![92u8, 98u8]
    } else if b == 9 {
        seq![92u8, 116u8]
    } else if b == 10 {
        seq![92u8, 110u8]
    } else if b == 12 {
        seq![92u8, 102u8]
    } else if b == 13 {
        seq![92u8, 114u8]
    } else if b < 32 {
        seq![92u8, 117u8, 48u8, 48u8, crate::hashing::hex_digit(b / 16), crate::hashing::hex_digit(
            b % 16,
        )]
    } else {
        seq![b]
    }
}

/// A byte sequence with every quote, backslash and control byte escaped.
pub open spec fn json_escaped(bs: Seq<u8>) -> Seq<u8>
    decreases bs.len(),
{
    if bs.len() == 0 {
        Seq::empty()
    } else {
        json_escaped(bs.drop_last()) + esc_byte(bs.last())
    }
}

/// Append `bytes` with every quote, backslash and control byte escaped.
fn append_escaped(out: &mut Vec<u8>, bytes: &[u8])
    ensures
        final(out)@ == old(out)@ + json_escaped(bytes@),
{
    let mut i: usize = 0;
    while i < bytes.len()
        invariant
            i <= bytes@.len(),
            out@ == old(out)@ + json_escaped(bytes@.subrange(0, i as int)),
        decreases bytes@.len() - i,
    {
        proof {
            assert(bytes@.subrange(0, (i + 1) as int).drop_last() =~= bytes@.subrange(
                0,
                i as int,
            ));
            assert(bytes@.subrange(0, (i + 1) as int).last() == bytes@[i as int]);
        }
        let b = bytes[i];
        if b == 34 {
            out.push(92u8);
            out.push(34u8);
        } else if b == 92 {
            out.push(92u8);
            out.push(92u8);
        } else if b == 8 {
            out.push(92u8);
            out.push(98u8);
        } else if b == 9 {
            out.push(92u8);
            out.push(116u8);
        } else if b == 10 {
            out.push(92u8);
            out.push(110u8);
        } else if b == 12 {
            out.push(92u8);
            out.push(102u8);
        } else if b == 13 {
            out.push(92u8);
            out.push(114u8);
        } else if b < 32 {
            out.push(92u8);
            out.push(117u8);
            out.push(48u8);
            out.push(48u8);
            out.push(if b / 16 < 10 {
                0x30 + b / 16
            } else {
                0x57 + b / 16
            });
            out.push(if b % 16 < 10 {
                0x30 + b % 16
            } else {
                0x57 + b % 16
            });
        } else {
            out.push(b);
        }
        proof {
            assert(out@ =~= old(out)@ + json_escaped(bytes@.subrange(0, (i + 1) as int)));
        }
        i = i + 1;
    }
    proof {
        assert(bytes@.subrange(0, bytes@.len() as int) =~= bytes@);
    }
}

/// Append a string's bytes with every quote, backslash and control byte
/// escaped.
pub fn append_escaped_text(out: &mut Vec<u8>, s: &String)
    ensures
        final(out)@ == old(out)@ + json_escaped(utf8_of(s@)),
{
    append_escaped(out, s.as_str().as_bytes());
}

/// The serialized body of a signing request: the agent's address and the
/// payload to sign, as an object with escaped string values.
pub open spec fn signing_body_bytes(agent: Seq<char>, payload: Seq<char>) -> Seq<u8> {
    utf8_of("{\"agent_id\":\""@) + json_escaped(utf8_of(agent)) + utf8_of("\",\"payload\":\""@)
        + json_escaped(utf8_of(payload)) + utf8_of("\"}"@)
}

/// Build the body of a signing request for the given agent address and
/// payload.
pub fn signing_request_body(agent_address: &Address, payload: &String) -> (r: Vec<u8>)
    ensures
        r@ == signing_body_bytes(agent_address@, payload@),
{
    let mut out: Vec<u8> = Vec::new();
    append_bytes(&mut out, "{\"agent_id\":\"".as_bytes());
    append_escaped(&mut out, agent_address.as_str().as_bytes());
    append_bytes(&mut out, "\",\"payload\":\"".as_bytes());
    append_escaped(&mut out, payload.as_str().as_bytes());
    append_bytes(&mut out, "\"}".as_bytes());
    proof {
        assert(out@ =~= signing_body_bytes(agent_address@, payload@));
    }
    out
}

/// Read a signing service's answer: a successful response must carry
/// text, which is the signature; anything else is an error that names
/// what went wrong.
pub fn interpret_signing_response(success: bool, body: Option<String>) -> (r: Result<
    String,
    HolochainError,
>)
    ensures
        success ==> (match body {
            Some(b) => r == Ok::<String, HolochainError>(b),
            None => r matches Err(e) && e matches HolochainError::ErrorGeneric(m) && m@
                == "Signing service response has no text"@,
        }),
        !success ==> (r matches Err(e) && e matches HolochainError::ErrorGeneric(m) && m@
            == "Status of response from signing service is not success"@),
{
    if !success {
        return Err(
            HolochainError::ErrorGeneric(
                "Status of response from signing service is not success".to_owned(),
            ),
        );
    }
    match body {
        Some(text) => Ok(text),
        None => Err(HolochainError::ErrorGeneric("Signing service response has no text".to_owned())),
    }
}

} // verus!
