//! The signaling message exchanged with the remote side, and its JSON text.
use vstd::prelude::*;

use crate::CLIENT_SDP_OFFER;

verus! {

/// The lower-case hexadecimal digit of `d`, for `0 <= d < 16`.
pub open spec fn hex_digit(d: int) -> char {
    seq!['0', '1', '2', '3', '4', '5', '6', '7', '8', '9', 'a', 'b', 'c', 'd', 'e', 'f'][d]
}

/// How one character is written inside a JSON string: quote and backslash
/// behind a backslash, the five common control characters by their short
/// escapes, other characters below U+0020 as `\u00xx`, the rest as they are.
pub open spec fn escaped_char(c: char) -> Seq<char> {
    if c == '"' {
        seq!['\\', '"']
    } else if c == '\\' {
        seq!['\\', '\\']
    } else if c == '\u{8}' {
        seq!['\\', 'b']
    } else if c == '\t' {
        seq!['\\', 't']
    } else if c == '\n' {
        seq!['\\', 'n']
    } else if c == '\u{c}' {
        seq!['\\', 'f']
    } else if c == '\r' {
        seq!['\\', 'r']
    } else if (c as int) < 0x20 {
        seq!['\\', 'u', '0', '0', hex_digit((c as int) / 16), hex_digit((c as int) % 16)]
    } else {
        seq![c]
    }
}

/// The characters of `s`, each written as inside a JSON string.
pub open spec fn escaped(s: Seq<char>) -> Seq<char>
    decreases s.len(),
{
    if s.len() == 0 {
        Seq::empty()
    } else {
        escaped(s.drop_last()) + escaped_char(s.last())
    }
}

/// The JSON string literal of `s`: its escaped characters between quotes.
pub open spec fn json_string_literal(s: Seq<char>) -> Seq<char> {
    seq!['"'] + escaped(s) + seq!['"']
}

/// Relies on `serde_json::to_string` on a `str`: it writes the JSON string
/// literal of the text, escaping by serde_json's table of escapes. A `str` serialises into a `Vec` without error, so the
/// fallback is never taken.
#[verifier::external_body]
fn json_quote(s: &str) -> (r: String)
    ensures
        r@ == json_string_literal(s@),
{
    serde_json::to_string(s).unwrap_or_default()
}

/// A signaling message: an offer, or an answer routed back to the client that
/// asked for it. Absent fields are left out of the JSON text.
#[derive(Debug, Clone, PartialEq, Eq, Hash)]
pub struct SdpOfferAnswer {
    pub flag: Option<String>,
    pub offer: Option<String>,
    pub answer: Option<String>,
    pub client_id: Option<String>,
}

/// The message carries this agent's tag.
pub open spec fn tagged(m: SdpOfferAnswer) -> bool {
    m.flag matches Some(f) && f@ == CLIENT_SDP_OFFER@
}

/// The text that one member adds to an object: nothing when `v` is absent,
/// else `key` (the quoted name and colon) and the value's literal, after a
/// comma when a member precedes it.
pub open spec fn member_text(preceded: bool, key: Seq<char>, v: Option<String>) -> Seq<char> {
    match v {
        None => Seq::empty(),
        Some(s) => (if preceded {
            ","@
        } else {
            Seq::empty()
        }) + key + json_string_literal(s@),
    }
}

/// The JSON text of a message: its present fields in the order flag, offer,
/// answer, clientId, with no whitespace.
pub open spec fn message_json(m: SdpOfferAnswer) -> Seq<char> {
    let f = m.flag is Some;
    let o = f || m.offer is Some;
    let a = o || m.answer is Some;
    "{"@ + member_text(false, "\"flag\":"@, m.flag) + member_text(f, "\"offer\":"@, m.offer)
        + member_text(o, "\"answer\":"@, m.answer) + member_text(a, "\"clientId\":"@, m.client_id)
        + "}"@
}

/// Appends one member to `out`; returns whether any member has been written.
fn push_member(out: &mut String, preceded: bool, key: &str, v: &Option<String>) -> (r: bool)
    ensures
        final(out)@ == old(out)@ + member_text(preceded, key@, *v),
        r == (preceded || v is Some),
{
    match v {
        None => {
            assert(old(out)@ + member_text(preceded, key@, *v) =~= old(out)@);
            preceded
        },
        Some(s) => {
            if preceded {
                out.append(",");
            }
            out.append(key);
            let lit = json_quote(s.as_str());
            out.append(lit.as_str());
            assert(final(out)@ =~= old(out)@ + member_text(preceded, key@, *v));
            true
        },
    }
}

impl SdpOfferAnswer {
    /// A message carrying the agent's tag and the given fields.
    pub fn new(offer: Option<String>, answer: Option<String>, client_id: Option<String>) -> (r:
        SdpOfferAnswer)
        ensures
            tagged(r),
            r.offer == offer,
            r.answer == answer,
            r.client_id == client_id,
    {
        SdpOfferAnswer { flag: Some(String::from_str(CLIENT_SDP_OFFER)), offer, answer, client_id }
    }

    /// The message as JSON text.
    pub fn to_json(&self) -> (r: String)
        ensures
            r@ == message_json(*self),
    {
        let mut out = String::new();
        out.append("{");
        let f = push_member(&mut out, false, "\"flag\":", &self.flag);
        let o = push_member(&mut out, f, "\"offer\":", &self.offer);
        let a = push_member(&mut out, o, "\"answer\":", &self.answer);
        let _ = push_member(&mut out, a, "\"clientId\":", &self.client_id);
        out.append("}");
        assert(out@ =~= message_json(*self));
        out
    }
}

} // verus!
