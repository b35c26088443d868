//! Outgoing control-protocol messages.  Every message is a JSON text in the
//! protocol's envelope `{"op": <opcode>, "d": {...}}`; the three messages the
//! client sends are built here character by character, with the one inserted
//! string of each escaped as a JSON string literal demands.

use vstd::prelude::*;
use vstd::string::StrSliceExecFns;
use vstd::string::StringExecFns;

verus! {

/// Relies on `String::push`: appends exactly the one character.
#[verifier::external_body]
fn push_char(out: &mut String, c: char)
    ensures
        final(out)@ == old(out)@.push(c),
{
    out.push(c);
}

/// The lower-case hexadecimal digit for a value below 16.
pub open spec fn hex_digit(n: u32) -> char {
    if n == 0 {
        '0'
    } else if n == 1 {
        '1'
    } else if n == 2 {
        '2'
    } else if n == 3 {
        '3'
    } else if n == 4 {
        '4'
    } else if n == 5 {
        '5'
    } else if n == 6 {
        '6'
    } else if n == 7 {
        '7'
    } else if n == 8 {
        '8'
    } else if n == 9 {
        '9'
    } else if n == 10 {
        'a'
    } else if n == 11 {
        'b'
    } else if n == 12 {
        'c'
    } else if n == 13 {
        'd'
    } else if n == 14 {
        'e'
    } else {
        'f'
    }
}

fn hex_digit_char(n: u32) -> (digit: char)
    requires
        n < 16,
    ensures
        digit == hex_digit(n),
{
    if n == 0 {
        '0'
    } else if n == 1 {
        '1'
    } else if n == 2 {
        '2'
    } else if n == 3 {
        '3'
    } else if n == 4 {
        '4'
    } else if n == 5 {
        '5'
    } else if n == 6 {
        '6'
    } else if n == 7 {
        '7'
    } else if n == 8 {
        '8'
    } else if n == 9 {
        '9'
    } else if n == 10 {
        'a'
    } else if n == 11 {
        'b'
    } else if n == 12 {
        'c'
    } else if n == 13 {
        'd'
    } else if n == 14 {
        'e'
    } else {
        'f'
    }
}

/// How one character appears inside a JSON string literal: quote and
/// backslash escaped, control characters as `\u00XX`, everything else as
/// itself.
pub open spec fn escape_char(c: char) -> Seq<char> {
    if c == '"' {
        seq!['\\', '"']
    } else if c == '\\' {
        seq!['\\', '\\']
    } else if (c as u32) < 0x20 {
        seq!['\\', 'u', '0', '0', hex_digit((c as u32) / 16), hex_digit((c as u32) % 16)]
    } else {
        seq![c]
    }
}

/// The body of a JSON string literal holding the text `s`.
pub open spec fn json_escaped(s: Seq<char>) -> Seq<char>
    decreases s.len(),
{
    if s.len() == 0 {
        Seq::empty()
    } else {
        escape_char(s[0]) + json_escaped(s.drop_first())
    }
}

/// A complete JSON string literal holding the text `s`.
pub open spec fn quoted(s: Seq<char>) -> Seq<char> {
    seq!['"'] + json_escaped(s) + seq!['"']
}

proof fn lemma_json_escaped_push(s: Seq<char>, c: char)
    ensures
        json_escaped(s.push(c)) == json_escaped(s) + escape_char(c),
    decreases s.len(),
{
    if s.len() == 0 {
        assert(s.push(c).drop_first() =~= s);
        assert(json_escaped(s.push(c)) =~= json_escaped(s) + escape_char(c));
    } else {
        assert(s.push(c).drop_first() =~= s.drop_first().push(c));
        assert(s.push(c)[0] == s[0]);
        lemma_json_escaped_push(s.drop_first(), c);
        assert(json_escaped(s.push(c)) =~= json_escaped(s) + escape_char(c));
    }
}

/// Appends the JSON-escaped form of `s`.
fn append_escaped(out: &mut String, s: &str)
    ensures
        final(out)@ == old(out)@ + json_escaped(s@),
{
    let ghost base = out@;
    let n = s.unicode_len();
    let mut i: usize = 0;
    while i < n
        invariant
            n == s@.len(),
            i <= n,
            out@ == base + json_escaped(s@.take(i as int)),
        decreases n - i,
    {
        let c = s.get_char(i);
        proof {
            assert(s@.take(i as int).push(c) =~= s@.take(i + 1int));
            lemma_json_escaped_push(s@.take(i as int), c);
        }
        if c == '"' {
            push_char(out, '\\');
            push_char(out, '"');
        } else if c == '\\' {
            push_char(out, '\\');
            push_char(out, '\\');
        } else if (c as u32) < 0x20 {
            let v = c as u32;
            push_char(out, '\\');
            push_char(out, 'u');
            push_char(out, '0');
            push_char(out, '0');
            push_char(out, hex_digit_char(v / 16));
            push_char(out, hex_digit_char(v % 16));
        } else {
            push_char(out, c);
        }
        proof {
            assert(out@ =~= base + json_escaped(s@.take(i + 1int)));
        }
        i += 1;
    }
    proof {
        assert(s@.take(n as int) =~= s@);
    }
}

/// Appends `s` as a complete JSON string literal.
fn append_quoted(out: &mut String, s: &str)
    ensures
        final(out)@ == old(out)@ + quoted(s@),
{
    let ghost base = out@;
    push_char(out, '"');
    append_escaped(out, s);
    push_char(out, '"');
    proof {
        assert(out@ =~= base + quoted(s@));
    }
}

/// The identify message: protocol version 1, with the authentication string
/// when the greeting demanded one.
pub open spec fn identify_message(auth: Option<Seq<char>>) -> Seq<char> {
    match auth {
        Option::None => "{\"op\":1,\"d\":{\"rpcVersion\":1}}"@,
        Option::Some(a) => "{\"op\":1,\"d\":{\"rpcVersion\":1,\"authentication\":"@ + quoted(a)
            + "}}"@,
    }
}

/// Builds the identify message text.
pub fn build_identify(auth: Option<&str>) -> (msg: String)
    ensures
        auth is None ==> msg@ == identify_message(Option::None),
        auth matches Some(a) ==> msg@ == identify_message(Option::Some(a@)),
{
    match auth {
        None => String::from_str("{\"op\":1,\"d\":{\"rpcVersion\":1}}"),
        Some(a) => {
            let mut msg = String::from_str("{\"op\":1,\"d\":{\"rpcVersion\":1,\"authentication\":");
            append_quoted(&mut msg, a);
            msg.append("}}");
            proof {
                assert(msg@ =~= identify_message(Option::Some(a@)));
            }
            msg
        },
    }
}

/// The enumerate request: asks for the valid items of the target input's
/// "window" property, correlated by the fixed request id "list-window-items".
pub open spec fn enumerate_request_message(input: Seq<char>) -> Seq<char> {
    "{\"op\":6,\"d\":{\"requestType\":\"GetInputPropertiesListPropertyItems\",\"requestId\":\"list-window-items\",\"requestData\":{\"inputName\":"@
        + quoted(input) + ",\"propertyName\":\"window\"}}}"@
}

/// Builds the enumerate request for the named target input.
pub fn build_enumerate_request(input: &str) -> (msg: String)
    ensures
        msg@ == enumerate_request_message(input@),
{
    let mut msg = String::from_str(
        "{\"op\":6,\"d\":{\"requestType\":\"GetInputPropertiesListPropertyItems\",\"requestId\":\"list-window-items\",\"requestData\":{\"inputName\":",
    );
    append_quoted(&mut msg, input);
    msg.append(",\"propertyName\":\"window\"}}}");
    proof {
        assert(msg@ =~= enumerate_request_message(input@));
    }
    msg
}

/// The apply request: patches the chosen value into the target input's
/// settings under the fixed key "window", with the merge flag set, correlated
/// by the fixed request id "setAppAudio".
pub open spec fn apply_request_message(input: Seq<char>, value: Seq<char>) -> Seq<char> {
    "{\"op\":6,\"d\":{\"requestType\":\"SetInputSettings\",\"requestId\":\"setAppAudio\",\"requestData\":{\"inputName\":"@
        + quoted(input) + ",\"inputSettings\":{\"window\":"@ + quoted(value)
        + "},\"overlay\":true}}}"@
}

/// Builds the apply request for the named target input and chosen value.
pub fn build_apply_request(input: &str, value: &str) -> (msg: String)
    ensures
        msg@ == apply_request_message(input@, value@),
{
    let mut msg = String::from_str(
        "{\"op\":6,\"d\":{\"requestType\":\"SetInputSettings\",\"requestId\":\"setAppAudio\",\"requestData\":{\"inputName\":",
    );
    append_quoted(&mut msg, input);
    msg.append(",\"inputSettings\":{\"window\":");
    append_quoted(&mut msg, value);
    msg.append("},\"overlay\":true}}}");
    proof {
        assert(msg@ =~= apply_request_message(input@, value@));
    }
    msg
}

} // verus!
