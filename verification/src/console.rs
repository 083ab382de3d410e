//! Console events of the reconstruction process and the notification texts
//! built from them.
//!
//! Each observable event — a console line, a process-level error, or
//! completion — is pushed to the observer as a tagged JSON object of the
//! shape `{"type": ..., "body": ...}`; the body text is escaped so that any
//! console line yields a well-formed JSON string.

use vstd::prelude::*;

verus! {

/// Escape of one character inside a JSON string literal: quote, backslash
/// and the named control characters get a two-character escape, other
/// control characters a `\u00..` escape, and everything else stands as it
/// is.
pub open spec fn escape_char(c: char) -> Seq<char> {
    if c == '"' {
        seq!['\\', '"']
    } else if c == '\\' {
        seq!['\\', '\\']
    } else if c == '\n' {
        seq!['\\', 'n']
    } else if c == '\r' {
        seq!['\\', 'r']
    } else if c == '\t' {
        seq!['\\', 't']
    } else if (c as int) < 32 {
        seq!['\\', 'u', '0', '0', hex_nibble((c as int) / 16), hex_nibble((c as int) % 16)]
    } else {
        seq![c]
    }
}

pub open spec fn hex_nibble(n: int) -> char {
    if n == 0 {
        '0'
    } else if n == 1 {
        '1'
    } else if n == 2 {
        '2'
    } else if n == 3 {
        '3'
    } else if n == 4 {
        '4'
    } else if n == 5 {
        '5'
    } else if n == 6 {
        '6'
    } else if n == 7 {
        '7'
    } else if n == 8 {
        '8'
    } else if n == 9 {
        '9'
    } else if n == 10 {
        'a'
    } else if n == 11 {
        'b'
    } else if n == 12 {
        'c'
    } else if n == 13 {
        'd'
    } else if n == 14 {
        'e'
    } else {
        'f'
    }
}

/// The body of a JSON string literal holding `s`: every character escaped.
pub open spec fn json_escape(s: Seq<char>) -> Seq<char>
    decreases s.len(),
{
    if s.len() == 0 {
        Seq::empty()
    } else {
        json_escape(s.drop_last()) + escape_char(s.last())
    }
}

/// Appends the two-character escape for the low control characters' hex
/// digits, `c` being a control character below 32.
fn push_control_escape(out: &mut String, c: char)
    requires
        (c as int) < 32,
        0 <= c as int,
        c != '\n',
        c != '\r',
        c != '\t',
    ensures
        final(out)@ == old(out)@ + escape_char(c),
{
    proof {
        reveal_strlit("\\u00");
        reveal_strlit("0");
        reveal_strlit("1");
        reveal_strlit("2");
        reveal_strlit("3");
        reveal_strlit("4");
        reveal_strlit("5");
        reveal_strlit("6");
        reveal_strlit("7");
        reveal_strlit("8");
        reveal_strlit("9");
        reveal_strlit("a");
        reveal_strlit("b");
        reveal_strlit("c");
        reveal_strlit("d");
        reveal_strlit("e");
        reveal_strlit("f");
    }
    let ghost base = out@;
    let v = c as u32;
    let hi = v / 16;
    let lo = v % 16;
    let h: &str = if hi >= 1 {
        "1"
    } else {
        "0"
    };
    let d: &str = match lo {
        0 => "0",
        1 => "1",
        2 => "2",
        3 => "3",
        4 => "4",
        5 => "5",
        6 => "6",
        7 => "7",
        8 => "8",
        9 => "9",
        10 => "a",
        11 => "b",
        12 => "c",
        13 => "d",
        14 => "e",
        _ => "f",
    };
    proof {
        assert(v as int == c as int);
        assert(hi as int == (c as int) / 16);
        assert(lo as int == (c as int) % 16);
        assert(h@ =~= seq![hex_nibble((c as int) / 16)]);
        assert(d@ =~= seq![hex_nibble((c as int) % 16)]);
    }
    out.append("\\u00");
    out.append(h);
    out.append(d);
    proof {
        assert(out@ =~= base + escape_char(c));
    }
}

/// Escapes a text for use as the body of a JSON string literal.
pub fn json_escape_str(s: &str) -> (r: String)
    ensures
        r@ == json_escape(s@),
{
    let len = s.unicode_len();
    let mut out = String::new();
    proof {
        assert(json_escape(s@.subrange(0, 0)) =~= Seq::<char>::empty());
    }
    let mut i: usize = 0;
    while i < len
        invariant
            i <= len,
            len == s@.len(),
            out@ == json_escape(s@.subrange(0, i as int)),
        decreases len - i,
    {
        let ghost prefix = s@.subrange(0, i as int);
        let c = s.get_char(i);
        if c == '"' {
            out.append("\\\"");
            proof {
                reveal_strlit("\\\"");
                assert("\\\""@ =~= escape_char(c));
            }
        } else if c == '\\' {
            out.append("\\\\");
            proof {
                reveal_strlit("\\\\");
                assert("\\\\"@ =~= escape_char(c));
            }
        } else if c == '\n' {
            out.append("\\n");
            proof {
                reveal_strlit("\\n");
                assert("\\n"@ =~= escape_char(c));
            }
        } else if c == '\r' {
            out.append("\\r");
            proof {
                reveal_strlit("\\r");
                assert("\\r"@ =~= escape_char(c));
            }
        } else if c == '\t' {
            out.append("\\t");
            proof {
                reveal_strlit("\\t");
                assert("\\t"@ =~= escape_char(c));
            }
        } else if (c as u32) < 32 {
            push_control_escape(&mut out, c);
        } else {
            let piece = s.substring_char(i, i + 1);
            out.append(piece);
            proof {
                assert(piece@ =~= seq![c]);
                assert(piece@ =~= escape_char(c));
            }
        }
        proof {
            assert(s@.subrange(0, i + 1int).drop_last() =~= prefix);
            assert(s@.subrange(0, i + 1int).last() == c);
            assert(json_escape(s@.subrange(0, i + 1int)) == json_escape(prefix) + escape_char(c));
        }
        i = i + 1;
    }
    proof {
        assert(s@.subrange(0, len as int) =~= s@);
    }
    out
}

/// The text of one console notification's body.
#[derive(Clone, Debug)]
pub struct MessageBody {
    pub body: String,
}

impl From<String> for MessageBody {
    fn from(string: String) -> (r: Self) {
        MessageBody { body: string }
    }
}

impl vstd::std_specs::convert::FromSpecImpl<String> for MessageBody {
    open spec fn obeys_from_spec() -> bool {
        true
    }

    open spec fn from_spec(v: String) -> Self {
        MessageBody { body: v }
    }
}

/// One observable event of the reconstruction process: a console line, a
/// process-level error, or completion.
#[derive(Clone, Debug)]
pub enum Message {
    NewConsoleOutput(MessageBody),
    Error(MessageBody),
    Finished,
}

/// The tagged JSON object text a message is delivered as.
pub open spec fn spec_message_json(m: Message) -> Seq<char> {
    match m {
        Message::NewConsoleOutput(b) => "{\"type\":\"NewConsoleOutput\",\"body\":\""@
            + json_escape(b.body@) + "\"}"@,
        Message::Error(b) => "{\"type\":\"Error\",\"body\":\""@ + json_escape(b.body@) + "\"}"@,
        Message::Finished => "{\"type\":\"Finished\"}"@,
    }
}

impl Message {
    /// Renders the message as its tagged JSON object text.
    pub fn into_json(self) -> (r: String)
        ensures
            r@ == spec_message_json(self),
    {
        match self {
            Message::NewConsoleOutput(b) => {
                let mut out = String::from_str("{\"type\":\"NewConsoleOutput\",\"body\":\"");
                let escaped = json_escape_str(b.body.as_str());
                out.append(escaped.as_str());
                out.append("\"}");
                out
            },
            Message::Error(b) => {
                let mut out = String::from_str("{\"type\":\"Error\",\"body\":\"");
                let escaped = json_escape_str(b.body.as_str());
                out.append(escaped.as_str());
                out.append("\"}");
                out
            },
            Message::Finished => String::from_str("{\"type\":\"Finished\"}"),
        }
    }
}

} // verus!
