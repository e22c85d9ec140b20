//! The provider wire format: renders an outbound email as the JSON body
//! of the delivery request, with exact character-level escaping.

use vstd::prelude::*;
use vstd::string::*;
use crate::normalize::OutboundEmail;

verus! {

/// The hexadecimal digit (lower case) for a value below sixteen.
pub open spec fn hex_digit(d: nat) -> char {
    if d == 0 {
        '0'
    } else if d == 1 {
        '1'
    } else if d == 2 {
        '2'
    } else if d == 3 {
        '3'
    } else if d == 4 {
        '4'
    } else if d == 5 {
        '5'
    } else if d == 6 {
        '6'
    } else if d == 7 {
        '7'
    } else if d == 8 {
        '8'
    } else if d == 9 {
        '9'
    } else if d == 10 {
        'a'
    } else if d == 11 {
        'b'
    } else if d == 12 {
        'c'
    } else if d == 13 {
        'd'
    } else if d == 14 {
        'e'
    } else {
        'f'
    }
}

/// One character of a JSON string, escaped as the wire format writes it:
/// quote and backslash get a backslash, the named control characters their
/// short escapes, every other control character a `\u00` escape, and all
/// else passes through verbatim.
pub open spec fn escaped_char(c: char) -> Seq<char> {
    if c == '"' {
        seq!['\\', '"']
    } else if c == '\\' {
        seq!['\\', '\\']
    } else if c == '\u{8}' {
        seq!['\\', 'b']
    } else if c == '\t' {
        seq!['\\', 't']
    } else if c == '\n' {
        seq!['\\', 'n']
    } else if c == '\u{C}' {
        seq!['\\', 'f']
    } else if c == '\r' {
        seq!['\\', 'r']
    } else if (c as u32) < 0x20 {
        seq!['\\', 'u', '0', '0', hex_digit((c as u32 / 16) as nat), hex_digit(
            (c as u32 % 16) as nat,
        )]
    } else {
        seq![c]
    }
}

/// The escaped form of a whole string, character by character.
pub open spec fn escape_chars(s: Seq<char>) -> Seq<char>
    decreases s.len(),
{
    if s.len() == 0 {
        Seq::empty()
    } else {
        escaped_char(s[0]) + escape_chars(s.drop_first())
    }
}

/// A JSON string token: the escaped characters between double quotes.
pub open spec fn json_string(s: Seq<char>) -> Seq<char> {
    seq!['"'] + escape_chars(s) + seq!['"']
}

proof fn lemma_escape_chars_snoc(s: Seq<char>)
    requires
        s.len() > 0,
    ensures
        escape_chars(s) == escape_chars(s.drop_last()) + escaped_char(s.last()),
    decreases s.len(),
{
    if s.len() == 1 {
        assert(s.drop_first() =~= Seq::<char>::empty());
        assert(s.drop_last() =~= Seq::<char>::empty());
        assert(escape_chars(s) =~= escape_chars(s.drop_last()) + escaped_char(s.last()));
    } else {
        lemma_escape_chars_snoc(s.drop_first());
        assert(s.drop_first().drop_last() =~= s.drop_last().drop_first());
        assert(s.drop_last()[0] == s[0]);
        assert(escape_chars(s) =~= escape_chars(s.drop_last()) + escaped_char(s.last()));
    }
}

fn hex_digit_str(d: u32) -> (s: &'static str)
    requires
        d < 16,
    ensures
        s@ == seq![hex_digit(d as nat)],
{
    let s: &'static str = if d == 0 {
        "0"
    } else if d == 1 {
        "1"
    } else if d == 2 {
        "2"
    } else if d == 3 {
        "3"
    } else if d == 4 {
        "4"
    } else if d == 5 {
        "5"
    } else if d == 6 {
        "6"
    } else if d == 7 {
        "7"
    } else if d == 8 {
        "8"
    } else if d == 9 {
        "9"
    } else if d == 10 {
        "a"
    } else if d == 11 {
        "b"
    } else if d == 12 {
        "c"
    } else if d == 13 {
        "d"
    } else if d == 14 {
        "e"
    } else {
        "f"
    };
    proof {
        reveal_strlit("0");
        reveal_strlit("1");
        reveal_strlit("2");
        reveal_strlit("3");
        reveal_strlit("4");
        reveal_strlit("5");
        reveal_strlit("6");
        reveal_strlit("7");
        reveal_strlit("8");
        reveal_strlit("9");
        reveal_strlit("a");
        reveal_strlit("b");
        reveal_strlit("c");
        reveal_strlit("d");
        reveal_strlit("e");
        reveal_strlit("f");
        assert(s@ =~= seq![hex_digit(d as nat)]);
    }
    s
}

fn append_escaped(out: &mut String, s: &str)
    ensures
        final(out)@ == old(out)@ + escape_chars(s@),
{
    let n = s.unicode_len();
    proof {
        assert(s@.subrange(0, 0) =~= Seq::<char>::empty());
        assert(out@ =~= out@ + escape_chars(s@.subrange(0, 0)));
    }
    let mut i: usize = 0;
    while i < n
        invariant
            n == s@.len(),
            i <= n,
            out@ == old(out)@ + escape_chars(s@.subrange(0, i as int)),
        decreases n - i,
    {
        let c = s.get_char(i);
        let ghost pre = out@;
        if c == '"' {
            out.append("\\\"");
            proof {
                reveal_strlit("\\\"");
                assert(out@ =~= pre + escaped_char(c));
            }
        } else if c == '\\' {
            out.append("\\\\");
            proof {
                reveal_strlit("\\\\");
                assert(out@ =~= pre + escaped_char(c));
            }
        } else if c == '\u{8}' {
            out.append("\\b");
            proof {
                reveal_strlit("\\b");
                assert(out@ =~= pre + escaped_char(c));
            }
        } else if c == '\t' {
            out.append("\\t");
            proof {
                reveal_strlit("\\t");
                assert(out@ =~= pre + escaped_char(c));
            }
        } else if c == '\n' {
            out.append("\\n");
            proof {
                reveal_strlit("\\n");
                assert(out@ =~= pre + escaped_char(c));
            }
        } else if c == '\u{C}' {
            out.append("\\f");
            proof {
                reveal_strlit("\\f");
                assert(out@ =~= pre + escaped_char(c));
            }
        } else if c == '\r' {
            out.append("\\r");
            proof {
                reveal_strlit("\\r");
                assert(out@ =~= pre + escaped_char(c));
            }
        } else {
            let u = c as u32;
            if u < 0x20 {
                out.append("\\u00");
                out.append(hex_digit_str(u / 16));
                out.append(hex_digit_str(u % 16));
                proof {
                    reveal_strlit("\\u00");
                    assert(out@ =~= pre + escaped_char(c));
                }
            } else {
                let piece = s.substring_char(i, i + 1);
                out.append(piece);
                proof {
                    assert(piece@ =~= escaped_char(c));
                    assert(out@ =~= pre + escaped_char(c));
                }
            }
        }
        proof {
            lemma_escape_chars_snoc(s@.subrange(0, i as int + 1));
            assert(s@.subrange(0, i as int + 1).drop_last() =~= s@.subrange(0, i as int));
            assert(s@.subrange(0, i as int + 1).last() == s@[i as int]);
            assert(out@ =~= old(out)@ + escape_chars(s@.subrange(0, i as int + 1)));
        }
        i = i + 1;
    }
    proof {
        assert(s@.subrange(0, n as int) =~= s@);
    }
}

fn append_json_string(out: &mut String, s: &str)
    ensures
        final(out)@ == old(out)@ + json_string(s@),
{
    out.append("\"");
    append_escaped(out, s);
    out.append("\"");
    proof {
        reveal_strlit("\"");
        assert(out@ =~= old(out)@ + json_string(s@));
    }
}

/// The JSON wire body for one outbound email: the personalizations with
/// the recipient and, when one is set, the hidden-copy address, then the
/// sender, the reply-to, the subject, and the single plain-text content
/// part, in this fixed key order.
pub open spec fn wire_body(e: OutboundEmail) -> Seq<char> {
    let head = "{\"personalizations\":[{\"to\":[{\"email\":"@ + json_string(e.to_email@)
        + ",\"name\":"@ + json_string(e.to_name@) + "}]"@;
    let with_bcc = match e.bcc {
        Option::Some(b) => head + (",\"bcc\":[{\"email\":"@ + json_string(b@) + "}]"@),
        Option::None => head,
    };
    with_bcc + "}],\"from\":{\"email\":"@ + json_string(e.from_email@) + ",\"name\":"@
        + json_string(e.from_name@) + "},\"reply_to\":{\"email\":"@ + json_string(
        e.reply_to_email@,
    ) + ",\"name\":"@ + json_string(e.reply_to_name@) + "},\"subject\":"@ + json_string(e.subject@)
        + ",\"content\":[{\"type\":\"text/plain\",\"value\":"@ + json_string(e.content@) + "}]}"@
}

/// Renders the JSON wire body of `wire_body` for one outbound email.
pub fn render_body(e: &OutboundEmail) -> (s: String)
    ensures
        s@ == wire_body(*e),
{
    let mut out = String::from_str("{\"personalizations\":[{\"to\":[{\"email\":");
    append_json_string(&mut out, e.to_email.as_str());
    out.append(",\"name\":");
    append_json_string(&mut out, e.to_name.as_str());
    out.append("}]");
    let ghost head = "{\"personalizations\":[{\"to\":[{\"email\":"@ + json_string(e.to_email@)
        + ",\"name\":"@ + json_string(e.to_name@) + "}]"@;
    match &e.bcc {
        Option::Some(b) => {
            out.append(",\"bcc\":[{\"email\":");
            append_json_string(&mut out, b.as_str());
            out.append("}]");
            proof {
                assert(out@ =~= head + (",\"bcc\":[{\"email\":"@ + json_string(b@) + "}]"@));
            }
        },
        Option::None => {},
    }
    out.append("}],\"from\":{\"email\":");
    append_json_string(&mut out, e.from_email.as_str());
    out.append(",\"name\":");
    append_json_string(&mut out, e.from_name.as_str());
    out.append("},\"reply_to\":{\"email\":");
    append_json_string(&mut out, e.reply_to_email.as_str());
    out.append(",\"name\":");
    append_json_string(&mut out, e.reply_to_name.as_str());
    out.append("},\"subject\":");
    append_json_string(&mut out, e.subject.as_str());
    out.append(",\"content\":[{\"type\":\"text/plain\",\"value\":");
    append_json_string(&mut out, e.content.as_str());
    out.append("}]}");
    out
}

} // verus!
