//! The wire form of error responses: a JSON object `{"message":"<text>"}`
//! for the structured kinds, and a bare JSON string for the others.
//!
//! The framing is the crate's own: a message is quoted, with `"` and `\`
//! preceded by a backslash, and the structured body wraps the quoted message
//! in a one-field object. Decoding inverts encoding exactly.

use vstd::prelude::*;

verus! {

/// How one character of a message stands inside a quoted wire string:
/// a quote or a backslash is preceded by a backslash, anything else
/// stands as itself.
pub open spec fn escape_char(c: char) -> Seq<char> {
    if c == '"' || c == '\\' {
        seq!['\\', c]
    } else {
        seq![c]
    }
}

/// A whole message with each character escaped.
pub open spec fn escape_seq(s: Seq<char>) -> Seq<char>
    decreases s.len(),
{
    if s.len() == 0 {
        Seq::empty()
    } else {
        escape_char(s[0]) + escape_seq(s.drop_first())
    }
}

/// A quoted JSON string: the escaped message between double quotes.
pub open spec fn json_string(s: Seq<char>) -> Seq<char> {
    seq!['"'] + escape_seq(s) + seq!['"']
}

/// What a structured body starts with, up to the quoted message.
pub open spec fn body_open() -> Seq<char> {
    "{\"message\":"@
}

/// What a structured body ends with, after the quoted message.
pub open spec fn body_close() -> Seq<char> {
    "}"@
}

/// The wire form of a structured body carrying the message `m`.
pub open spec fn body_wire(m: Seq<char>) -> Seq<char> {
    body_open() + json_string(m) + body_close()
}

/// The message whose escaped form is `s`, if `s` is one: escapes are
/// undone, a lone backslash, an unknown escape or a bare quote is refused.
pub open spec fn unescape(s: Seq<char>) -> Option<Seq<char>>
    decreases s.len(),
{
    if s.len() == 0 {
        Some(Seq::empty())
    } else if s[0] == '\\' {
        if s.len() >= 2 && (s[1] == '"' || s[1] == '\\') {
            match unescape(s.skip(2)) {
                Some(t) => Some(seq![s[1]] + t),
                None => None,
            }
        } else {
            None
        }
    } else if s[0] == '"' {
        None
    } else {
        match unescape(s.drop_first()) {
            Some(t) => Some(seq![s[0]] + t),
            None => None,
        }
    }
}

/// The message carried by a quoted JSON string `s`, if `s` is one.
pub open spec fn parse_json_string(s: Seq<char>) -> Option<Seq<char>> {
    if s.len() >= 2 && s[0] == '"' && s[s.len() - 1] == '"' {
        unescape(s.subrange(1, s.len() - 1))
    } else {
        None
    }
}

/// The message carried by a structured body `s`, if `s` is one.
pub open spec fn parse_body(s: Seq<char>) -> Option<Seq<char>> {
    if s.len() >= 13 && s.subrange(0, 11) == body_open() && s[s.len() - 1] == body_close()[0] {
        parse_json_string(s.subrange(11, s.len() - 1))
    } else {
        None
    }
}

/// Escaping distributes over concatenation.
pub proof fn lemma_escape_append(a: Seq<char>, b: Seq<char>)
    ensures
        escape_seq(a + b) == escape_seq(a) + escape_seq(b),
    decreases a.len(),
{
    if a.len() == 0 {
        assert(a + b =~= b);
        assert(escape_seq(a) + escape_seq(b) =~= escape_seq(b));
    } else {
        assert((a + b).drop_first() =~= a.drop_first() + b);
        lemma_escape_append(a.drop_first(), b);
        assert((a + b)[0] == a[0]);
        assert(escape_char(a[0]) + (escape_seq(a.drop_first()) + escape_seq(b)) =~= (escape_char(
            a[0],
        ) + escape_seq(a.drop_first())) + escape_seq(b));
    }
}

/// Undoing the escapes of a message gives the message back.
pub proof fn lemma_unescape_escape(m: Seq<char>)
    ensures
        unescape(escape_seq(m)) == Some(m),
    decreases m.len(),
{
    if m.len() == 0 {
    } else {
        let c = m[0];
        let rest = m.drop_first();
        lemma_unescape_escape(rest);
        let e = escape_seq(m);
        assert(e == escape_char(c) + escape_seq(rest));
        if c == '"' || c == '\\' {
            assert(e[0] == '\\');
            assert(e[1] == c);
            assert(e.skip(2) =~= escape_seq(rest));
            assert(seq![c] + rest =~= m);
        } else {
            assert(e[0] == c);
            assert(e.drop_first() =~= escape_seq(rest));
            assert(seq![c] + rest =~= m);
        }
    }
}

/// Round trip of the quoted form: parsing the JSON string of a message
/// gives the message back.
pub proof fn lemma_json_string_round_trip(m: Seq<char>)
    ensures
        parse_json_string(json_string(m)) == Some(m),
{
    let j = json_string(m);
    assert(j.len() == escape_seq(m).len() + 2);
    assert(j[0] == '"');
    assert(j[j.len() - 1] == '"');
    assert(j.subrange(1, j.len() - 1) =~= escape_seq(m));
    lemma_unescape_escape(m);
}

/// Round trip of the structured body: parsing the wire form of a message
/// gives the message back.
pub proof fn lemma_body_wire_round_trip(m: Seq<char>)
    ensures
        parse_body(body_wire(m)) == Some(m),
{
    let w = body_wire(m);
    let j = json_string(m);
    reveal_strlit("{\"message\":");
    reveal_strlit("}");
    assert(body_open().len() == 11);
    assert(body_close().len() == 1);
    assert(w.len() == j.len() + 12);
    assert(j.len() >= 2);
    assert(w.subrange(0, 11) =~= body_open());
    assert(w[w.len() - 1] == body_close()[0]);
    assert(w.subrange(11, w.len() - 1) =~= j);
    lemma_json_string_round_trip(m);
}

/// Relies on String::push: appends exactly the one character to the end.
#[verifier::external_body]
fn push_char(s: &mut String, c: char)
    ensures
        final(s)@ == old(s)@.push(c),
{
    s.push(c);
}

/// Quotes a message for the wire: the result is the JSON string form of `s`.
pub fn json_quote(s: &str) -> (r: String)
    ensures
        r@ == json_string(s@),
{
    let mut r = String::new();
    push_char(&mut r, '"');
    let n = s.unicode_len();
    let mut i: usize = 0;
    proof {
        assert(s@.subrange(0, 0) =~= Seq::<char>::empty());
        assert(r@ =~= seq!['"'] + escape_seq(s@.subrange(0, 0)));
    }
    while i < n
        invariant
            i <= n,
            n == s@.len(),
            r@ == seq!['"'] + escape_seq(s@.subrange(0, i as int)),
        decreases n - i,
    {
        let c = s.get_char(i);
        if c == '"' || c == '\\' {
            push_char(&mut r, '\\');
        }
        push_char(&mut r, c);
        proof {
            let done = s@.subrange(0, i as int);
            assert(s@.subrange(0, i + 1) =~= done + seq![c]);
            lemma_escape_append(done, seq![c]);
            assert(seq![c].drop_first() =~= Seq::<char>::empty());
            assert(escape_seq(seq![c]) == escape_char(c) + escape_seq(Seq::<char>::empty()));
            assert(escape_char(c) + escape_seq(Seq::<char>::empty()) =~= escape_char(c));
            assert(r@ =~= seq!['"'] + escape_seq(s@.subrange(0, i + 1)));
        }
        i += 1;
    }
    push_char(&mut r, '"');
    proof {
        assert(s@.subrange(0, n as int) =~= s@);
        assert(r@ =~= json_string(s@));
    }
    r
}

/// Reads a quoted JSON string back into the message it carries; anything
/// that is not the quoted form of some message is refused.
pub fn json_unquote(t: &str) -> (r: Option<String>)
    ensures
        match r {
            Some(u) => parse_json_string(t@) == Some(u@),
            None => parse_json_string(t@) is None,
        },
{
    let n = t.unicode_len();
    if n < 2 {
        return None;
    }
    if t.get_char(0) != '"' {
        return None;
    }
    if t.get_char(n - 1) != '"' {
        return None;
    }
    let end = n - 1;
    let mut out = String::new();
    let mut i: usize = 1;
    proof {
        if unescape(t@.subrange(1, end as int)) is Some {
            let tail = unescape(t@.subrange(1, end as int)).unwrap();
            assert(Seq::<char>::empty() + tail =~= tail);
        }
    }
    while i < end
        invariant
            1 <= i <= end,
            end == n - 1,
            n == t@.len(),
            n >= 2,
            t@[0] == '"',
            t@[n - 1] == '"',
            unescape(t@.subrange(1, end as int)) == (match unescape(
                t@.subrange(i as int, end as int),
            ) {
                Some(tail) => Some(out@ + tail),
                None => None::<Seq<char>>,
            }),
        decreases end - i,
    {
        let c = t.get_char(i);
        let ghost rem = t@.subrange(i as int, end as int);
        let ghost out_old = out@;
        if c == '\\' {
            if i + 1 == end {
                proof {
                    assert(rem.len() == 1);
                    assert(rem[0] == '\\');
                }
                return None;
            }
            let c2 = t.get_char(i + 1);
            if c2 == '"' || c2 == '\\' {
                push_char(&mut out, c2);
                proof {
                    assert(rem[0] == '\\');
                    assert(rem[1] == c2);
                    assert(rem.skip(2) =~= t@.subrange(i as int + 2, end as int));
                    if unescape(t@.subrange(i as int + 2, end as int)) is Some {
                        let tail = unescape(t@.subrange(i as int + 2, end as int)).unwrap();
                        assert(out_old + (seq![c2] + tail) =~= out_old.push(c2) + tail);
                    }
                }
                i += 2;
            } else {
                proof {
                    assert(rem[0] == '\\');
                    assert(rem[1] == c2);
                }
                return None;
            }
        } else if c == '"' {
            proof {
                assert(rem[0] == '"');
            }
            return None;
        } else {
            push_char(&mut out, c);
            proof {
                assert(rem[0] == c);
                assert(rem.drop_first() =~= t@.subrange(i as int + 1, end as int));
                if unescape(t@.subrange(i as int + 1, end as int)) is Some {
                    let tail = unescape(t@.subrange(i as int + 1, end as int)).unwrap();
                    assert(out_old + (seq![c] + tail) =~= out_old.push(c) + tail);
                }
            }
            i += 1;
        }
    }
    proof {
        assert(t@.subrange(end as int, end as int) =~= Seq::<char>::empty());
        assert(out@ + Seq::<char>::empty() =~= out@);
    }
    Some(out)
}

/// Hands out the character the structured body starts with at position `i`,
/// so the decoder can check the opening without revealing literals itself.
fn body_open_char(i: usize) -> (c: char)
    requires
        i < 11,
    ensures
        c == body_open()[i as int],
{
    proof {
        reveal_strlit("{\"message\":");
    }
    if i == 0 {
        '{'
    } else if i == 1 {
        '"'
    } else if i == 2 {
        'm'
    } else if i == 3 {
        'e'
    } else if i == 4 {
        's'
    } else if i == 5 {
        's'
    } else if i == 6 {
        'a'
    } else if i == 7 {
        'g'
    } else if i == 8 {
        'e'
    } else if i == 9 {
        '"'
    } else {
        ':'
    }
}

/// The structured response body: a one-field JSON object on the wire.
pub struct ErrorResponseBody {
    pub message: String,
}

impl ErrorResponseBody {
    /// Writes the body in its wire form, `{"message":"<escaped>"}`.
    pub fn encode(&self) -> (r: String)
        ensures
            r@ == body_wire(self.message@),
    {
        let q = json_quote(self.message.as_str());
        let r = String::from_str("{\"message\":").concat(q.as_str()).concat("}");
        proof {
            assert(r@ == body_wire(self.message@));
        }
        r
    }

    /// Reads a wire-form body back; anything that is not the wire form of
    /// some body is refused.
    pub fn decode(s: &str) -> (r: Option<ErrorResponseBody>)
        ensures
            match r {
                Some(b) => parse_body(s@) == Some(b.message@),
                None => parse_body(s@) is None,
            },
    {
        let n = s.unicode_len();
        if n < 13 {
            return None;
        }
        proof {
            reveal_strlit("{\"message\":");
            assert(body_open().len() == 11);
        }
        let mut i: usize = 0;
        while i < 11
            invariant
                i <= 11,
                n == s@.len(),
                n >= 13,
                body_open().len() == 11,
                s@.subrange(0, i as int) == body_open().subrange(0, i as int),
            decreases 11 - i,
        {
            let expected = body_open_char(i);
            if s.get_char(i) != expected {
                proof {
                    assert(s@.subrange(0, 11)[i as int] == s@[i as int]);
                }
                return None;
            }
            proof {
                assert(s@.subrange(0, i as int + 1) =~= s@.subrange(0, i as int).push(
                    s@[i as int],
                ));
                assert(body_open().subrange(0, i as int + 1) =~= body_open().subrange(
                    0,
                    i as int,
                ).push(body_open()[i as int]));
            }
            i += 1;
        }
        proof {
            reveal_strlit("{\"message\":");
            reveal_strlit("}");
            assert(body_open().len() == 11);
            assert(s@.subrange(0, 11) =~= body_open());
        }
        if s.get_char(n - 1) != '}' {
            return None;
        }
        let mid = s.substring_char(11, n - 1);
        match json_unquote(mid) {
            Some(u) => Some(ErrorResponseBody { message: u }),
            None => None,
        }
    }
}

} // verus!
