//! The compact JSON wire format, as a specification over character
//! sequences, together with the verified string builders that produce it.
//!
//! A serialized object is `{`, the present members joined with commas in
//! order, and `}`; a member is the quoted key, a colon, and the quoted,
//! escaped value. No whitespace stands between tokens.

use vstd::prelude::*;
use vstd::string::StrSliceExecFns;
use vstd::string::StringExecFns;

verus! {

/// The lowercase hexadecimal digit for a nibble.
pub open spec fn hex_char(n: int) -> char {
    if n == 0 {
        '0'
    } else if n == 1 {
        '1'
    } else if n == 2 {
        '2'
    } else if n == 3 {
        '3'
    } else if n == 4 {
        '4'
    } else if n == 5 {
        '5'
    } else if n == 6 {
        '6'
    } else if n == 7 {
        '7'
    } else if n == 8 {
        '8'
    } else if n == 9 {
        '9'
    } else if n == 10 {
        'a'
    } else if n == 11 {
        'b'
    } else if n == 12 {
        'c'
    } else if n == 13 {
        'd'
    } else if n == 14 {
        'e'
    } else {
        'f'
    }
}

/// How one character of a field value appears inside a JSON string:
/// quote and backslash are escaped, control characters take their short
/// escape where JSON has one and a `\u00XX` escape otherwise, and every
/// other character stands for itself.
pub open spec fn esc(c: char) -> Seq<char> {
    if c == '"' {
        seq!['\\', '"']
    } else if c == '\\' {
        seq!['\\', '\\']
    } else if c == '\u{0008}' {
        seq!['\\', 'b']
    } else if c == '\t' {
        seq!['\\', 't']
    } else if c == '\n' {
        seq!['\\', 'n']
    } else if c == '\u{000c}' {
        seq!['\\', 'f']
    } else if c == '\r' {
        seq!['\\', 'r']
    } else if (c as u32) < 0x20 {
        seq!['\\', 'u', '0', '0', hex_char((c as u32) as int / 16), hex_char((c as u32) as int % 16)]
    } else {
        seq![c]
    }
}

/// A whole field value as it appears between the quotes of a JSON string.
pub open spec fn escape_seq(s: Seq<char>) -> Seq<char>
    decreases s.len(),
{
    if s.len() == 0 {
        Seq::empty()
    } else {
        escape_seq(s.drop_last()) + esc(s.last())
    }
}

/// One member of a JSON object: the quoted key, a colon, and the quoted,
/// escaped value.
pub open spec fn member(key: Seq<char>, value: Seq<char>) -> Seq<char> {
    seq!['"'] + key + seq!['"', ':', '"'] + escape_seq(value) + seq!['"']
}

/// The members of a JSON object joined with commas, in order.
pub open spec fn joined(members: Seq<(Seq<char>, Seq<char>)>) -> Seq<char>
    decreases members.len(),
{
    if members.len() == 0 {
        Seq::empty()
    } else if members.len() == 1 {
        member(members[0].0, members[0].1)
    } else {
        joined(members.drop_last()) + seq![','] + member(members.last().0, members.last().1)
    }
}

/// Whether some member of the object carries the given key.
pub open spec fn has_key(members: Seq<(Seq<char>, Seq<char>)>, key: Seq<char>) -> bool {
    exists|i: int| 0 <= i < members.len() && members[i].0 == key
}

/// Appending one member extends the joined rendering by a comma (unless
/// the object was empty so far) and the member itself.
pub proof fn lemma_joined_push(members: Seq<(Seq<char>, Seq<char>)>, key: Seq<char>, value: Seq<char>)
    ensures
        joined(members.push((key, value))) == if members.len() == 0 {
            member(key, value)
        } else {
            joined(members) + seq![','] + member(key, value)
        },
{
    let grown = members.push((key, value));
    assert(grown.last() == (key, value));
    if members.len() == 0 {
        assert(grown.len() == 1);
        assert(grown[0] == (key, value));
    } else {
        assert(grown.drop_last() =~= members);
    }
}

/// A key is carried by a concatenation of members exactly when one of the
/// parts carries it.
pub proof fn lemma_has_key_concat(
    left: Seq<(Seq<char>, Seq<char>)>,
    right: Seq<(Seq<char>, Seq<char>)>,
    key: Seq<char>,
)
    ensures
        has_key(left + right, key) <==> has_key(left, key) || has_key(right, key),
{
    let both = left + right;
    if has_key(both, key) {
        let i = choose|i: int| 0 <= i < both.len() && both[i].0 == key;
        if i < left.len() {
            assert(left[i].0 == key);
        } else {
            assert(right[i - left.len()].0 == key);
        }
    }
    if has_key(left, key) {
        let i = choose|i: int| 0 <= i < left.len() && left[i].0 == key;
        assert(both[i].0 == key);
    }
    if has_key(right, key) {
        let i = choose|i: int| 0 <= i < right.len() && right[i].0 == key;
        assert(both[i + left.len()].0 == key);
    }
}

/// Relies on `String::push`: appends the given character to the end of
/// the string.
#[verifier::external_body]
fn push_char(out: &mut String, c: char)
    ensures
        final(out)@ == old(out)@ + seq![c],
{
    out.push(c);
}

/// The lowercase hexadecimal digit for a nibble.
fn hex_digit(n: u32) -> (c: char)
    requires
        n < 16,
    ensures
        c == hex_char(n as int),
{
    if n == 0 {
        '0'
    } else if n == 1 {
        '1'
    } else if n == 2 {
        '2'
    } else if n == 3 {
        '3'
    } else if n == 4 {
        '4'
    } else if n == 5 {
        '5'
    } else if n == 6 {
        '6'
    } else if n == 7 {
        '7'
    } else if n == 8 {
        '8'
    } else if n == 9 {
        '9'
    } else if n == 10 {
        'a'
    } else if n == 11 {
        'b'
    } else if n == 12 {
        'c'
    } else if n == 13 {
        'd'
    } else if n == 14 {
        'e'
    } else {
        'f'
    }
}

/// Appends the escape of one character.
fn push_escaped_char(out: &mut String, c: char)
    ensures
        final(out)@ == old(out)@ + esc(c),
{
    if c == '"' {
        out.append("\\\"");
        proof {
            reveal_strlit("\\\"");
            assert("\\\""@ =~= esc(c));
        }
    } else if c == '\\' {
        out.append("\\\\");
        proof {
            reveal_strlit("\\\\");
            assert("\\\\"@ =~= esc(c));
        }
    } else if c == '\u{0008}' {
        out.append("\\b");
        proof {
            reveal_strlit("\\b");
            assert("\\b"@ =~= esc(c));
        }
    } else if c == '\t' {
        out.append("\\t");
        proof {
            reveal_strlit("\\t");
            assert("\\t"@ =~= esc(c));
        }
    } else if c == '\n' {
        out.append("\\n");
        proof {
            reveal_strlit("\\n");
            assert("\\n"@ =~= esc(c));
        }
    } else if c == '\u{000c}' {
        out.append("\\f");
        proof {
            reveal_strlit("\\f");
            assert("\\f"@ =~= esc(c));
        }
    } else if c == '\r' {
        out.append("\\r");
        proof {
            reveal_strlit("\\r");
            assert("\\r"@ =~= esc(c));
        }
    } else if (c as u32) < 0x20 {
        let code: u32 = c as u32;
        out.append("\\u00");
        push_char(out, hex_digit(code / 16));
        push_char(out, hex_digit(code % 16));
        proof {
            reveal_strlit("\\u00");
            assert("\\u00"@ + seq![hex_char(code as int / 16)] + seq![hex_char(code as int % 16)]
                =~= esc(c));
        }
    } else {
        push_char(out, c);
        assert(seq![c] =~= esc(c));
    }
}

/// A field value rendered for the inside of a JSON string.
pub fn escape_string(s: &str) -> (r: String)
    ensures
        r@ == escape_seq(s@),
{
    let n: usize = s.unicode_len();
    let mut out = String::new();
    let mut i: usize = 0;
    while i < n
        invariant
            n == s@.len(),
            i <= n,
            out@ == escape_seq(s@.take(i as int)),
        decreases n - i,
    {
        let c = s.get_char(i);
        push_escaped_char(&mut out, c);
        proof {
            assert(s@.take(i + 1 as int).drop_last() =~= s@.take(i as int));
            assert(s@.take(i + 1 as int).last() == s@[i as int]);
        }
        i = i + 1;
    }
    proof {
        assert(s@.take(n as int) =~= s@);
    }
    out
}

/// Appends one member of the object, with a leading comma when members
/// stand before it.
fn append_member(out: &mut String, first: bool, key: &str, value: &str)
    ensures
        final(out)@ == old(out)@ + (if first {
            Seq::<char>::empty()
        } else {
            seq![',']
        }) + member(key@, value@),
{
    if !first {
        out.append(",");
    }
    out.append("\"");
    out.append(key);
    out.append("\":\"");
    let escaped = escape_string(value);
    out.append(escaped.as_str());
    out.append("\"");
    proof {
        reveal_strlit(",");
        reveal_strlit("\"");
        reveal_strlit("\":\"");
        assert(seq!['"'] + key@ + seq!['"', ':', '"'] + escape_seq(value@) + seq!['"'] =~= "\""@
            + key@ + "\":\""@ + escape_seq(value@) + "\""@);
    }
}

/// The members named by a list of key/value string pairs.
pub open spec fn pair_members(pairs: Seq<(String, String)>) -> Seq<(Seq<char>, Seq<char>)> {
    pairs.map_values(|p: (String, String)| (p.0@, p.1@))
}

/// Renders the object holding exactly the given members, in order.
pub fn render_object(pairs: &Vec<(String, String)>) -> (r: String)
    ensures
        r@ == seq!['{'] + joined(pair_members(pairs@)) + seq!['}'],
{
    let ghost members = pair_members(pairs@);
    let mut out = String::from_str("{");
    proof {
        reveal_strlit("{");
        assert(out@ =~= seq!['{'] + joined(members.take(0)));
    }
    let n: usize = pairs.len();
    let mut i: usize = 0;
    while i < n
        invariant
            n == pairs@.len(),
            members == pair_members(pairs@),
            i <= n,
            out@ == seq!['{'] + joined(members.take(i as int)),
        decreases n - i,
    {
        let pair = &pairs[i];
        proof {
            assert(members[i as int] == (pairs@[i as int].0@, pairs@[i as int].1@));
            lemma_joined_push(members.take(i as int), pair.0@, pair.1@);
            assert(members.take(i as int).push((pair.0@, pair.1@)) =~= members.take(i + 1 as int));
        }
        append_member(&mut out, i == 0, pair.0.as_str(), pair.1.as_str());
        proof {
            assert(out@ =~= seq!['{'] + joined(members.take(i + 1 as int)));
        }
        i = i + 1;
    }
    proof {
        assert(members.take(n as int) =~= members);
    }
    out.append("}");
    proof {
        reveal_strlit("}");
        assert(out@ =~= seq!['{'] + joined(members) + seq!['}']);
    }
    out
}

} // verus!
