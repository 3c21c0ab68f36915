//! Rendering of the JSON request bodies the vault API expects, with an
//! exact specification of every produced character.

use vstd::prelude::*;

verus! {

/// The lower-case hexadecimal digit for a value below 16.
pub open spec fn spec_hex_digit(n: int) -> char {
    if n == 0 {
        '0'
    } else if n == 1 {
        '1'
    } else if n == 2 {
        '2'
    } else if n == 3 {
        '3'
    } else if n == 4 {
        '4'
    } else if n == 5 {
        '5'
    } else if n == 6 {
        '6'
    } else if n == 7 {
        '7'
    } else if n == 8 {
        '8'
    } else if n == 9 {
        '9'
    } else if n == 10 {
        'a'
    } else if n == 11 {
        'b'
    } else if n == 12 {
        'c'
    } else if n == 13 {
        'd'
    } else if n == 14 {
        'e'
    } else {
        'f'
    }
}

/// How one character appears inside a JSON string literal: quotes and
/// backslashes are escaped, control characters take the `\u00XX` form, and
/// every other character stands for itself.
pub open spec fn spec_escape_char(c: char) -> Seq<char> {
    if c == '"' {
        seq!['\\', '"']
    } else if c == '\\' {
        seq!['\\', '\\']
    } else if (c as int) < 32 {
        seq!['\\', 'u', '0', '0', spec_hex_digit((c as int) / 16), spec_hex_digit((c as int) % 16)]
    } else {
        seq![c]
    }
}

/// A whole text as it appears inside a JSON string literal.
pub open spec fn spec_escape(s: Seq<char>) -> Seq<char>
    decreases s.len(),
{
    if s.len() == 0 {
        Seq::empty()
    } else {
        spec_escape_char(s[0]) + spec_escape(s.skip(1))
    }
}

/// A JSON string literal: the escaped text between double quotes.
pub open spec fn spec_json_string(s: Seq<char>) -> Seq<char> {
    seq!['"'] + spec_escape(s) + seq!['"']
}

/// The decimal digits of a number, most significant first.
pub open spec fn spec_dec(n: nat) -> Seq<char>
    decreases n,
{
    if n < 10 {
        seq![spec_hex_digit(n as int)]
    } else {
        spec_dec(n / 10) + seq![spec_hex_digit((n % 10) as int)]
    }
}

/// A JSON boolean.
pub open spec fn spec_json_bool(b: bool) -> Seq<char> {
    if b {
        "true"@
    } else {
        "false"@
    }
}

/// Already rendered JSON fragments joined by commas.
pub open spec fn spec_join_comma(parts: Seq<Seq<char>>) -> Seq<char>
    decreases parts.len(),
{
    if parts.len() == 0 {
        Seq::empty()
    } else if parts.len() == 1 {
        parts[0]
    } else {
        parts[0] + seq![','] + spec_join_comma(parts.skip(1))
    }
}

/// A JSON object from already rendered `"key":value` fields.
pub open spec fn spec_json_object(fields: Seq<Seq<char>>) -> Seq<char> {
    seq!['{'] + spec_join_comma(fields) + seq!['}']
}

/// A JSON array from already rendered elements.
pub open spec fn spec_json_array(elements: Seq<Seq<char>>) -> Seq<char> {
    seq!['['] + spec_join_comma(elements) + seq![']']
}

/// One `"key":value` field of a JSON object, from an already rendered value.
pub open spec fn spec_json_field(key: Seq<char>, value: Seq<char>) -> Seq<char> {
    spec_json_string(key) + seq![':'] + value
}

/// Escaping a text character by character: one more character escapes to the
/// old escape followed by that character's own escape.
proof fn lemma_escape_push(s: Seq<char>, c: char)
    ensures
        spec_escape(s.push(c)) == spec_escape(s) + spec_escape_char(c),
    decreases s.len(),
{
    if s.len() == 0 {
        assert(s.push(c)[0] == c);
        assert(s.push(c).skip(1) =~= Seq::<char>::empty());
        assert(spec_escape(Seq::<char>::empty()) == Seq::<char>::empty());
        assert(spec_escape(s.push(c)) == spec_escape_char(c) + Seq::<char>::empty());
        assert(spec_escape(s.push(c)) =~= spec_escape(s) + spec_escape_char(c));
    } else {
        assert(s.push(c).skip(1) =~= s.skip(1).push(c));
        lemma_escape_push(s.skip(1), c);
        assert(spec_escape(s.push(c)) =~= spec_escape(s) + spec_escape_char(c));
    }
}

/// Joining one more fragment appends a comma and the fragment, unless it is
/// the first.
proof fn lemma_join_comma_push(parts: Seq<Seq<char>>, p: Seq<char>)
    ensures
        parts.len() == 0 ==> spec_join_comma(parts.push(p)) == p,
        parts.len() > 0 ==> spec_join_comma(parts.push(p)) == spec_join_comma(parts) + seq![','] + p,
    decreases parts.len(),
{
    if parts.len() == 0 {
        assert(parts.push(p)[0] == p);
    } else if parts.len() == 1 {
        assert(parts.push(p)[0] == parts[0]);
        assert(parts.push(p).skip(1) =~= seq![p]);
        assert(spec_join_comma(seq![p]) == p);
        assert(spec_join_comma(parts.push(p)) =~= parts[0] + seq![','] + p);
    } else {
        assert(parts.push(p).skip(1) =~= parts.skip(1).push(p));
        lemma_join_comma_push(parts.skip(1), p);
        assert(spec_join_comma(parts.push(p)) =~= spec_join_comma(parts) + seq![','] + p);
    }
}

/// The lower-case hexadecimal digit for a value below 16.
fn hex_digit_str(n: u8) -> (r: &'static str)
    requires
        n < 16,
    ensures
        r@ =~= seq![spec_hex_digit(n as int)],
{
    proof {
        reveal_strlit("0");
        reveal_strlit("1");
        reveal_strlit("2");
        reveal_strlit("3");
        reveal_strlit("4");
        reveal_strlit("5");
        reveal_strlit("6");
        reveal_strlit("7");
        reveal_strlit("8");
        reveal_strlit("9");
        reveal_strlit("a");
        reveal_strlit("b");
        reveal_strlit("c");
        reveal_strlit("d");
        reveal_strlit("e");
        reveal_strlit("f");
    }
    match n {
        0 => "0",
        1 => "1",
        2 => "2",
        3 => "3",
        4 => "4",
        5 => "5",
        6 => "6",
        7 => "7",
        8 => "8",
        9 => "9",
        10 => "a",
        11 => "b",
        12 => "c",
        13 => "d",
        14 => "e",
        _ => "f",
    }
}

/// Renders a text as a JSON string literal, escaping what JSON requires.
pub fn json_string(s: &str) -> (r: String)
    ensures
        r@ == spec_json_string(s@),
{
    proof {
        reveal_strlit("\"");
    }
    let mut out = String::from_str("\"");
    let n = s.unicode_len();
    let mut i: usize = 0;
    assert(out@ =~= seq!['"'] + spec_escape(s@.subrange(0, 0)));
    while i < n
        invariant
            n == s@.len(),
            i <= n,
            out@ == seq!['"'] + spec_escape(s@.subrange(0, i as int)),
        decreases n - i,
    {
        proof {
            reveal_strlit("\\\"");
            reveal_strlit("\\\\");
            reveal_strlit("\\u00");
        }
        let c = s.get_char(i);
        if c == '"' {
            out.append("\\\"");
            assert("\\\""@ =~= spec_escape_char(c));
        } else if c == '\\' {
            out.append("\\\\");
            assert("\\\\"@ =~= spec_escape_char(c));
        } else if (c as u32) < 32 {
            out.append("\\u00");
            out.append(hex_digit_str((c as u32 / 16) as u8));
            out.append(hex_digit_str((c as u32 % 16) as u8));
            assert("\\u00"@ + seq![spec_hex_digit((c as int) / 16)] + seq![
                spec_hex_digit((c as int) % 16),
            ] =~= spec_escape_char(c));
        } else {
            let piece = s.substring_char(i, i + 1);
            assert(piece@ =~= spec_escape_char(c));
            out.append(piece);
        }
        proof {
            lemma_escape_push(s@.subrange(0, i as int), c);
            assert(s@.subrange(0, (i + 1) as int) =~= s@.subrange(0, i as int).push(c));
        }
        i = i + 1;
    }
    out.append("\"");
    proof {
        assert(s@.subrange(0, n as int) =~= s@);
        assert(out@ =~= spec_json_string(s@));
    }
    out
}

/// Renders a number as its decimal digits.
pub fn json_u64(n: u64) -> (r: String)
    ensures
        r@ == spec_dec(n as nat),
    decreases n,
{
    if n < 10 {
        String::from_str(hex_digit_str(n as u8))
    } else {
        let digit = hex_digit_str((n % 10) as u8);
        let r = json_u64(n / 10).concat(digit);
        proof {
            assert((n / 10) as nat == (n as nat) / 10);
            assert((n % 10) as nat == (n as nat) % 10);
        }
        r
    }
}

/// Renders a JSON boolean.
pub fn json_bool(b: bool) -> (r: String)
    ensures
        r@ == spec_json_bool(b),
{
    if b {
        String::from_str("true")
    } else {
        String::from_str("false")
    }
}

/// Joins already rendered fragments with commas.
fn join_comma(parts: &Vec<String>) -> (r: String)
    ensures
        r@ == spec_join_comma(parts.deep_view()),
{
    let mut out = String::new();
    let n = parts.len();
    let mut i: usize = 0;
    while i < n
        invariant
            n == parts@.len(),
            parts.deep_view().len() == parts@.len(),
            i <= n,
            out@ == spec_join_comma(parts.deep_view().subrange(0, i as int)),
        decreases n - i,
    {
        if i > 0 {
            proof {
                reveal_strlit(",");
            }
            out.append(",");
            assert(","@ =~= seq![',']);
        }
        out.append(parts[i].as_str());
        proof {
            assert(parts.deep_view()[i as int] == parts@[i as int]@);
            lemma_join_comma_push(parts.deep_view().subrange(0, i as int), parts.deep_view()[i as int]);
            assert(parts.deep_view().subrange(0, (i + 1) as int) =~= parts.deep_view().subrange(
                0,
                i as int,
            ).push(parts.deep_view()[i as int]));
        }
        i = i + 1;
    }
    proof {
        assert(parts.deep_view().subrange(0, n as int) =~= parts.deep_view());
    }
    out
}

/// Renders a JSON object from already rendered `"key":value` fields.
pub fn json_object(fields: &Vec<String>) -> (r: String)
    ensures
        r@ == spec_json_object(fields.deep_view()),
{
    proof {
        reveal_strlit("{");
        reveal_strlit("}");
    }
    let mut out = String::from_str("{");
    out.append(join_comma(fields).as_str());
    out.append("}");
    proof {
        assert(out@ =~= spec_json_object(fields.deep_view()));
    }
    out
}

/// Renders a JSON array from already rendered elements.
pub fn json_array(elements: &Vec<String>) -> (r: String)
    ensures
        r@ == spec_json_array(elements.deep_view()),
{
    proof {
        reveal_strlit("[");
        reveal_strlit("]");
    }
    let mut out = String::from_str("[");
    out.append(join_comma(elements).as_str());
    out.append("]");
    proof {
        assert(out@ =~= spec_json_array(elements.deep_view()));
    }
    out
}

/// Renders one `"key":value` field of a JSON object from an already rendered
/// value.
pub fn json_field(key: &str, value: &str) -> (r: String)
    ensures
        r@ == spec_json_field(key@, value@),
{
    proof {
        reveal_strlit(":");
    }
    let mut out = json_string(key);
    out.append(":");
    out.append(value);
    proof {
        assert(out@ =~= spec_json_field(key@, value@));
    }
    out
}

/// Renders a JSON array of numbers.
pub fn json_array_u64(values: &Vec<u64>) -> (r: String)
    ensures
        r@ == spec_json_array(values@.map_values(|v: u64| spec_dec(v as nat))),
{
    let mut rendered: Vec<String> = Vec::new();
    let n = values.len();
    let mut i: usize = 0;
    while i < n
        invariant
            n == values@.len(),
            i <= n,
            rendered@.len() == i,
            forall|j: int| 0 <= j < i ==> rendered@[j]@ == spec_dec(values@[j] as nat),
        decreases n - i,
    {
        let digits = json_u64(values[i]);
        let ghost previous = rendered@;
        rendered.push(digits);
        proof {
            assert forall|j: int| 0 <= j < i + 1 implies rendered@[j]@ == spec_dec(
                values@[j] as nat,
            ) by {
                if j < i {
                    assert(rendered@[j] == previous[j]);
                } else {
                    assert(rendered@[j] == digits);
                }
            }
        }
        i = i + 1;
    }
    proof {
        assert forall|j: int| 0 <= j < n implies rendered.deep_view()[j] == spec_dec(
            values@[j] as nat,
        ) by {
            assert(rendered.deep_view()[j] == rendered@[j]@);
        }
        assert(rendered.deep_view() =~= values@.map_values(|v: u64| spec_dec(v as nat)));
    }
    json_array(&rendered)
}

/// A JSON array of string literals.
pub open spec fn spec_string_array(items: Seq<Seq<char>>) -> Seq<char> {
    spec_json_array(items.map_values(|s: Seq<char>| spec_json_string(s)))
}

/// Renders a JSON array of string literals.
pub fn json_array_string(items: &Vec<String>) -> (r: String)
    ensures
        r@ == spec_string_array(items.deep_view()),
{
    let mut rendered: Vec<String> = Vec::new();
    let n = items.len();
    let mut i: usize = 0;
    while i < n
        invariant
            n == items@.len(),
            i <= n,
            rendered@.len() == i,
            forall|j: int| 0 <= j < i ==> rendered@[j]@ == spec_json_string(items@[j]@),
        decreases n - i,
    {
        let quoted = json_string(items[i].as_str());
        let ghost previous = rendered@;
        rendered.push(quoted);
        proof {
            assert forall|j: int| 0 <= j < i + 1 implies rendered@[j]@ == spec_json_string(
                items@[j]@,
            ) by {
                if j < i {
                    assert(rendered@[j] == previous[j]);
                } else {
                    assert(rendered@[j] == quoted);
                }
            }
        }
        i = i + 1;
    }
    proof {
        assert forall|j: int| 0 <= j < n implies rendered.deep_view()[j] == spec_json_string(
            items.deep_view()[j],
        ) by {
            assert(rendered.deep_view()[j] == rendered@[j]@);
            assert(items.deep_view()[j] == items@[j]@);
        }
        assert(rendered.deep_view() =~= items.deep_view().map_values(
            |s: Seq<char>| spec_json_string(s),
        ));
    }
    json_array(&rendered)
}

/// The fields contributed by one optional value: one `"key":value` field
/// when it is set, none when it is absent.
pub open spec fn spec_opt_field(key: Seq<char>, value: Option<Seq<char>>) -> Seq<Seq<char>> {
    match value {
        Some(v) => seq![spec_json_field(key, v)],
        None => Seq::<Seq<char>>::empty(),
    }
}

/// Appends one `"key":value` field when the already rendered value is
/// present, and leaves the fields alone when it is absent.
pub fn push_opt_field(fields: &mut Vec<String>, key: &str, value: Option<String>)
    ensures
        final(fields).deep_view() == old(fields).deep_view() + spec_opt_field(
            key@,
            value.deep_view(),
        ),
{
    let ghost previous = fields@;
    match value {
        Some(v) => {
            let rendered = json_field(key, v.as_str());
            fields.push(rendered);
            proof {
                assert(fields@ == previous.push(rendered));
                assert forall|j: int| 0 <= j < fields@.len() implies fields.deep_view()[j] == (
                previous.map_values(|s: String| s@) + spec_opt_field(key@, value.deep_view()))[j] by {
                    if j < previous.len() {
                        assert(fields@[j] == previous[j]);
                    } else {
                        assert(fields@[j] == rendered);
                    }
                }
                assert(fields.deep_view() =~= previous.map_values(|s: String| s@)
                    + spec_opt_field(key@, value.deep_view()));
                assert(old(fields).deep_view() =~= previous.map_values(|s: String| s@));
            }
        },
        None => {
            proof {
                assert(fields.deep_view() =~= fields.deep_view() + spec_opt_field(
                    key@,
                    value.deep_view(),
                ));
            }
        },
    }
}

/// Renders a JSON array of numbers.
pub fn json_array_u32(values: &Vec<u32>) -> (r: String)
    ensures
        r@ == spec_json_array(values@.map_values(|v: u32| spec_dec(v as nat))),
{
    let mut rendered: Vec<String> = Vec::new();
    let n = values.len();
    let mut i: usize = 0;
    while i < n
        invariant
            n == values@.len(),
            i <= n,
            rendered@.len() == i,
            forall|j: int| 0 <= j < i ==> rendered@[j]@ == spec_dec(values@[j] as nat),
        decreases n - i,
    {
        let digits = json_u64(values[i] as u64);
        let ghost previous = rendered@;
        rendered.push(digits);
        proof {
            assert forall|j: int| 0 <= j < i + 1 implies rendered@[j]@ == spec_dec(
                values@[j] as nat,
            ) by {
                if j < i {
                    assert(rendered@[j] == previous[j]);
                } else {
                    assert(rendered@[j] == digits);
                }
            }
        }
        i = i + 1;
    }
    proof {
        assert forall|j: int| 0 <= j < n implies rendered.deep_view()[j] == spec_dec(
            values@[j] as nat,
        ) by {
            assert(rendered.deep_view()[j] == rendered@[j]@);
        }
        assert(rendered.deep_view() =~= values@.map_values(|v: u32| spec_dec(v as nat)));
    }
    json_array(&rendered)
}

} // verus!
