//! JSON text for template data: string literals, arrays and objects, with
//! the escaping that `serde_json` writes.

use vstd::prelude::*;
use vstd::string::*;
use crate::digest::hex_digit;
use crate::text::{owned, str_eq};

verus! {

/// How one character is written inside a JSON string: quote and backslash
/// escaped, the short escapes for backspace, tab, line feed, form feed and
/// carriage return, other control characters as `\u00XX`, everything else
/// as itself.
pub open spec fn escape_char(c: char) -> Seq<char> {
    let n = c as u32;
    if c == '"' {
        seq!['\\', '"']
    } else if c == '\\' {
        seq!['\\', '\\']
    } else if n == 8 {
        seq!['\\', 'b']
    } else if n == 9 {
        seq!['\\', 't']
    } else if n == 10 {
        seq!['\\', 'n']
    } else if n == 12 {
        seq!['\\', 'f']
    } else if n == 13 {
        seq!['\\', 'r']
    } else if n < 0x20 {
        seq!['\\', 'u', '0', '0', hex_digit((n / 16) as int), hex_digit((n % 16) as int)]
    } else {
        seq![c]
    }
}

/// The characters of `s`, each escaped.
pub open spec fn json_escape(s: Seq<char>) -> Seq<char>
    decreases s.len(),
{
    if s.len() == 0 {
        Seq::empty()
    } else {
        escape_char(s[0]) + json_escape(s.drop_first())
    }
}

/// The JSON string literal of `s`.
pub open spec fn json_string(s: Seq<char>) -> Seq<char> {
    seq!['"'] + json_escape(s) + seq!['"']
}

/// `items` separated by commas.
pub open spec fn comma_join(items: Seq<Seq<char>>) -> Seq<char>
    decreases items.len(),
{
    if items.len() == 0 {
        Seq::empty()
    } else if items.len() == 1 {
        items[0]
    } else {
        comma_join(items.drop_last()) + seq![','] + items.last()
    }
}

/// The JSON array of the JSON texts `items`.
pub open spec fn json_array(items: Seq<Seq<char>>) -> Seq<char> {
    seq!['['] + comma_join(items) + seq![']']
}

/// The members `"key":value` of a JSON object, one per key.
pub open spec fn json_members(keys: Seq<Seq<char>>, values: Seq<Seq<char>>) -> Seq<Seq<char>> {
    Seq::new(keys.len(), |i: int| json_string(keys[i]) + seq![':'] + values[i])
}

/// The JSON object with the given keys and JSON-text values, in order.
pub open spec fn json_object(keys: Seq<Seq<char>>, values: Seq<Seq<char>>) -> Seq<char> {
    seq!['{'] + comma_join(json_members(keys, values)) + seq!['}']
}

/// The entry at `i` is the last one with the key `keys[i]`.
#[verifier::opaque]
pub open spec fn is_last_key(keys: Seq<Seq<char>>, i: int) -> bool {
    forall|j: int| i < j < keys.len() ==> keys[j] != keys[i]
}

/// Among the first `n` entries, those that are the last with their key, in
/// order: their keys and their values.
pub open spec fn last_entries(keys: Seq<Seq<char>>, values: Seq<Seq<char>>, n: int) -> (
    Seq<Seq<char>>,
    Seq<Seq<char>>,
)
    decreases n,
{
    if n <= 0 {
        (Seq::empty(), Seq::empty())
    } else {
        let p = last_entries(keys, values, n - 1);
        if is_last_key(keys, n - 1) {
            (p.0.push(keys[n - 1]), p.1.push(values[n - 1]))
        } else {
            p
        }
    }
}

/// The JSON object that gives every key the value of its last entry: one
/// member per key, in the order of those last entries.
pub open spec fn json_object_last(keys: Seq<Seq<char>>, values: Seq<Seq<char>>) -> Seq<char> {
    let e = last_entries(keys, values, keys.len() as int);
    json_object(e.0, e.1)
}

/// What `last_entries` keeps of the first `n` entries: as many values as
/// keys, no key twice, and no key that occurs again at or after `n`.
pub open spec fn keeps_last_entries(keys: Seq<Seq<char>>, values: Seq<Seq<char>>, n: int) -> bool {
    let e = last_entries(keys, values, n);
    &&& e.0.len() == e.1.len()
    &&& forall|a: int, b: int| 0 <= a < b < e.0.len() ==> e.0[a] != e.0[b]
    &&& forall|k: int, j: int| 0 <= k < e.0.len() && n <= j < keys.len() ==> e.0[k] != keys[j]
}

/// The object built from the last entries holds no key twice.
pub proof fn law_last_entries_one_per_key(keys: Seq<Seq<char>>, values: Seq<Seq<char>>)
    ensures
        ({
            let e = last_entries(keys, values, keys.len() as int);
            &&& e.0.len() == e.1.len()
            &&& forall|a: int, b: int| 0 <= a < b < e.0.len() ==> e.0[a] != e.0[b]
        }),
{
    lemma_last_entries_prefix(keys, values, keys.len() as int);
}

proof fn lemma_is_last_key_differs(keys: Seq<Seq<char>>, i: int, j: int)
    requires
        is_last_key(keys, i),
        i < j < keys.len(),
    ensures
        keys[j] != keys[i],
{
    reveal(is_last_key);
}

proof fn lemma_last_entries_prefix(keys: Seq<Seq<char>>, values: Seq<Seq<char>>, n: int)
    requires
        0 <= n <= keys.len(),
    ensures
        keeps_last_entries(keys, values, n),
    decreases n,
{
    if n == 0 {
        assert(last_entries(keys, values, n).0.len() == 0);
    } else {
        lemma_last_entries_prefix(keys, values, n - 1);
        let p = last_entries(keys, values, n - 1);
        let e = last_entries(keys, values, n);
        if is_last_key(keys, n - 1) {
            assert forall|j: int| n <= j < keys.len() implies keys[n - 1] != #[trigger] keys[j] by {
                lemma_is_last_key_differs(keys, n - 1, j);
            }
            assert forall|a: int, b: int| 0 <= a < b < e.0.len() implies e.0[a] != e.0[b] by {
                if b == e.0.len() - 1 {
                    assert(p.0[a] != keys[n - 1]);
                } else {
                    assert(e.0[a] == p.0[a] && e.0[b] == p.0[b]);
                }
            }
            assert forall|k: int, j: int|
                0 <= k < e.0.len() && n <= j < keys.len() implies e.0[k] != keys[j] by {
                if k == e.0.len() - 1 {
                    assert(e.0[k] == keys[n - 1]);
                } else {
                    assert(e.0[k] == p.0[k]);
                }
            }
        } else {
            assert(e === p);
        }
    }
}

proof fn lemma_json_escape_step(s: Seq<char>, i: int)
    requires
        0 <= i < s.len(),
    ensures
        json_escape(s.take(i + 1)) == json_escape(s.take(i)) + escape_char(s[i]),
    decreases i,
{
    if i == 0 {
        assert(s.take(1).drop_first() =~= Seq::<char>::empty());
        assert(s.take(0) =~= Seq::<char>::empty());
        assert(json_escape(s.take(1)) =~= escape_char(s[0]) + json_escape(Seq::<char>::empty()));
        assert(json_escape(s.take(1)) =~= json_escape(s.take(0)) + escape_char(s[0]));
    } else {
        let t = s.drop_first();
        lemma_json_escape_step(t, i - 1);
        assert(s.take(i + 1).drop_first() =~= t.take(i));
        assert(s.take(i).drop_first() =~= t.take(i - 1));
        assert(s.take(i + 1)[0] == s[0]);
        assert(s.take(i)[0] == s[0]);
        assert(t[i - 1] == s[i]);
        assert(json_escape(s.take(i + 1)) =~= escape_char(s[0]) + json_escape(t.take(i)));
        assert(json_escape(s.take(i)) =~= escape_char(s[0]) + json_escape(t.take(i - 1)));
    }
}

/// The escaped characters of `s`, without the surrounding quotes.
pub fn escape_json(s: &str) -> (r: String)
    ensures
        r@ == json_escape(s@),
{
    let table = "0123456789abcdef";
    proof {
        reveal_strlit("0123456789abcdef");
    }
    let n = s.unicode_len();
    let mut r = String::new();
    let mut i: usize = 0;
    assert(s@.take(0) =~= Seq::<char>::empty());
    while i < n
        invariant
            n == s@.len(),
            i <= n,
            table@ == "0123456789abcdef"@,
            table@.len() == 16,
            r@ == json_escape(s@.take(i as int)),
        decreases n - i,
    {
    proof {
        reveal_strlit("\\\"");
        reveal_strlit("\\\\");
        reveal_strlit("\\b");
        reveal_strlit("\\t");
        reveal_strlit("\\n");
        reveal_strlit("\\f");
        reveal_strlit("\\r");
        reveal_strlit("\\u00");
    }
        let c = s.get_char(i);
        let code = c as u32;
        let ghost before = r@;
        if c == '"' {
            r.append("\\\"");
            assert(r@ =~= before + seq!['\\', '"']);
        } else if c == '\\' {
            r.append("\\\\");
        } else if code == 8 {
            r.append("\\b");
        } else if code == 9 {
            r.append("\\t");
        } else if code == 10 {
            r.append("\\n");
        } else if code == 12 {
            r.append("\\f");
        } else if code == 13 {
            r.append("\\r");
        } else if code < 0x20 {
            let hi = (code / 16) as usize;
            let lo = (code % 16) as usize;
            r.append("\\u00");
            r.append(table.substring_char(hi, hi + 1));
            r.append(table.substring_char(lo, lo + 1));
            assert(table@.subrange(hi as int, hi + 1) =~= seq![hex_digit(hi as int)]);
            assert(table@.subrange(lo as int, lo + 1) =~= seq![hex_digit(lo as int)]);
        } else {
            r.append(s.substring_char(i, i + 1));
            assert(s@.subrange(i as int, i + 1) =~= seq![c]);
        }
        proof {
            lemma_json_escape_step(s@, i as int);
            assert(r@ =~= before + escape_char(c));
        }
        i = i + 1;
    }
    assert(s@.take(n as int) =~= s@);
    r
}

/// The JSON string literal of `s`.
pub fn json_string_of(s: &str) -> (r: String)
    ensures
        r@ == json_string(s@),
{
    let mut r = String::from_str("\"");
    let body = escape_json(s);
    r.append(body.as_str());
    r.append("\"");
    proof {
        reveal_strlit("\"");
    }
    r
}

/// `items` separated by commas.
pub fn join_commas(items: &Vec<String>) -> (r: String)
    ensures
        r@ == comma_join(items@.map_values(|x: String| x@)),
{
    let ghost v = items@.map_values(|x: String| x@);
    let n = items.len();
    let mut r = String::new();
    let mut i: usize = 0;
    assert(v.take(0) =~= Seq::<Seq<char>>::empty());
    while i < n
        invariant
            n == items@.len(),
            v == items@.map_values(|x: String| x@),
            i <= n,
            r@ == comma_join(v.take(i as int)),
        decreases n - i,
    {
        let ghost before = r@;
        proof {
            reveal_strlit(",");
        }
        if i > 0 {
            r.append(",");
            assert(r@ =~= before + seq![',']);
        }
        let ghost mid = r@;
        r.append(items[i].as_str());
        assert(r@ =~= mid + items@[i as int]@);
        proof {
            let t = v.take(i + 1);
            assert(t.drop_last() =~= v.take(i as int));
            assert(t.last() == items@[i as int]@);
            if i == 0 {
                assert(r@ =~= t[0]);
            } else {
                assert(r@ =~= before + seq![','] + t.last());
            }
        }
        i = i + 1;
    }
    assert(v.take(n as int) =~= v);
    r
}

/// The JSON array of the JSON texts `items`.
pub fn json_array_of(items: &Vec<String>) -> (r: String)
    ensures
        r@ == json_array(items@.map_values(|x: String| x@)),
{
    let body = join_commas(items);
    proof {
        reveal_strlit("[");
        reveal_strlit("]");
    }
    crate::text::concat3("[", body.as_str(), "]")
}

/// The JSON object with the given keys and JSON-text values, in order.
pub fn json_object_of(keys: &Vec<&str>, values: &Vec<String>) -> (r: String)
    requires
        keys@.len() == values@.len(),
    ensures
        r@ == json_object(
            keys@.map_values(|k: &str| k@),
            values@.map_values(|x: String| x@),
        ),
{
    let ghost ks = keys@.map_values(|k: &str| k@);
    let ghost vs = values@.map_values(|x: String| x@);
    let n = keys.len();
    let mut members: Vec<String> = Vec::new();
    let mut i: usize = 0;
    while i < n
        invariant
            n == keys@.len(),
            n == values@.len(),
            ks == keys@.map_values(|k: &str| k@),
            vs == values@.map_values(|x: String| x@),
            i <= n,
            members@.len() == i,
            forall|k: int|
                0 <= k < i ==> #[trigger] members@[k]@ == json_string(ks[k]) + seq![':'] + vs[k],
        decreases n - i,
    {
        proof {
            reveal_strlit(":");
        }
        let mut m = json_string_of(keys[i]);
        m.append(":");
        m.append(values[i].as_str());
        assert(ks[i as int] == keys@[i as int]@);
        assert(vs[i as int] == values@[i as int]@);
        assert(m@ =~= json_string(ks[i as int]) + seq![':'] + vs[i as int]);
        members.push(m);
        i = i + 1;
    }
    assert(members@.map_values(|x: String| x@) =~= json_members(ks, vs));
    let body = join_commas(&members);
    proof {
        reveal_strlit("{");
        reveal_strlit("}");
    }
    crate::text::concat3("{", body.as_str(), "}")
}

} // verus!

verus! {

/// The value of a lowercase hexadecimal digit.
pub open spec fn hex_value(c: char) -> int {
    if '0' <= c && c <= '9' {
        (c as u32) - 48
    } else {
        (c as u32) - 87
    }
}

/// The character a short escape `\x` stands for.
pub open spec fn short_escape(c: char) -> char {
    if c == 'b' {
        '\x08'
    } else if c == 't' {
        '\t'
    } else if c == 'n' {
        '\n'
    } else if c == 'f' {
        '\x0c'
    } else if c == 'r' {
        '\r'
    } else {
        c
    }
}

/// The characters that the escaped text `t` stands for, read as a JSON
/// reader reads the inside of a string literal.
pub open spec fn json_unescape(t: Seq<char>) -> Seq<char>
    decreases t.len(),
{
    if t.len() == 0 {
        Seq::empty()
    } else if t[0] == '\\' && t.len() >= 6 && t[1] == 'u' {
        seq![(hex_value(t[2]) * 4096 + hex_value(t[3]) * 256 + hex_value(t[4]) * 16 + hex_value(t[5])) as char]
            + json_unescape(t.skip(6))
    } else if t[0] == '\\' && t.len() >= 2 {
        seq![short_escape(t[1])] + json_unescape(t.skip(2))
    } else {
        seq![t[0]] + json_unescape(t.drop_first())
    }
}

proof fn lemma_hex_digit_value(d: int)
    requires
        0 <= d < 16,
    ensures
        hex_value(hex_digit(d)) == d,
{
    reveal_strlit("0123456789abcdef");
    let s = "0123456789abcdef"@;
    if d == 0 { assert(s[0] == '0'); }
    else if d == 1 { assert(s[1] == '1'); }
    else if d == 2 { assert(s[2] == '2'); }
    else if d == 3 { assert(s[3] == '3'); }
    else if d == 4 { assert(s[4] == '4'); }
    else if d == 5 { assert(s[5] == '5'); }
    else if d == 6 { assert(s[6] == '6'); }
    else if d == 7 { assert(s[7] == '7'); }
    else if d == 8 { assert(s[8] == '8'); }
    else if d == 9 { assert(s[9] == '9'); }
    else if d == 10 { assert(s[10] == 'a'); }
    else if d == 11 { assert(s[11] == 'b'); }
    else if d == 12 { assert(s[12] == 'c'); }
    else if d == 13 { assert(s[13] == 'd'); }
    else if d == 14 { assert(s[14] == 'e'); }
    else { assert(s[15] == 'f'); }
}

proof fn lemma_unescape_char(c: char, rest: Seq<char>)
    ensures
        json_unescape(escape_char(c) + rest) == seq![c] + json_unescape(rest),
{
    let e = escape_char(c);
    let t = e + rest;
    let n = c as u32;
    if c == '"' || c == '\\' || n == 8 || n == 9 || n == 10 || n == 12 || n == 13 {
        assert(t.skip(2) =~= rest);
        assert(t[0] == '\\' && t[1] != 'u');
    } else if n < 0x20 {
        lemma_hex_digit_value((n / 16) as int);
        lemma_hex_digit_value((n % 16) as int);
        assert(t.skip(6) =~= rest);
        assert(hex_value(t[2]) == 0 && hex_value(t[3]) == 0);
        assert(n == (n / 16) * 16 + n % 16);
    } else {
        assert(t.drop_first() =~= rest);
    }
}

/// Reading back the JSON string literal of a text gives the text: what the
/// user types at a text prompt reaches the template unchanged.
pub proof fn law_json_string_reads_back(s: Seq<char>)
    ensures
        json_unescape(json_escape(s)) == s,
    decreases s.len(),
{
    if s.len() > 0 {
        law_json_string_reads_back(s.drop_first());
        lemma_unescape_char(s[0], json_escape(s.drop_first()));
        assert(seq![s[0]] + s.drop_first() =~= s);
    }
}

/// The JSON object that gives every key the value of its last entry, one
/// member per key: later entries replace earlier ones with the same key.
pub fn json_object_last_of(keys: &Vec<&str>, values: &Vec<String>) -> (r: String)
    requires
        keys@.len() == values@.len(),
    ensures
        r@ == json_object_last(
            keys@.map_values(|k: &str| k@),
            values@.map_values(|x: String| x@),
        ),
{
    let ghost ks = keys@.map_values(|k: &str| k@);
    let ghost vs = values@.map_values(|x: String| x@);
    let n = keys.len();
    let mut kept_keys: Vec<&str> = Vec::new();
    let mut kept_values: Vec<String> = Vec::new();
    let mut i: usize = 0;
    while i < n
        invariant
            n == keys@.len(),
            n == values@.len(),
            ks == keys@.map_values(|k: &str| k@),
            vs == values@.map_values(|x: String| x@),
            i <= n,
            kept_keys@.len() == kept_values@.len(),
            kept_keys@.map_values(|k: &str| k@) == last_entries(ks, vs, i as int).0,
            kept_values@.map_values(|x: String| x@) == last_entries(ks, vs, i as int).1,
        decreases n - i,
    {
        let mut last = true;
        let mut j: usize = i + 1;
        while j < n
            invariant
                n == keys@.len(),
                ks == keys@.map_values(|k: &str| k@),
                i < j <= n,
                last ==> forall|t: int| i < t < j ==> ks[t] != ks[i as int],
                !last ==> !is_last_key(ks, i as int),
            decreases n - j,
        {
            proof {
                reveal(is_last_key);
            }
            if str_eq(keys[j], keys[i]) {
                assert(ks[j as int] == ks[i as int]);
                last = false;
            }
            j = j + 1;
        }
        proof {
            reveal(is_last_key);
        }
        let ghost before_k = kept_keys@;
        let ghost before_v = kept_values@;
        if last {
            kept_keys.push(keys[i]);
            kept_values.push(owned(values[i].as_str()));
            assert(kept_keys@.map_values(|k: &str| k@) =~= before_k.map_values(|k: &str| k@).push(
                ks[i as int],
            ));
            assert(kept_values@.map_values(|x: String| x@) =~= before_v.map_values(|x: String| x@).push(
                vs[i as int],
            ));
        }
        i = i + 1;
    }
    json_object_of(&kept_keys, &kept_values)
}

} // verus!
