//! A structured wire value: the closed set of shapes a decoded payload can
//! take, together with its mathematical model and the helpers the bridge
//! logic needs (object lookup and update, deep cloning).
//!
//! Numbers are carried as their literal text: the bridge never computes with
//! them, it only reprints them.

use vstd::prelude::*;

verus! {

broadcast use vstd::std_specs::vec::group_vec_axioms, vstd::seq::group_seq_axioms, vstd::string::group_string_axioms;

#[derive(Debug, PartialEq, Eq)]
pub enum JsonValue {
    Null,
    Bool(bool),
    Number(String),
    Text(String),
    Array(Vec<JsonValue>),
    Object(Vec<(String, JsonValue)>),
}

/// The mathematical model of a `JsonValue`.
pub enum JsonValueV {
    Null,
    Bool(bool),
    Number(Seq<char>),
    Text(Seq<char>),
    Array(Seq<JsonValueV>),
    Object(Seq<(Seq<char>, JsonValueV)>),
}

pub open spec fn json_view(v: JsonValue) -> JsonValueV
    decreases v,
{
    match v {
        JsonValue::Null => JsonValueV::Null,
        JsonValue::Bool(b) => JsonValueV::Bool(b),
        JsonValue::Number(s) => JsonValueV::Number(s@),
        JsonValue::Text(s) => JsonValueV::Text(s@),
        JsonValue::Array(items) => JsonValueV::Array(json_views(items@)),
        JsonValue::Object(pairs) => JsonValueV::Object(json_pair_views(pairs@)),
    }
}

pub open spec fn json_views(s: Seq<JsonValue>) -> Seq<JsonValueV>
    decreases s,
{
    if s.len() == 0 {
        Seq::empty()
    } else {
        seq![json_view(s[0])] + json_views(s.drop_first())
    }
}

pub open spec fn json_pair_views(s: Seq<(String, JsonValue)>) -> Seq<(Seq<char>, JsonValueV)>
    decreases s,
{
    if s.len() == 0 {
        Seq::empty()
    } else {
        seq![(s[0].0@, json_view(s[0].1))] + json_pair_views(s.drop_first())
    }
}

impl View for JsonValue {
    type V = JsonValueV;

    open spec fn view(&self) -> JsonValueV {
        json_view(*self)
    }
}

pub proof fn lemma_json_views(s: Seq<JsonValue>)
    ensures
        json_views(s).len() == s.len(),
        forall|i: int| 0 <= i < s.len() ==> json_views(s)[i] == json_view(s[i]),
    decreases s.len(),
{
    if s.len() > 0 {
        lemma_json_views(s.drop_first());
    }
}

pub proof fn lemma_json_pair_views(s: Seq<(String, JsonValue)>)
    ensures
        json_pair_views(s).len() == s.len(),
        forall|i: int| 0 <= i < s.len()
            ==> json_pair_views(s)[i] == (s[i].0@, json_view(s[i].1)),
    decreases s.len(),
{
    if s.len() > 0 {
        lemma_json_pair_views(s.drop_first());
    }
}

/// The first position at or after `i` whose key equals `key`.
pub open spec fn key_index_from(
    pairs: Seq<(Seq<char>, JsonValueV)>,
    key: Seq<char>,
    i: int,
) -> Option<int>
    decreases pairs.len() - i,
{
    if i < 0 || i >= pairs.len() {
        None
    } else if pairs[i].0 == key {
        Some(i)
    } else {
        key_index_from(pairs, key, i + 1)
    }
}

pub open spec fn key_index(pairs: Seq<(Seq<char>, JsonValueV)>, key: Seq<char>) -> Option<int> {
    key_index_from(pairs, key, 0)
}

/// The value stored under `key`, going by the first matching pair.
pub open spec fn obj_lookup(
    pairs: Seq<(Seq<char>, JsonValueV)>,
    key: Seq<char>,
) -> Option<JsonValueV> {
    match key_index(pairs, key) {
        Some(j) => Some(pairs[j].1),
        None => None,
    }
}

/// The string stored under `key`, when the stored value is a string.
pub open spec fn obj_lookup_str(
    pairs: Seq<(Seq<char>, JsonValueV)>,
    key: Seq<char>,
) -> Option<Seq<char>> {
    match obj_lookup(pairs, key) {
        Some(JsonValueV::Text(s)) => Some(s),
        _ => None,
    }
}

/// The object with `key` bound to `val`: in place when the key is present,
/// appended at the end when it is not.
pub open spec fn obj_update(
    pairs: Seq<(Seq<char>, JsonValueV)>,
    key: Seq<char>,
    val: JsonValueV,
) -> Seq<(Seq<char>, JsonValueV)> {
    match key_index(pairs, key) {
        Some(j) => pairs.update(j, (key, val)),
        None => pairs + seq![(key, val)],
    }
}

proof fn lemma_key_index_skip(pairs: Seq<(Seq<char>, JsonValueV)>, key: Seq<char>, i: int)
    requires
        0 <= i <= pairs.len(),
        forall|j: int| 0 <= j < i ==> #[trigger] pairs[j].0 != key,
    ensures
        key_index(pairs, key) == key_index_from(pairs, key, i),
    decreases i,
{
    if i > 0 {
        lemma_key_index_skip(pairs, key, i - 1);
    }
}

impl JsonValue {
    /// The position of the first pair of `pairs` whose key is `key`.
    pub fn object_key_index(pairs: &Vec<(String, JsonValue)>, key: &String) -> (r: Option<usize>)
        ensures
            match r {
                Some(j) => j < pairs.len() && key_index(json_pair_views(pairs@), key@) == Some(
                    j as int,
                ),
                None => key_index(json_pair_views(pairs@), key@) is None,
            },
    {
        proof {
            lemma_json_pair_views(pairs@);
        }
        let ghost pv = json_pair_views(pairs@);
        let mut i: usize = 0;
        while i < pairs.len()
            invariant
                0 <= i <= pairs.len(),
                pv == json_pair_views(pairs@),
                pv.len() == pairs.len(),
                forall|j: int| 0 <= j < i ==> #[trigger] pv[j].0 != key@,
                forall|j: int| 0 <= j < pairs@.len()
                    ==> pv[j] == (pairs@[j].0@, json_view(pairs@[j].1)),
            decreases pairs.len() - i,
        {
            if pairs[i].0 == *key {
                proof {
                    lemma_key_index_skip(pv, key@, i as int);
                }
                return Some(i);
            }
            i += 1;
        }
        proof {
            lemma_key_index_skip(pv, key@, i as int);
        }
        None
    }

    /// The value stored under `key` in `pairs`, going by the first match.
    pub fn object_get<'a>(pairs: &'a Vec<(String, JsonValue)>, key: &String) -> (r: Option<
        &'a JsonValue,
    >)
        ensures
            match r {
                Some(v) => obj_lookup(json_pair_views(pairs@), key@) == Some(json_view(*v)),
                None => obj_lookup(json_pair_views(pairs@), key@) is None,
            },
    {
        proof {
            lemma_json_pair_views(pairs@);
        }
        match Self::object_key_index(pairs, key) {
            Some(j) => Some(&pairs[j].1),
            None => None,
        }
    }

    /// The string stored under `key` in `pairs`, when that value is a string.
    pub fn object_get_str(pairs: &Vec<(String, JsonValue)>, key: &String) -> (r: Option<String>)
        ensures
            match r {
                Some(s) => obj_lookup_str(json_pair_views(pairs@), key@) == Some(s@),
                None => obj_lookup_str(json_pair_views(pairs@), key@) is None,
            },
    {
        match Self::object_get(pairs, key) {
            Some(JsonValue::Text(s)) => Some(s.clone()),
            _ => None,
        }
    }

    /// Binds `key` to `val` in `pairs`: in place when present, appended when
    /// absent.
    pub fn object_set(pairs: &mut Vec<(String, JsonValue)>, key: &String, val: JsonValue)
        ensures
            json_pair_views(final(pairs)@) == obj_update(
                json_pair_views(old(pairs)@),
                key@,
                val@,
            ),
    {
        proof {
            lemma_json_pair_views(pairs@);
        }
        let ghost old_pv = json_pair_views(pairs@);
        let ghost valv = val@;
        match Self::object_key_index(pairs, key) {
            Some(j) => {
                pairs.set(j, (key.clone(), val));
                proof {
                    lemma_json_pair_views(pairs@);
                    assert(json_pair_views(pairs@) =~= old_pv.update(j as int, (key@, valv)));
                }
            },
            None => {
                pairs.push((key.clone(), val));
                proof {
                    lemma_json_pair_views(pairs@);
                    assert(json_pair_views(pairs@) =~= old_pv + seq![(key@, valv)]);
                }
            },
        }
    }
}

/// A structurally equal copy of `v`.
pub fn clone_json(v: &JsonValue) -> (r: JsonValue)
    ensures
        r@ == v@,
    decreases v,
{
    match v {
        JsonValue::Null => JsonValue::Null,
        JsonValue::Bool(b) => JsonValue::Bool(*b),
        JsonValue::Number(s) => JsonValue::Number(s.clone()),
        JsonValue::Text(s) => JsonValue::Text(s.clone()),
        JsonValue::Array(items) => JsonValue::Array(clone_json_list(items)),
        JsonValue::Object(pairs) => JsonValue::Object(clone_json_pairs(pairs)),
    }
}

/// A structurally equal copy of a list of values.
#[verifier::loop_isolation(false)]
pub fn clone_json_list(items: &Vec<JsonValue>) -> (r: Vec<JsonValue>)
    ensures
        json_views(r@) == json_views(items@),
        r@.len() == items@.len(),
    decreases items,
{
    let mut out: Vec<JsonValue> = Vec::new();
    let mut i: usize = 0;
    while i < items.len()
        invariant
            0 <= i <= items.len(),
            out@.len() == i,
            forall|j: int| 0 <= j < i ==> #[trigger] json_view(out@[j]) == json_view(items@[j]),
        decreases items.len() - i,
    {
        out.push(clone_json(&items[i]));
        i += 1;
    }
    proof {
        lemma_json_views(out@);
        lemma_json_views(items@);
        assert forall|j: int| 0 <= j < items@.len() implies json_views(out@)[j] == json_views(
            items@,
        )[j] by {
            assert(json_view(out@[j]) == json_view(items@[j]));
        }
        assert(json_views(out@) =~= json_views(items@));
    }
    out
}

/// A structurally equal copy of an object's pairs.
#[verifier::loop_isolation(false)]
pub fn clone_json_pairs(pairs: &Vec<(String, JsonValue)>) -> (r: Vec<(String, JsonValue)>)
    ensures
        json_pair_views(r@) == json_pair_views(pairs@),
        r@.len() == pairs@.len(),
    decreases pairs,
{
    let mut out: Vec<(String, JsonValue)> = Vec::new();
    let mut i: usize = 0;
    while i < pairs.len()
        invariant
            0 <= i <= pairs.len(),
            out@.len() == i,
            forall|j: int| 0 <= j < i
                ==> #[trigger] out@[j].0@ == pairs@[j].0@ && out@[j].1@ == pairs@[j].1@,
        decreases pairs.len() - i,
    {
        let key = pairs[i].0.clone();
        let val = clone_json(&pairs[i].1);
        out.push((key, val));
        i += 1;
    }
    proof {
        lemma_json_pair_views(out@);
        lemma_json_pair_views(pairs@);
        assert(json_pair_views(out@) =~= json_pair_views(pairs@));
    }
    out
}

impl Clone for JsonValue {
    /// A structurally equal copy.
    fn clone(&self) -> (r: Self)
        ensures
            r@ == self@,
    {
        clone_json(self)
    }
}

pub open spec fn hex_digit(n: int) -> char {
    if n == 0 {
        '0'
    } else if n == 1 {
        '1'
    } else if n == 2 {
        '2'
    } else if n == 3 {
        '3'
    } else if n == 4 {
        '4'
    } else if n == 5 {
        '5'
    } else if n == 6 {
        '6'
    } else if n == 7 {
        '7'
    } else if n == 8 {
        '8'
    } else if n == 9 {
        '9'
    } else if n == 10 {
        'a'
    } else if n == 11 {
        'b'
    } else if n == 12 {
        'c'
    } else if n == 13 {
        'd'
    } else if n == 14 {
        'e'
    } else {
        'f'
    }
}

/// How one character appears inside a rendered string literal: quote and
/// backslash get a backslash escape, the named control characters use their
/// short form, the remaining control characters a four-digit escape, and
/// everything else stands as itself.
pub open spec fn escaped_char(c: char) -> Seq<char> {
    if c == '"' {
        seq!['\\', '"']
    } else if c == '\\' {
        seq!['\\', '\\']
    } else if c == '\u{8}' {
        seq!['\\', 'b']
    } else if c == '\t' {
        seq!['\\', 't']
    } else if c == '\n' {
        seq!['\\', 'n']
    } else if c == '\u{c}' {
        seq!['\\', 'f']
    } else if c == '\r' {
        seq!['\\', 'r']
    } else if (c as u32) < 0x20 {
        seq!['\\', 'u', '0', '0', hex_digit((c as u32) as int / 16), hex_digit(
            (c as u32) as int % 16,
        )]
    } else {
        seq![c]
    }
}

pub open spec fn escaped_from(s: Seq<char>, i: int) -> Seq<char>
    decreases s.len() - i,
{
    if i < 0 || i >= s.len() {
        Seq::empty()
    } else {
        escaped_char(s[i]) + escaped_from(s, i + 1)
    }
}

/// A rendered string literal: the escaped characters between double quotes.
pub open spec fn quoted(s: Seq<char>) -> Seq<char> {
    seq!['"'] + escaped_from(s, 0) + seq!['"']
}

/// The compact rendering of a structured value, with no spacing and object
/// pairs in stored order.
pub open spec fn text_of(v: JsonValueV) -> Seq<char>
    decreases v,
{
    match v {
        JsonValueV::Null => "null"@,
        JsonValueV::Bool(b) => if b {
            "true"@
        } else {
            "false"@
        },
        JsonValueV::Number(s) => s,
        JsonValueV::Text(s) => quoted(s),
        JsonValueV::Array(items) => seq!['['] + items_text_from(items, 0) + seq![']'],
        JsonValueV::Object(pairs) => seq!['{'] + pairs_text_from(pairs, 0) + seq!['}'],
    }
}

pub open spec fn items_text_from(items: Seq<JsonValueV>, i: int) -> Seq<char>
    decreases items, items.len() - i,
{
    if i < 0 || i >= items.len() {
        Seq::empty()
    } else if i == items.len() - 1 {
        text_of(items[i])
    } else {
        text_of(items[i]) + seq![','] + items_text_from(items, i + 1)
    }
}

pub open spec fn pairs_text_from(pairs: Seq<(Seq<char>, JsonValueV)>, i: int) -> Seq<char>
    decreases pairs, pairs.len() - i,
{
    if i < 0 || i >= pairs.len() {
        Seq::empty()
    } else if i == pairs.len() - 1 {
        quoted(pairs[i].0) + seq![':'] + text_of(pairs[i].1)
    } else {
        quoted(pairs[i].0) + seq![':'] + text_of(pairs[i].1) + seq![','] + pairs_text_from(
            pairs,
            i + 1,
        )
    }
}

/// Relies on String::push: appends exactly one character at the end.
#[verifier::external_body]
fn push_char(out: &mut String, c: char)
    ensures
        final(out)@ == old(out)@.push(c),
{
    out.push(c);
}

fn hex_digit_char(n: u32) -> (c: char)
    requires
        n < 16,
    ensures
        c == hex_digit(n as int),
{
    if n == 0 {
        '0'
    } else if n == 1 {
        '1'
    } else if n == 2 {
        '2'
    } else if n == 3 {
        '3'
    } else if n == 4 {
        '4'
    } else if n == 5 {
        '5'
    } else if n == 6 {
        '6'
    } else if n == 7 {
        '7'
    } else if n == 8 {
        '8'
    } else if n == 9 {
        '9'
    } else if n == 10 {
        'a'
    } else if n == 11 {
        'b'
    } else if n == 12 {
        'c'
    } else if n == 13 {
        'd'
    } else if n == 14 {
        'e'
    } else {
        'f'
    }
}

fn write_escaped_from(s: &str, i: usize, out: &mut String)
    requires
        i <= s@.len(),
    ensures
        final(out)@ == old(out)@ + escaped_from(s@, i as int),
    decreases s@.len() - i,
{
    if i >= s.unicode_len() {
        assert(old(out)@ + escaped_from(s@, i as int) =~= out@);
        return ;
    }
    let c = s.get_char(i);
    if c == '"' {
        push_char(out, '\\');
        push_char(out, '"');
    } else if c == '\\' {
        push_char(out, '\\');
        push_char(out, '\\');
    } else if c == '\u{8}' {
        push_char(out, '\\');
        push_char(out, 'b');
    } else if c == '\t' {
        push_char(out, '\\');
        push_char(out, 't');
    } else if c == '\n' {
        push_char(out, '\\');
        push_char(out, 'n');
    } else if c == '\u{c}' {
        push_char(out, '\\');
        push_char(out, 'f');
    } else if c == '\r' {
        push_char(out, '\\');
        push_char(out, 'r');
    } else if (c as u32) < 0x20 {
        push_char(out, '\\');
        push_char(out, 'u');
        push_char(out, '0');
        push_char(out, '0');
        push_char(out, hex_digit_char((c as u32) / 16));
        push_char(out, hex_digit_char((c as u32) % 16));
    } else {
        push_char(out, c);
    }
    assert(out@ =~= old(out)@ + escaped_char(c));
    write_escaped_from(s, i + 1, out);
    assert(out@ =~= old(out)@ + escaped_from(s@, i as int));
}

fn write_quoted(s: &str, out: &mut String)
    ensures
        final(out)@ == old(out)@ + quoted(s@),
{
    push_char(out, '"');
    write_escaped_from(s, 0, out);
    push_char(out, '"');
    assert(out@ =~= old(out)@ + quoted(s@));
}

fn write_json(v: &JsonValue, out: &mut String)
    ensures
        final(out)@ == old(out)@ + text_of(v@),
    decreases v,
{
    match v {
        JsonValue::Null => {
            out.append("null");
        },
        JsonValue::Bool(b) => {
            if *b {
                out.append("true");
            } else {
                out.append("false");
            }
        },
        JsonValue::Number(s) => {
            out.append(s.as_str());
        },
        JsonValue::Text(s) => {
            write_quoted(s.as_str(), out);
        },
        JsonValue::Array(items) => {
            push_char(out, '[');
            write_items(items, 0, out);
            push_char(out, ']');
            proof {
                assert(out@ =~= old(out)@ + text_of(v@));
            }
        },
        JsonValue::Object(pairs) => {
            push_char(out, '{');
            write_pairs(pairs, 0, out);
            push_char(out, '}');
            proof {
                assert(out@ =~= old(out)@ + text_of(v@));
            }
        },
    }
}

fn write_items(items: &Vec<JsonValue>, i: usize, out: &mut String)
    requires
        i <= items@.len(),
    ensures
        final(out)@ == old(out)@ + items_text_from(json_views(items@), i as int),
    decreases items, items@.len() - i,
{
    proof {
        lemma_json_views(items@);
    }
    if i >= items.len() {
        assert(old(out)@ + items_text_from(json_views(items@), i as int) =~= out@);
        return ;
    }
    write_json(&items[i], out);
    if i + 1 < items.len() {
        push_char(out, ',');
        write_items(items, i + 1, out);
    }
    assert(out@ =~= old(out)@ + items_text_from(json_views(items@), i as int));
}

fn write_pairs(pairs: &Vec<(String, JsonValue)>, i: usize, out: &mut String)
    requires
        i <= pairs@.len(),
    ensures
        final(out)@ == old(out)@ + pairs_text_from(json_pair_views(pairs@), i as int),
    decreases pairs, pairs@.len() - i,
{
    proof {
        lemma_json_pair_views(pairs@);
    }
    if i >= pairs.len() {
        assert(old(out)@ + pairs_text_from(json_pair_views(pairs@), i as int) =~= out@);
        return ;
    }
    write_quoted(pairs[i].0.as_str(), out);
    push_char(out, ':');
    write_json(&pairs[i].1, out);
    if i + 1 < pairs.len() {
        push_char(out, ',');
        write_pairs(pairs, i + 1, out);
    }
    assert(out@ =~= old(out)@ + pairs_text_from(json_pair_views(pairs@), i as int));
}

/// The compact textual rendering of `v`.
pub fn json_text(v: &JsonValue) -> (r: String)
    ensures
        r@ == text_of(v@),
{
    let mut out = String::new();
    write_json(v, &mut out);
    out
}

} // verus!
