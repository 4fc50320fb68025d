//! A JSON value as the client models it: the payloads it sends are built
//! from this type and serialized by verified code; the payloads it
//! receives are parsed into it.

use vstd::prelude::*;

verus! {

broadcast use vstd::string::axiom_spec_iter;

/// The mathematical model of a JSON value. A number is kept as its
/// lexeme: the client never computes with one.
#[verifier::ext_equal]
pub enum JsonV {
    Null,
    Bool(bool),
    Num(Seq<char>),
    Str(Seq<char>),
    Arr(Seq<JsonV>),
    Obj(Seq<JsonFieldV>),
}

/// One object field of the model: a key and its value.
#[verifier::ext_equal]
pub struct JsonFieldV {
    pub key: Seq<char>,
    pub value: JsonV,
}

/// A JSON value. Object fields keep their insertion order.
pub enum Json {
    Null,
    Bool(bool),
    Num(String),
    Str(String),
    Arr(Vec<Json>),
    Obj(Vec<JsonField>),
}

/// One object field: a key and its value.
pub struct JsonField {
    pub key: String,
    pub value: Json,
}

impl View for Json {
    type V = JsonV;

    open spec fn view(&self) -> JsonV
        decreases self,
    {
        match self {
            Json::Null => JsonV::Null,
            Json::Bool(b) => JsonV::Bool(*b),
            Json::Num(s) => JsonV::Num(s@),
            Json::Str(s) => JsonV::Str(s@),
            Json::Arr(items) => JsonV::Arr(
                Seq::new(
                    items@.len(),
                    |i: int|
                        if 0 <= i < items@.len() {
                            items@[i]@
                        } else {
                            JsonV::Null
                        },
                ),
            ),
            Json::Obj(fields) => JsonV::Obj(
                Seq::new(
                    fields@.len(),
                    |i: int|
                        if 0 <= i < fields@.len() {
                            fields@[i]@
                        } else {
                            JsonFieldV { key: Seq::empty(), value: JsonV::Null }
                        },
                ),
            ),
        }
    }
}

impl View for JsonField {
    type V = JsonFieldV;

    open spec fn view(&self) -> JsonFieldV
        decreases self,
    {
        JsonFieldV { key: self.key@, value: self.value@ }
    }
}

/// The hexadecimal digit for a value below sixteen.
pub open spec fn spec_hex_digit(n: int) -> char {
    if n == 0 {
        '0'
    } else if n == 1 {
        '1'
    } else if n == 2 {
        '2'
    } else if n == 3 {
        '3'
    } else if n == 4 {
        '4'
    } else if n == 5 {
        '5'
    } else if n == 6 {
        '6'
    } else if n == 7 {
        '7'
    } else if n == 8 {
        '8'
    } else if n == 9 {
        '9'
    } else if n == 10 {
        'a'
    } else if n == 11 {
        'b'
    } else if n == 12 {
        'c'
    } else if n == 13 {
        'd'
    } else if n == 14 {
        'e'
    } else {
        'f'
    }
}

/// How one character appears inside a JSON string literal: quote and
/// backslash are escaped, control characters get their short escape or a
/// `\u00XX` form, and everything else stands for itself.
pub open spec fn spec_escape_char(c: char) -> Seq<char> {
    if c == '"' {
        "\\\""@
    } else if c == '\\' {
        "\\\\"@
    } else if c == '\n' {
        "\\n"@
    } else if c == '\r' {
        "\\r"@
    } else if c == '\t' {
        "\\t"@
    } else if c == '\u{0008}' {
        "\\b"@
    } else if c == '\u{000C}' {
        "\\f"@
    } else if (c as u32) < 32 {
        "\\u00"@ + seq![
            spec_hex_digit(c as u32 as int / 16),
            spec_hex_digit(c as u32 as int % 16),
        ]
    } else {
        seq![c]
    }
}

/// The escaped form of the first `n` characters of `s`.
pub open spec fn spec_escape_upto(s: Seq<char>, n: int) -> Seq<char>
    decreases n,
{
    if n <= 0 {
        Seq::empty()
    } else {
        spec_escape_upto(s, n - 1) + spec_escape_char(s[n - 1])
    }
}

/// The escaped form of a whole string.
pub open spec fn spec_escape(s: Seq<char>) -> Seq<char> {
    spec_escape_upto(s, s.len() as int)
}

/// The serialized text of a JSON value: items comma-separated inside
/// brackets, fields comma-separated inside braces, strings quoted and
/// escaped, in field order.
pub open spec fn spec_ser(v: JsonV) -> Seq<char>
    decreases v,
{
    match v {
        JsonV::Null => "null"@,
        JsonV::Bool(b) => if b {
            "true"@
        } else {
            "false"@
        },
        JsonV::Num(s) => s,
        JsonV::Str(s) => "\""@ + spec_escape(s) + "\""@,
        JsonV::Arr(items) => "["@ + spec_ser_items(items, items.len() as int) + "]"@,
        JsonV::Obj(fields) => "{"@ + spec_ser_fields(fields, fields.len() as int) + "}"@,
    }
}

/// The serialized text of the first `n` array items, commas between.
pub open spec fn spec_ser_items(items: Seq<JsonV>, n: int) -> Seq<char>
    decreases items, n,
{
    if n <= 0 || n > items.len() {
        Seq::empty()
    } else if n == 1 {
        spec_ser(items[0])
    } else {
        spec_ser_items(items, n - 1) + ","@ + spec_ser(items[n - 1])
    }
}

/// The serialized text of the first `n` object fields, commas between.
pub open spec fn spec_ser_fields(fields: Seq<JsonFieldV>, n: int) -> Seq<char>
    decreases fields, n,
{
    if n <= 0 || n > fields.len() {
        Seq::empty()
    } else if n == 1 {
        spec_ser_field(fields[0])
    } else {
        spec_ser_fields(fields, n - 1) + ","@ + spec_ser_field(fields[n - 1])
    }
}

/// The serialized text of one object field: quoted key, colon, value.
pub open spec fn spec_ser_field(field: JsonFieldV) -> Seq<char>
    decreases field,
{
    "\""@ + spec_escape(field.key) + "\""@ + ":"@ + spec_ser(field.value)
}

/// Appends the characters of `s` to `out`.
pub fn push_chars_of_str(s: &str, out: &mut Vec<char>)
    ensures
        final(out)@ == old(out)@ + s@,
{
    for c in it: s.chars()
        invariant
            it.seq() == s@,
            out@ == old(out)@ + s@.take(it.index() as int),
    {
        out.push(c);
        proof {
            assert(out@ =~= old(out)@ + s@.take(it.index() + 1));
        }
    }
    proof {
        assert(s@.take(s@.len() as int) =~= s@);
    }
}

/// The hexadecimal digit for a value below sixteen.
fn hex_digit(n: u32) -> (r: char)
    requires
        n < 16,
    ensures
        r == spec_hex_digit(n as int),
{
    if n == 0 {
        '0'
    } else if n == 1 {
        '1'
    } else if n == 2 {
        '2'
    } else if n == 3 {
        '3'
    } else if n == 4 {
        '4'
    } else if n == 5 {
        '5'
    } else if n == 6 {
        '6'
    } else if n == 7 {
        '7'
    } else if n == 8 {
        '8'
    } else if n == 9 {
        '9'
    } else if n == 10 {
        'a'
    } else if n == 11 {
        'b'
    } else if n == 12 {
        'c'
    } else if n == 13 {
        'd'
    } else if n == 14 {
        'e'
    } else {
        'f'
    }
}

/// Appends the escaped form of one character to `out`.
fn push_escaped_char(c: char, out: &mut Vec<char>)
    ensures
        final(out)@ == old(out)@ + spec_escape_char(c),
{
    if c == '"' {
        push_chars_of_str("\\\"", out);
    } else if c == '\\' {
        push_chars_of_str("\\\\", out);
    } else if c == '\n' {
        push_chars_of_str("\\n", out);
    } else if c == '\r' {
        push_chars_of_str("\\r", out);
    } else if c == '\t' {
        push_chars_of_str("\\t", out);
    } else if c == '\u{0008}' {
        push_chars_of_str("\\b", out);
    } else if c == '\u{000C}' {
        push_chars_of_str("\\f", out);
    } else {
        let code = c as u32;
        if code < 32 {
            push_chars_of_str("\\u00", out);
            out.push(hex_digit(code / 16));
            out.push(hex_digit(code % 16));
            proof {
                assert(out@ =~= old(out)@ + "\\u00"@ + seq![
                    spec_hex_digit(code as int / 16),
                    spec_hex_digit(code as int % 16),
                ]);
                assert(out@ =~= old(out)@ + spec_escape_char(c));
            }
        } else {
            out.push(c);
            proof {
                assert(out@ =~= old(out)@ + seq![c]);
            }
        }
    }
}

/// Appends the escaped form of `s` to `out`.
fn push_escaped_str(s: &str, out: &mut Vec<char>)
    ensures
        final(out)@ == old(out)@ + spec_escape(s@),
{
    for c in it: s.chars()
        invariant
            it.seq() == s@,
            out@ == old(out)@ + spec_escape_upto(s@, it.index() as int),
    {
        push_escaped_char(c, out);
        proof {
            assert(out@ =~= old(out)@ + spec_escape_upto(s@, it.index() + 1));
        }
    }
}

/// Appends the serialized text of `v` to `out`.
#[verifier::loop_isolation(false)]
pub fn push_json(v: &Json, out: &mut Vec<char>)
    ensures
        final(out)@ == old(out)@ + spec_ser(v@),
    decreases v,
{
    match v {
        Json::Null => {
            push_chars_of_str("null", out);
        },
        Json::Bool(b) => {
            if *b {
                push_chars_of_str("true", out);
            } else {
                push_chars_of_str("false", out);
            }
        },
        Json::Num(s) => {
            push_chars_of_str(s.as_str(), out);
        },
        Json::Str(s) => {
            push_chars_of_str("\"", out);
            push_escaped_str(s.as_str(), out);
            push_chars_of_str("\"", out);
            proof {
                assert(out@ =~= old(out)@ + spec_ser(v@));
            }
        },
        Json::Arr(items) => {
            let ghost vs = v@->Arr_0;
            push_chars_of_str("[", out);
            proof {
                assert(out@ =~= old(out)@ + "["@ + spec_ser_items(vs, 0));
            }
            let n = items.len();
            let mut j: usize = 0;
            while j < n
                invariant
                    j <= n,
                    n == items.len(),
                    v@ == JsonV::Arr(vs),
                    vs.len() == n,
                    forall|k: int| 0 <= k < n ==> vs[k] == #[trigger] items@[k]@,
                    out@ == old(out)@ + "["@ + spec_ser_items(vs, j as int),
                decreases n - j,
            {
                proof {
                    assert(decreases_to!(*items => items@[j as int]));
                }
                if j > 0 {
                    push_chars_of_str(",", out);
                }
                push_json(&items[j], out);
                proof {
                    assert(out@ =~= old(out)@ + "["@ + spec_ser_items(vs, j + 1));
                }
                j += 1;
            }
            push_chars_of_str("]", out);
            proof {
                assert(out@ =~= old(out)@ + spec_ser(v@));
            }
        },
        Json::Obj(fields) => {
            let ghost vf = v@->Obj_0;
            push_chars_of_str("{", out);
            proof {
                assert(out@ =~= old(out)@ + "{"@ + spec_ser_fields(vf, 0));
            }
            let n = fields.len();
            let mut j: usize = 0;
            while j < n
                invariant
                    j <= n,
                    n == fields.len(),
                    v@ == JsonV::Obj(vf),
                    vf.len() == n,
                    forall|k: int| 0 <= k < n ==> vf[k] == #[trigger] fields@[k]@,
                    out@ == old(out)@ + "{"@ + spec_ser_fields(vf, j as int),
                decreases n - j,
            {
                proof {
                    assert(decreases_to!(*fields => fields@[j as int]));
                    assert(decreases_to!(fields@[j as int] => fields@[j as int].value));
                }
                if j > 0 {
                    push_chars_of_str(",", out);
                }
                push_chars_of_str("\"", out);
                push_escaped_str(fields[j].key.as_str(), out);
                push_chars_of_str("\"", out);
                push_chars_of_str(":", out);
                push_json(&fields[j].value, out);
                proof {
                    assert(vf[j as int] == fields@[j as int]@);
                    assert(spec_ser_field(vf[j as int]) =~= "\""@ + spec_escape(
                        fields@[j as int].key@,
                    ) + "\""@ + ":"@ + spec_ser(fields@[j as int].value@));
                    assert(out@ =~= old(out)@ + "{"@ + spec_ser_fields(vf, j + 1));
                }
                j += 1;
            }
            push_chars_of_str("}", out);
            proof {
                assert(out@ =~= old(out)@ + spec_ser(v@));
            }
        },
    }
}

/// Serializes a JSON value to its text.
pub fn to_json_chars(v: &Json) -> (r: Vec<char>)
    ensures
        r@ == spec_ser(v@),
{
    let mut out: Vec<char> = Vec::new();
    push_json(v, &mut out);
    out
}

/// The value found under `key` among the first-matching of `fields`,
/// scanning from position `i`.
pub open spec fn spec_lookup_from(
    fields: Seq<JsonFieldV>,
    key: Seq<char>,
    i: int,
) -> Option<JsonV>
    decreases fields.len() - i,
{
    if i < 0 || i >= fields.len() {
        None
    } else if fields[i].key == key {
        Some(fields[i].value)
    } else {
        spec_lookup_from(fields, key, i + 1)
    }
}

/// The value under `key` if `v` is an object that has it.
pub open spec fn spec_obj_get(v: JsonV, key: Seq<char>) -> Option<JsonV> {
    match v {
        JsonV::Obj(fields) => spec_lookup_from(fields, key, 0),
        _ => None,
    }
}

/// Indexing as the client uses it: the value under `key`, or `Null` when
/// `v` is not an object or lacks the key.
pub open spec fn spec_index_key(v: JsonV, key: Seq<char>) -> JsonV {
    match spec_obj_get(v, key) {
        Some(x) => x,
        None => JsonV::Null,
    }
}

impl Json {
    /// The value under `key`, when this is an object that has it.
    #[verifier::loop_isolation(false)]
    pub fn get<'a>(&'a self, key: &str) -> (r: Option<&'a Json>)
        ensures
            match r {
                Some(x) => spec_obj_get(self@, key@) == Some(x@),
                None => spec_obj_get(self@, key@) is None,
            },
    {
        let key_string = key.to_owned();
        match self {
            Json::Obj(fields) => {
                let ghost vf = self@->Obj_0;
                let n = fields.len();
                let mut j: usize = 0;
                while j < n
                    invariant
                        j <= n,
                        n == fields.len(),
                        self@ == JsonV::Obj(vf),
                        vf.len() == n,
                        forall|k: int| 0 <= k < n ==> vf[k] == #[trigger] fields@[k]@,
                        key_string@ == key@,
                        spec_lookup_from(vf, key@, 0) == spec_lookup_from(vf, key@, j as int),
                    decreases n - j,
                {
                    proof {
                        assert(vf[j as int] == fields@[j as int]@);
                    }
                    if fields[j].key == key_string {
                        return Some(&fields[j].value);
                    }
                    j += 1;
                }
                None
            },
            _ => None,
        }
    }

    /// The characters of this value, when it is a string.
    pub fn as_string(&self) -> (r: Option<&String>)
        ensures
            match r {
                Some(s) => self@ == JsonV::Str(s@),
                None => !(self@ is Str),
            },
    {
        match self {
            Json::Str(s) => Some(s),
            _ => None,
        }
    }

    /// Whether this value is a string.
    pub fn is_string(&self) -> (r: bool)
        ensures
            r == (self@ is Str),
    {
        match self {
            Json::Str(_) => true,
            _ => false,
        }
    }

    /// An empty JSON object.
    pub fn empty_object() -> (r: Json)
        ensures
            r@ == JsonV::Obj(Seq::empty()),
    {
        let r = Json::Obj(Vec::new());
        proof {
            assert(r@->Obj_0 =~= Seq::<JsonFieldV>::empty());
        }
        r
    }
}


/// What `serde_json::from_slice` yields on these bytes: the parsed JSON
/// document, or nothing when the bytes are not one valid JSON document.
/// The outcome is a function of the bytes alone.
pub uninterp spec fn json_parse_of(bytes: Seq<u8>) -> Option<JsonV>;

#[verifier::external_type_specification]
#[verifier::external_body]
pub struct ExValue(serde_json::Value);

/// Moves a parsed `serde_json::Value` into the library's own value, one
/// variant arm each; a number keeps its printed lexeme, and object fields
/// keep the parser's insertion order (the build parses with field order
/// preserved).
#[verifier::external_body]
fn from_value(v: serde_json::Value) -> Json {
    match v {
        serde_json::Value::Null => Json::Null,
        serde_json::Value::Bool(b) => Json::Bool(b),
        serde_json::Value::Number(n) => Json::Num(n.to_string()),
        serde_json::Value::String(s) => Json::Str(s),
        serde_json::Value::Array(a) => Json::Arr(a.into_iter().map(from_value).collect()),
        serde_json::Value::Object(m) => Json::Obj(
            m.into_iter().map(|(k, w)| JsonField { key: k, value: from_value(w) }).collect(),
        ),
    }
}

/// Relies on `serde_json::from_slice`: parses the bytes as one JSON
/// document and yields its value, or nothing when they do not parse.
#[verifier::external_body]
pub fn parse_json(bytes: &[u8]) -> (r: Option<Json>)
    ensures
        r is Some <==> json_parse_of(bytes@) is Some,
        r matches Some(v) ==> Some(v@) == json_parse_of(bytes@),
{
    match serde_json::from_slice::<serde_json::Value>(bytes) {
        Ok(v) => Some(from_value(v)),
        Err(_) => None,
    }
}

/// A JSON body as the transport reads it: the parsed value, or an empty
/// object when the bytes do not parse.
pub open spec fn spec_parse_or_empty(bytes: Seq<u8>) -> JsonV {
    match json_parse_of(bytes) {
        Some(v) => v,
        None => JsonV::Obj(Seq::empty()),
    }
}

/// Parses a JSON body, reading anything unparseable as an empty object.
pub fn parse_or_empty(bytes: &[u8]) -> (r: Json)
    ensures
        r@ == spec_parse_or_empty(bytes@),
{
    match parse_json(bytes) {
        Some(v) => v,
        None => Json::empty_object(),
    }
}

} // verus!
