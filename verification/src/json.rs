//! JSON texts: objects of strings and nulls, and arrays of them.

use serde_json::Value;
use vstd::prelude::*;

verus! {

/// A hexadecimal digit in lower case.
pub open spec fn hex_digit(d: nat) -> char {
    if d < 10 {
        ('0' as u32 + d) as char
    } else {
        ('a' as u32 + d - 10) as char
    }
}

/// How a character is written inside a JSON string.
pub open spec fn json_char(c: char) -> Seq<char> {
    if c == '"' {
        seq!['\\', '"']
    } else if c == '\\' {
        seq!['\\', '\\']
    } else if c == '\u{8}' {
        seq!['\\', 'b']
    } else if c == '\t' {
        seq!['\\', 't']
    } else if c == '\n' {
        seq!['\\', 'n']
    } else if c == '\u{c}' {
        seq!['\\', 'f']
    } else if c == '\r' {
        seq!['\\', 'r']
    } else if ' ' > c {
        seq!['\\', 'u', '0', '0', hex_digit(c as u32 as nat / 16), hex_digit(c as u32 as nat % 16)]
    } else {
        seq![c]
    }
}

/// The inside of a JSON string.
pub open spec fn json_chars(s: Seq<char>) -> Seq<char>
    decreases s.len(),
{
    if s.len() == 0 {
        seq![]
    } else {
        json_chars(s.drop_last()) + json_char(s.last())
    }
}

/// A JSON string.
pub open spec fn json_string(s: Seq<char>) -> Seq<char> {
    "\""@ + json_chars(s) + "\""@
}

/// A field of a JSON object: its name, and its text or null.
pub open spec fn json_field(field: (Seq<char>, Option<Seq<char>>)) -> Seq<char> {
    json_string(field.0) + ":"@ + (match field.1 {
        Some(text) => json_string(text),
        None => "null"@,
    })
}

/// A JSON object without white space.
pub open spec fn json_object(fields: Seq<(Seq<char>, Option<Seq<char>>)>) -> Seq<char> {
    "{"@ + crate::text::joined(
        fields.map_values(|field: (Seq<char>, Option<Seq<char>>)| json_field(field)),
        ","@,
    ) + "}"@
}

/// A JSON array of objects without white space.
pub open spec fn json_array(objects: Seq<Seq<(Seq<char>, Option<Seq<char>>)>>) -> Seq<char> {
    "["@ + crate::text::joined(
        objects.map_values(|fields: Seq<(Seq<char>, Option<Seq<char>>)>| json_object(fields)),
        ","@,
    ) + "]"@
}

/// Whether `a` sorts before `b`: they agree up to a place where `a` ends or has
/// the smaller character.
pub open spec fn sorts_before(a: Seq<char>, b: Seq<char>) -> bool {
    exists|n: int|
        0 <= n < b.len() && n <= a.len() && #[trigger] a.take(n) == b.take(n) && (n == a.len()
            || a[n] < b[n])
}

/// Whether each field has a name that sorts before the next one's.
pub open spec fn names_ascend(fields: Seq<(Seq<char>, Option<Seq<char>>)>) -> bool {
    forall|i: int|
        0 <= i < fields.len() - 1 ==> sorts_before((#[trigger] fields[i]).0, fields[i + 1].0)
}

/// The names and texts of a list of fields.
pub open spec fn fields_view(fields: Seq<(String, Option<String>)>) -> Seq<
    (Seq<char>, Option<Seq<char>>),
> {
    fields.map_values(|field: (String, Option<String>)| (field.0@, crate::text::opt_text(field.1)))
}

/// The names and texts of a list of objects.
pub open spec fn objects_view(objects: Seq<Vec<(String, Option<String>)>>) -> Seq<
    Seq<(Seq<char>, Option<Seq<char>>)>,
> {
    objects.map_values(|fields: Vec<(String, Option<String>)>| fields_view(fields@))
}

/// Collects the fields into a `serde_json::Value`, an object, and calls
/// `to_string` on it: the fields in the order of their names, texts as JSON
/// strings and absent texts as `null`, without white space.
#[verifier::external_body]
pub(crate) fn object_text(fields: &Vec<(String, Option<String>)>) -> (r: String)
    requires
        names_ascend(fields_view(fields@)),
    ensures
        r@ == json_object(fields_view(fields@)),
{
    fields.iter().cloned().collect::<Value>().to_string()
}

/// Collects the objects into a `serde_json::Value`, an array of objects, and
/// calls `to_string` on it: the objects in their order, each as `object_text`
/// writes it, without white space.
#[verifier::external_body]
pub(crate) fn array_text(objects: &Vec<Vec<(String, Option<String>)>>) -> (r: String)
    requires
        forall|i: int|
            0 <= i < objects@.len() ==> names_ascend(fields_view((#[trigger] objects@[i])@)),
    ensures
        r@ == json_array(objects_view(objects@)),
{
    objects.iter().map(|fields| fields.iter().cloned().collect::<Value>()).collect::<Value>().to_string()
}

/// Whether a text holds no control character, so that it is a single line.
pub open spec fn single_line(s: Seq<char>) -> bool {
    forall|i: int| 0 <= i < s.len() ==> #[trigger] s[i] >= ' '
}

proof fn lemma_json_char_single_line(c: char)
    ensures
        single_line(json_char(c)),
{
    assert(forall|d: nat| d < 16 ==> #[trigger] hex_digit(d) >= ' ');
}

proof fn lemma_json_chars_single_line(s: Seq<char>)
    ensures
        single_line(json_chars(s)),
    decreases s.len(),
{
    if s.len() > 0 {
        lemma_json_chars_single_line(s.drop_last());
        lemma_json_char_single_line(s.last());
    }
}

proof fn lemma_joined_single_line(lines: Seq<Seq<char>>, sep: Seq<char>)
    requires
        single_line(sep),
        forall|i: int| 0 <= i < lines.len() ==> single_line(#[trigger] lines[i]),
    ensures
        single_line(crate::text::joined(lines, sep)),
    decreases lines.len(),
{
    if lines.len() > 1 {
        let front = lines.drop_last();
        assert forall|i: int| 0 <= i < front.len() implies single_line(#[trigger] front[i]) by {
            assert(front[i] == lines[i]);
        }
        lemma_joined_single_line(front, sep);
        assert(single_line(lines[lines.len() - 1]));
    }
}

proof fn lemma_json_field_single_line(field: (Seq<char>, Option<Seq<char>>))
    ensures
        single_line(json_field(field)),
{
    reveal_strlit("\"");
    reveal_strlit(":");
    reveal_strlit("null");
    lemma_json_chars_single_line(field.0);
    if let Some(text) = field.1 {
        lemma_json_chars_single_line(text);
    }
}

/// A JSON object is a single line, whatever its fields hold.
pub proof fn law_json_object_is_a_line(fields: Seq<(Seq<char>, Option<Seq<char>>)>)
    ensures
        single_line(json_object(fields)),
{
    reveal_strlit("{");
    reveal_strlit("}");
    reveal_strlit(",");
    let lines = fields.map_values(|field: (Seq<char>, Option<Seq<char>>)| json_field(field));
    assert forall|i: int| 0 <= i < lines.len() implies single_line(#[trigger] lines[i]) by {
        lemma_json_field_single_line(fields[i]);
    }
    lemma_joined_single_line(lines, ","@);
}

/// A JSON array of objects is a single line, whatever its fields hold.
pub proof fn law_json_array_is_a_line(objects: Seq<Seq<(Seq<char>, Option<Seq<char>>)>>)
    ensures
        single_line(json_array(objects)),
{
    reveal_strlit("[");
    reveal_strlit("]");
    reveal_strlit(",");
    let lines = objects.map_values(
        |fields: Seq<(Seq<char>, Option<Seq<char>>)>| json_object(fields),
    );
    assert forall|i: int| 0 <= i < lines.len() implies single_line(#[trigger] lines[i]) by {
        law_json_object_is_a_line(objects[i]);
    }
    lemma_joined_single_line(lines, ","@);
}

/// Whether no text begins with both `s` and `t`, unless they are the same.
spec fn told_apart(s: Seq<char>, t: Seq<char>) -> bool {
    forall|x: Seq<char>, y: Seq<char>| #[trigger] (s + x) == #[trigger] (t + y) ==> s == t && x == y
}

proof fn lemma_same_rest(s: Seq<char>, x: Seq<char>, y: Seq<char>)
    requires
        s + x == s + y,
    ensures
        x == y,
{
    assert(x == (s + x).skip(s.len() as int));
    assert(y == (s + y).skip(s.len() as int));
}

proof fn lemma_json_char_told_apart(c: char, d: char, x: Seq<char>, y: Seq<char>)
    requires
        json_char(c) + x == json_char(d) + y,
    ensures
        c == d,
        x == y,
{
    let s = json_char(c) + x;
    let t = json_char(d) + y;
    assert(s[0] == json_char(c)[0]);
    assert(t[0] == json_char(d)[0]);
    if s[0] == '\\' {
        assert(s[1] == json_char(c)[1]);
        assert(t[1] == json_char(d)[1]);
        if s[1] == 'u' {
            assert(s[4] == json_char(c)[4]);
            assert(t[4] == json_char(d)[4]);
            assert(s[5] == json_char(c)[5]);
            assert(t[5] == json_char(d)[5]);
            assert(forall|i: nat, j: nat|
                i < 16 && j < 16 && #[trigger] hex_digit(i) == #[trigger] hex_digit(j) ==> i == j);
        }
    }
    lemma_same_rest(json_char(c), x, y);
}

proof fn lemma_json_chars_front(s: Seq<char>)
    requires
        s.len() > 0,
    ensures
        json_chars(s) == json_char(s[0]) + json_chars(s.skip(1)),
    decreases s.len(),
{
    if s.len() == 1 {
        assert(s.drop_last() == Seq::<char>::empty());
        assert(s.skip(1) == Seq::<char>::empty());
        assert(json_chars(s.drop_last()) == Seq::<char>::empty());
        assert(json_chars(s.skip(1)) == Seq::<char>::empty());
    } else {
        lemma_json_chars_front(s.drop_last());
        assert(s.drop_last().skip(1) == s.skip(1).drop_last());
    }
}

proof fn lemma_json_chars_told_apart(a: Seq<char>, b: Seq<char>, x: Seq<char>, y: Seq<char>)
    requires
        json_chars(a) + "\""@ + x == json_chars(b) + "\""@ + y,
    ensures
        a == b,
        x == y,
    decreases a.len(),
{
    reveal_strlit("\"");
    let s = json_chars(a) + "\""@ + x;
    let t = json_chars(b) + "\""@ + y;
    if a.len() > 0 {
        lemma_json_chars_front(a);
        assert(s == json_char(a[0]) + (json_chars(a.skip(1)) + "\""@ + x));
        assert(s[0] == json_char(a[0])[0]);
    }
    if b.len() > 0 {
        lemma_json_chars_front(b);
        assert(t == json_char(b[0]) + (json_chars(b.skip(1)) + "\""@ + y));
        assert(t[0] == json_char(b[0])[0]);
    }
    if a.len() > 0 && b.len() > 0 {
        lemma_json_char_told_apart(
            a[0],
            b[0],
            json_chars(a.skip(1)) + "\""@ + x,
            json_chars(b.skip(1)) + "\""@ + y,
        );
        lemma_json_chars_told_apart(a.skip(1), b.skip(1), x, y);
        assert(a == seq![a[0]] + a.skip(1));
        assert(b == seq![b[0]] + b.skip(1));
    } else if a.len() == 0 && b.len() == 0 {
        assert(s == "\""@ + x);
        assert(t == "\""@ + y);
        lemma_same_rest("\""@, x, y);
        assert(a == b);
    } else {
        assert(false);
    }
}

proof fn lemma_json_string_opens(a: Seq<char>, b: Seq<char>, x: Seq<char>, y: Seq<char>)
    requires
        json_string(a) + x == json_string(b) + y,
    ensures
        a == b,
        x == y,
{
    assert(json_string(a) + x == "\""@ + (json_chars(a) + "\""@ + x));
    assert(json_string(b) + y == "\""@ + (json_chars(b) + "\""@ + y));
    lemma_same_rest("\""@, json_chars(a) + "\""@ + x, json_chars(b) + "\""@ + y);
    lemma_json_chars_told_apart(a, b, x, y);
}

proof fn lemma_json_field_opens(
    f: (Seq<char>, Option<Seq<char>>),
    g: (Seq<char>, Option<Seq<char>>),
    x: Seq<char>,
    y: Seq<char>,
)
    requires
        json_field(f) + x == json_field(g) + y,
    ensures
        f == g,
        x == y,
{
    reveal_strlit(":");
    reveal_strlit("null");
    reveal_strlit("\"");
    let u = match f.1 {
        Some(text) => json_string(text),
        None => "null"@,
    };
    let v = match g.1 {
        Some(text) => json_string(text),
        None => "null"@,
    };
    assert(json_field(f) + x == json_string(f.0) + (":"@ + (u + x)));
    assert(json_field(g) + y == json_string(g.0) + (":"@ + (v + y)));
    lemma_json_string_opens(f.0, g.0, ":"@ + (u + x), ":"@ + (v + y));
    lemma_same_rest(":"@, u + x, v + y);
    assert((u + x)[0] == u[0]);
    assert((v + y)[0] == v[0]);
    match (f.1, g.1) {
        (Some(a), Some(b)) => lemma_json_string_opens(a, b, x, y),
        (None, None) => lemma_same_rest("null"@, x, y),
        _ => assert(false),
    }
}

proof fn lemma_joined_front(lines: Seq<Seq<char>>, sep: Seq<char>)
    requires
        lines.len() > 1,
    ensures
        crate::text::joined(lines, sep) == lines[0] + sep + crate::text::joined(
            lines.skip(1),
            sep,
        ),
    decreases lines.len(),
{
    let front = lines.drop_last();
    if lines.len() == 2 {
        assert(crate::text::joined(front, sep) == lines[0]);
        assert(crate::text::joined(lines.skip(1), sep) == lines[1]);
    } else {
        lemma_joined_front(front, sep);
        assert(front.skip(1) == lines.skip(1).drop_last());
        assert(lines.skip(1).last() == lines.last());
        assert(crate::text::joined(lines, sep) == lines[0] + sep + (crate::text::joined(
            front.skip(1),
            sep,
        ) + sep + lines.last()));
    }
}

/// A comma-separated list up to the character that closes it gives its items
/// back, where no item begins with that character and no item begins another.
proof fn lemma_list_opens(
    a: Seq<Seq<char>>,
    b: Seq<Seq<char>>,
    close: Seq<char>,
    x: Seq<char>,
    y: Seq<char>,
)
    requires
        close.len() == 1,
        close[0] != ',',
        forall|i: int| 0 <= i < a.len() ==> (#[trigger] a[i]).len() > 0 && a[i][0] != close[0],
        forall|i: int| 0 <= i < b.len() ==> (#[trigger] b[i]).len() > 0 && b[i][0] != close[0],
        forall|i: int, j: int|
            0 <= i < a.len() && 0 <= j < b.len() ==> told_apart(#[trigger] a[i], #[trigger] b[j]),
        crate::text::joined(a, ","@) + close + x == crate::text::joined(b, ","@) + close + y,
    ensures
        a == b,
        x == y,
    decreases a.len(),
{
    reveal_strlit(",");
    let s = crate::text::joined(a, ","@) + close + x;
    let t = crate::text::joined(b, ","@) + close + y;
    if a.len() == 0 || b.len() == 0 {
        if a.len() > 0 {
            lemma_list_head(a, close, x);
        }
        if b.len() > 0 {
            lemma_list_head(b, close, y);
        }
        assert(a == b);
        assert(s == close + x);
        assert(t == close + y);
        lemma_same_rest(close, x, y);
    } else {
        lemma_list_head(a, close, x);
        lemma_list_head(b, close, y);
        let u = list_rest(a, close, x);
        let v = list_rest(b, close, y);
        assert(told_apart(a[0], b[0]));
        assert(a[0] == b[0] && u == v);
        assert(u[0] == if a.len() == 1 {
            close[0]
        } else {
            ','
        });
        assert(v[0] == if b.len() == 1 {
            close[0]
        } else {
            ','
        });
        if a.len() == 1 {
            lemma_same_rest(close, x, y);
            assert(a == b);
        } else {
            let p = a.skip(1);
            let q = b.skip(1);
            let w = crate::text::joined(p, ","@) + close + x;
            let z = crate::text::joined(q, ","@) + close + y;
            lemma_same_rest(","@, w, z);
            assert forall|i: int| 0 <= i < p.len() implies (#[trigger] p[i]).len() > 0 && p[i][0]
                != close[0] by {
                assert(p[i] == a[i + 1]);
            }
            assert forall|i: int| 0 <= i < q.len() implies (#[trigger] q[i]).len() > 0 && q[i][0]
                != close[0] by {
                assert(q[i] == b[i + 1]);
            }
            assert forall|i: int, j: int| 0 <= i < p.len() && 0 <= j < q.len() implies told_apart(
                #[trigger] p[i],
                #[trigger] q[j],
            ) by {
                assert(p[i] == a[i + 1]);
                assert(q[j] == b[j + 1]);
            }
            lemma_list_opens(p, q, close, x, y);
            assert(a == seq![a[0]] + p);
            assert(b == seq![b[0]] + q);
        }
    }
}

/// What follows the first item of a list.
spec fn list_rest(items: Seq<Seq<char>>, close: Seq<char>, x: Seq<char>) -> Seq<char> {
    if items.len() == 1 {
        close + x
    } else {
        ","@ + (crate::text::joined(items.skip(1), ","@) + close + x)
    }
}

proof fn lemma_list_head(items: Seq<Seq<char>>, close: Seq<char>, x: Seq<char>)
    requires
        items.len() > 0,
        items[0].len() > 0,
    ensures
        crate::text::joined(items, ","@) + close + x == items[0] + list_rest(items, close, x),
        (crate::text::joined(items, ","@) + close + x)[0] == items[0][0],
{
    if items.len() == 1 {
        assert(crate::text::joined(items, ","@) + close + x == items[0] + (close + x));
    } else {
        lemma_joined_front(items, ","@);
        assert(crate::text::joined(items, ","@) + close + x == items[0] + (","@ + (
        crate::text::joined(items.skip(1), ","@) + close + x)));
    }
    assert((items[0] + list_rest(items, close, x))[0] == items[0][0]);
}

proof fn lemma_json_object_opens(
    f: Seq<(Seq<char>, Option<Seq<char>>)>,
    g: Seq<(Seq<char>, Option<Seq<char>>)>,
    x: Seq<char>,
    y: Seq<char>,
)
    requires
        json_object(f) + x == json_object(g) + y,
    ensures
        f == g,
        x == y,
{
    reveal_strlit("}");
    reveal_strlit("\"");
    let a = f.map_values(|field: (Seq<char>, Option<Seq<char>>)| json_field(field));
    let b = g.map_values(|field: (Seq<char>, Option<Seq<char>>)| json_field(field));
    let u = crate::text::joined(a, ","@) + "}"@ + x;
    let v = crate::text::joined(b, ","@) + "}"@ + y;
    assert(json_object(f) + x == "{"@ + u);
    assert(json_object(g) + y == "{"@ + v);
    lemma_same_rest("{"@, u, v);
    assert forall|i: int, j: int| 0 <= i < a.len() && 0 <= j < b.len() implies told_apart(
        #[trigger] a[i],
        #[trigger] b[j],
    ) by {
        assert forall|p: Seq<char>, q: Seq<char>|
            #[trigger] (a[i] + p) == #[trigger] (b[j] + q) implies a[i] == b[j] && p == q by {
            lemma_json_field_opens(f[i], g[j], p, q);
        }
    }
    lemma_list_opens(a, b, "}"@, x, y);
    assert forall|i: int| 0 <= i < f.len() implies f[i] == g[i] by {
        assert(a[i] == b[i]);
        lemma_json_field_opens(f[i], g[i], seq![], seq![]);
    }
    assert(a.len() == b.len());
    assert(f == g);
}

/// The text of a JSON object gives its fields back: objects with the same text
/// have the same fields, whatever these hold.
pub proof fn law_json_object_tells_fields(
    f: Seq<(Seq<char>, Option<Seq<char>>)>,
    g: Seq<(Seq<char>, Option<Seq<char>>)>,
)
    requires
        json_object(f) == json_object(g),
    ensures
        f == g,
{
    lemma_json_object_opens(f, g, seq![], seq![]);
}

/// The text of a JSON array gives its objects back: arrays with the same text
/// have the same objects, whatever these hold.
pub proof fn law_json_array_tells_objects(
    f: Seq<Seq<(Seq<char>, Option<Seq<char>>)>>,
    g: Seq<Seq<(Seq<char>, Option<Seq<char>>)>>,
)
    requires
        json_array(f) == json_array(g),
    ensures
        f == g,
{
    reveal_strlit("{");
    reveal_strlit("]");
    let a = f.map_values(|fields: Seq<(Seq<char>, Option<Seq<char>>)>| json_object(fields));
    let b = g.map_values(|fields: Seq<(Seq<char>, Option<Seq<char>>)>| json_object(fields));
    let u = crate::text::joined(a, ","@) + "]"@;
    let v = crate::text::joined(b, ","@) + "]"@;
    assert(json_array(f) == "["@ + u);
    assert(json_array(g) == "["@ + v);
    lemma_same_rest("["@, u, v);
    assert(u == u + Seq::<char>::empty());
    assert(v == v + Seq::<char>::empty());
    assert forall|i: int, j: int| 0 <= i < a.len() && 0 <= j < b.len() implies told_apart(
        #[trigger] a[i],
        #[trigger] b[j],
    ) by {
        assert forall|p: Seq<char>, q: Seq<char>|
            #[trigger] (a[i] + p) == #[trigger] (b[j] + q) implies a[i] == b[j] && p == q by {
            lemma_json_object_opens(f[i], g[j], p, q);
        }
    }
    lemma_list_opens(a, b, "]"@, seq![], seq![]);
    assert forall|i: int| 0 <= i < f.len() implies f[i] == g[i] by {
        assert(a[i] == b[i]);
        lemma_json_object_opens(f[i], g[i], seq![], seq![]);
    }
    assert(a.len() == b.len());
    assert(f == g);
}

/// A character is written as it is, but for quotes, backslashes and control
/// characters: the first two stand behind a backslash, and so do the short names
/// of five control characters; the others are given by their code.
pub proof fn law_json_characters(c: char)
    ensures
        c as u32 >= 32 && c != '"' && c != '\\' ==> json_char(c) == seq![c],
        c == '"' ==> json_char(c) == "\\\""@,
        c == '\\' ==> json_char(c) == "\\\\"@,
        c as u32 == 8 ==> json_char(c) == "\\b"@,
        c as u32 == 9 ==> json_char(c) == "\\t"@,
        c as u32 == 10 ==> json_char(c) == "\\n"@,
        c as u32 == 12 ==> json_char(c) == "\\f"@,
        c as u32 == 13 ==> json_char(c) == "\\r"@,
        (c as u32) < 8 || c as u32 == 11 || 14 <= c as u32 <= 31 ==> json_char(c) == "\\u00"@.push(
            "0123456789abcdef"@[(c as u32 / 16) as int],
        ).push("0123456789abcdef"@[(c as u32 % 16) as int]),
{
    reveal_strlit("\\\"");
    reveal_strlit("\\\\");
    reveal_strlit("\\b");
    reveal_strlit("\\t");
    reveal_strlit("\\n");
    reveal_strlit("\\f");
    reveal_strlit("\\r");
    reveal_strlit("\\u00");
    reveal_strlit("0123456789abcdef");
    let hex = "0123456789abcdef"@;
    assert(hex[0] == '0' && hex[1] == '1' && hex[2] == '2' && hex[3] == '3');
    assert(hex[4] == '4' && hex[5] == '5' && hex[6] == '6' && hex[7] == '7');
    assert(hex[8] == '8' && hex[9] == '9' && hex[10] == 'a' && hex[11] == 'b');
    assert(hex[12] == 'c' && hex[13] == 'd' && hex[14] == 'e' && hex[15] == 'f');
    assert(forall|d: nat| d < 16 ==> #[trigger] hex_digit(d) == hex[d as int]);
}

/// A string is its characters in quotes, each written on its own.
pub proof fn law_json_strings(s: Seq<char>, t: Seq<char>, c: char)
    ensures
        json_string(s) == "\""@ + json_chars(s) + "\""@,
        json_chars(seq![]) == Seq::<char>::empty(),
        json_chars(seq![c]) == json_char(c),
        json_chars(s + t) == json_chars(s) + json_chars(t),
    decreases t.len(),
{
    assert(seq![c].drop_last() == Seq::<char>::empty());
    assert(json_chars(Seq::<char>::empty()) == Seq::<char>::empty());
    if t.len() == 0 {
        assert(s + t == s);
    } else {
        law_json_strings(s, t.drop_last(), c);
        assert((s + t).drop_last() == s + t.drop_last());
    }
}

/// A text without quotes, backslashes and control characters is written as it is.
pub proof fn law_json_plain_text(s: Seq<char>)
    requires
        forall|i: int|
            0 <= i < s.len() ==> #[trigger] s[i] >= ' ' && s[i] != '"' && s[i] != '\\',
    ensures
        json_chars(s) == s,
        json_string(s) == "\""@ + s + "\""@,
    decreases s.len(),
{
    if s.len() > 0 {
        law_json_plain_text(s.drop_last());
        assert(json_char(s.last()) == seq![s.last()]);
        assert(s == s.drop_last() + seq![s.last()]);
    }
}

/// A field is its name and its text, or `null` where it has none.
pub proof fn law_json_fields(name: Seq<char>, text: Seq<char>)
    ensures
        json_field((name, Some(text))) == json_string(name) + ":"@ + json_string(text),
        json_field((name, None)) == json_string(name) + ":null"@,
{
    reveal_strlit(":");
    reveal_strlit("null");
    reveal_strlit(":null");
    assert(":null"@ == ":"@ + "null"@);
    assert(json_string(name) + ":"@ + "null"@ == json_string(name) + ":null"@);
}

/// An object is its fields in their order, in braces, and an array its objects in
/// their order, in brackets, with nothing but commas between them.
pub proof fn law_json_lists(
    fields: Seq<(Seq<char>, Option<Seq<char>>)>,
    objects: Seq<Seq<(Seq<char>, Option<Seq<char>>)>>,
    items: Seq<Seq<char>>,
)
    ensures
        items.len() == fields.len() && (forall|i: int|
            0 <= i < items.len() ==> #[trigger] items[i] == json_field(fields[i])) ==> json_object(
            fields,
        ) == "{"@ + crate::text::joined(items, ","@) + "}"@,
        items.len() == objects.len() && (forall|i: int|
            0 <= i < items.len() ==> #[trigger] items[i] == json_object(objects[i]))
            ==> json_array(objects) == "["@ + crate::text::joined(items, ","@) + "]"@,
{
    let a = fields.map_values(|field: (Seq<char>, Option<Seq<char>>)| json_field(field));
    let b = objects.map_values(
        |fields: Seq<(Seq<char>, Option<Seq<char>>)>| json_object(fields),
    );
    if items.len() == fields.len() && (forall|i: int|
        0 <= i < items.len() ==> #[trigger] items[i] == json_field(fields[i])) {
        assert(items =~= a);
    }
    if items.len() == objects.len() && (forall|i: int|
        0 <= i < items.len() ==> #[trigger] items[i] == json_object(objects[i])) {
        assert(items =~= b);
    }
}

/// Each field and each object is in its place.
pub proof fn law_json_values_keep_their_places(
    fields: Seq<(String, Option<String>)>,
    objects: Seq<Vec<(String, Option<String>)>>,
)
    ensures
        fields_view(fields).len() == fields.len(),
        forall|i: int|
            0 <= i < fields.len() ==> (#[trigger] fields_view(fields)[i]).0 == fields[i].0@
                && fields_view(fields)[i].1 == crate::text::opt_text(fields[i].1),
        objects_view(objects).len() == objects.len(),
        forall|i: int|
            0 <= i < objects.len() ==> #[trigger] objects_view(objects)[i] == fields_view(
                objects[i]@,
            ),
{
}

} // verus!
