//! JSON trees, their compact text, and text with the blanks outside of
//! strings taken out.

use vstd::prelude::*;

verus! {

/// A JSON value, as far as the renderer writes one: it writes no number
/// and no boolean.
pub enum Json {
    Null,
    Text(Seq<char>),
    Array(Seq<Json>),
    Object(Seq<(Seq<char>, Json)>),
}

/// The object with a single member.
pub open spec fn single(key: Seq<char>, value: Json) -> Json {
    Json::Object(seq![(key, value)])
}

/// Whether a text can stand between double quotes as it is: it holds no
/// double quote, no backslash and no control character.
pub open spec fn plain(text: Seq<char>) -> bool {
    forall|i: int|
        0 <= i < text.len() ==> {
            let c = #[trigger] text[i];
            c != '"' && c != '\\' && c >= ' '
        }
}

/// The compact text of a JSON value: no blank anywhere outside of strings.
pub open spec fn compact(json: Json) -> Seq<char>
    decreases json, 0nat,
{
    match json {
        Json::Null => "null"@,
        Json::Text(text) => "\""@ + text + "\""@,
        Json::Array(items) => "["@ + compact_items(items) + "]"@,
        Json::Object(members) => "{"@ + compact_members(members) + "}"@,
    }
}

/// The compact texts of the items with a comma between neighbours.
pub open spec fn compact_items(items: Seq<Json>) -> Seq<char>
    decreases items, 1nat,
{
    if items.len() == 0 {
        Seq::empty()
    } else if items.len() == 1 {
        compact(items[0])
    } else {
        compact_items(items.drop_last()) + ","@ + compact(items.last())
    }
}

/// One member: the key in double quotes, a colon, the compact text of the
/// value.
pub open spec fn compact_member(member: (Seq<char>, Json)) -> Seq<char>
    decreases member, 0nat,
{
    "\""@ + member.0 + "\":"@ + compact(member.1)
}

/// The members with a comma between neighbours.
pub open spec fn compact_members(members: Seq<(Seq<char>, Json)>) -> Seq<char>
    decreases members, 1nat,
{
    if members.len() == 0 {
        Seq::empty()
    } else if members.len() == 1 {
        compact_member(members[0])
    } else {
        compact_members(members.drop_last()) + ","@ + compact_member(members.last())
    }
}

/// Whether a reader that was inside a string or not (`quoted`) is inside a
/// string after the text: each double quote switches.
pub open spec fn quoted_after(text: Seq<char>, quoted: bool) -> bool
    decreases text.len(),
{
    if text.len() == 0 {
        quoted
    } else {
        quoted_after(text.drop_first(), if text[0] == '"' { !quoted } else { quoted })
    }
}

/// The text without the blanks that stand outside of strings.
pub open spec fn squeezed(text: Seq<char>, quoted: bool) -> Seq<char>
    decreases text.len(),
{
    if text.len() == 0 {
        Seq::empty()
    } else {
        let c = text[0];
        let rest = squeezed(text.drop_first(), if c == '"' { !quoted } else { quoted });
        if !quoted && c == ' ' {
            rest
        } else {
            seq![c] + rest
        }
    }
}

/// Squeezing goes through a text part by part, the second part read in the
/// state that the first leaves.
pub proof fn squeezed_in_parts(a: Seq<char>, b: Seq<char>, quoted: bool)
    ensures
        squeezed(a + b, quoted) == squeezed(a, quoted) + squeezed(
            b,
            quoted_after(a, quoted),
        ),
    decreases a.len(),
{
    if a.len() == 0 {
        assert(a + b =~= b);
        assert(squeezed(a, quoted) + squeezed(b, quoted) =~= squeezed(b, quoted));
    } else {
        let next = if a[0] == '"' { !quoted } else { quoted };
        assert((a + b).drop_first() =~= a.drop_first() + b);
        squeezed_in_parts(a.drop_first(), b, next);
        assert(squeezed(a + b, quoted) =~= squeezed(a, quoted) + squeezed(
            b,
            quoted_after(a, quoted),
        ));
    }
}

/// The state after two parts is the state after the second, read from the
/// state that the first leaves.
pub proof fn quoted_in_parts(a: Seq<char>, b: Seq<char>, quoted: bool)
    ensures
        quoted_after(a + b, quoted) == quoted_after(b, quoted_after(a, quoted)),
    decreases a.len(),
{
    if a.len() == 0 {
        assert(a + b =~= b);
    } else {
        let next = if a[0] == '"' { !quoted } else { quoted };
        assert((a + b).drop_first() =~= a.drop_first() + b);
        quoted_in_parts(a.drop_first(), b, next);
    }
}

/// Inside a string a plain text is kept as it is and the string stays
/// open.
pub proof fn plain_text_is_kept(text: Seq<char>)
    requires
        plain(text),
    ensures
        squeezed(text, true) == text,
        quoted_after(text, true),
    decreases text.len(),
{
    if text.len() > 0 {
        assert(text[0] != '"');
        assert forall|i: int| 0 <= i < text.drop_first().len() implies {
            let c = #[trigger] text.drop_first()[i];
            c != '"' && c != '\\' && c >= ' '
        } by {
            assert(text.drop_first()[i] == text[i + 1]);
        }
        plain_text_is_kept(text.drop_first());
        assert(seq![text[0]] + text.drop_first() =~= text);
    }
}

/// A text that squeezes to `out` from outside a string and ends outside.
pub open spec fn squeezes_to(text: Seq<char>, out: Seq<char>) -> bool {
    squeezed(text, false) == out && !quoted_after(text, false)
}

/// What the pieces with a double quote squeeze to, and how they leave
/// the reader.
pub(crate) proof fn quote_pieces()
    ensures
        squeezed("\""@, false) == "\""@,
        quoted_after("\""@, false),
        squeezed("\""@, true) == "\""@,
        !quoted_after("\""@, true),
        squeezed("\": "@, true) == "\":"@,
        !quoted_after("\": "@, true),
        squeezed("\" }"@, true) == "\""@ + "}"@,
        !quoted_after("\" }"@, true),
{
    reveal_strlit("\"");
    reveal_strlit("\": ");
    reveal_strlit("\":");
    reveal_strlit("\" }");
    reveal_strlit("}");
    reveal_with_fuel(squeezed, 5);
    reveal_with_fuel(quoted_after, 5);
    assert(squeezed("\""@, false) =~= "\""@);
    assert(squeezed("\""@, true) =~= "\""@);
    assert(squeezed("\": "@, true) =~= "\":"@);
    assert(squeezed("\" }"@, true) =~= "\""@ + "}"@);
}

/// Squeezing three parts in a row.
pub(crate) proof fn three_parts(a: Seq<char>, b: Seq<char>, c: Seq<char>, quoted: bool)
    ensures
        squeezed(a + b + c, quoted) == squeezed(a, quoted) + squeezed(b, quoted_after(a, quoted))
            + squeezed(c, quoted_after(b, quoted_after(a, quoted))),
        quoted_after(a + b + c, quoted) == quoted_after(
            c,
            quoted_after(b, quoted_after(a, quoted)),
        ),
{
    squeezed_in_parts(a + b, c, quoted);
    squeezed_in_parts(a, b, quoted);
    quoted_in_parts(a + b, c, quoted);
    quoted_in_parts(a, b, quoted);
}

/// A text in double quotes squeezes to itself where it is plain.
pub(crate) proof fn quoted_text_is_kept(text: Seq<char>)
    requires
        plain(text),
    ensures
        squeezes_to("\""@ + text + "\""@, "\""@ + text + "\""@),
{
    quote_pieces();
    plain_text_is_kept(text);
    three_parts("\""@, text, "\""@, false);
}

/// One member squeezes to the compact member.
pub(crate) proof fn member_is_compact(key: Seq<char>, value: Seq<char>, json: Json)
    requires
        plain(key),
        squeezes_to(value, compact(json)),
    ensures
        squeezes_to("\""@ + key + "\": "@ + value, compact_member((key, json))),
{
    quote_pieces();
    plain_text_is_kept(key);
    three_parts("\""@, key, "\": "@, false);
    squeezed_in_parts("\""@ + key + "\": "@, value, false);
    quoted_in_parts("\""@ + key + "\": "@, value, false);
}

/// A joined text with one more item squeezes to the compact joined text
/// with one more item.
pub(crate) proof fn joined_is_compact(
    front: Seq<char>,
    comma: Seq<char>,
    item: Seq<char>,
    a: Seq<char>,
    b: Seq<char>,
)
    requires
        squeezes_to(front, a),
        squeezes_to(comma, ","@),
        squeezes_to(item, b),
    ensures
        squeezes_to(front + comma + item, a + ","@ + b),
{
    three_parts(front, comma, item, false);
}

/// A text between two brackets squeezes to the compact text between them.
pub(crate) proof fn enclosed_is_compact(
    open: Seq<char>,
    inner: Seq<char>,
    close: Seq<char>,
    a: Seq<char>,
    b: Seq<char>,
    c: Seq<char>,
)
    requires
        squeezes_to(open, a),
        squeezes_to(inner, b),
        squeezes_to(close, c),
    ensures
        squeezes_to(open + inner + close, a + b + c),
{
    three_parts(open, inner, close, false);
}

/// A text under a key squeezes to the compact object with that single
/// member.
pub(crate) proof fn keyed_is_compact(
    open: Seq<char>,
    key: Seq<char>,
    value: Seq<char>,
    close: Seq<char>,
    json: Json,
)
    requires
        squeezes_to(open, "{\""@ + key + "\":"@),
        squeezes_to(value, compact(json)),
        squeezes_to(close, "}"@),
    ensures
        squeezes_to(open + value + close, compact(single(key, json))),
{
    reveal_strlit("{");
    reveal_strlit("{\"");
    reveal_strlit("\"");
    enclosed_is_compact(open, value, close, "{\""@ + key + "\":"@, compact(json), "}"@);
    let members = seq![(key, json)];
    assert(compact_members(members) == compact_member(members[0]));
    assert(compact(single(key, json)) =~= "{\""@ + key + "\":"@ + compact(json) + "}"@);
}

/// Joined items between square brackets squeeze to the compact array.
pub(crate) proof fn array_is_compact(joined: Seq<char>, items: Seq<Json>)
    requires
        squeezes_to(joined, compact_items(items)),
    ensures
        squeezes_to("["@ + joined + "]"@, compact(Json::Array(items))),
{
    reveal_strlit("[");
    reveal_strlit("]");
    reveal_with_fuel(squeezed, 2);
    reveal_with_fuel(quoted_after, 2);
    assert(squeezed("["@, false) =~= "["@);
    assert(squeezed("]"@, false) =~= "]"@);
    enclosed_is_compact("["@, joined, "]"@, "["@, compact_items(items), "]"@);
}

/// Joined members between braces, blanks or none beside them, squeeze to
/// the compact object.
pub(crate) proof fn object_is_compact(
    open: Seq<char>,
    joined: Seq<char>,
    close: Seq<char>,
    members: Seq<(Seq<char>, Json)>,
)
    requires
        squeezes_to(open, "{"@),
        squeezes_to(joined, compact_members(members)),
        squeezes_to(close, "}"@),
    ensures
        squeezes_to(open + joined + close, compact(Json::Object(members))),
{
    enclosed_is_compact(open, joined, close, "{"@, compact_members(members), "}"@);
}

} // verus!
