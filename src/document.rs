use vstd::prelude::*;
use crate::item::TodoListItem;
use crate::list::TodoList;

verus! {

/// The character of the lowercase hexadecimal digit `d`.
pub open spec fn hex_digit_char(d: nat) -> char {
    seq!['0', '1', '2', '3', '4', '5', '6', '7', '8', '9', 'a', 'b', 'c', 'd', 'e', 'f'][d as int]
}

/// How the character `c` is written inside a JSON string literal: a quote
/// and a backslash get a backslash before them, the five control characters
/// with a short escape get it, the other control characters below U+0020 are
/// written `\u00xx`, and every other character stands as it is.
pub open spec fn escaped_char(c: char) -> Seq<char> {
    if c == '"' {
        seq!['\\', '"']
    } else if c == '\\' {
        seq!['\\', '\\']
    } else if c == '\u{8}' {
        seq!['\\', 'b']
    } else if c == '\t' {
        seq!['\\', 't']
    } else if c == '\n' {
        seq!['\\', 'n']
    } else if c == '\u{c}' {
        seq!['\\', 'f']
    } else if c == '\r' {
        seq!['\\', 'r']
    } else if (c as u32) < 0x20 {
        seq!['\\', 'u', '0', '0', hex_digit_char((c as u32 / 16) as nat), hex_digit_char((c as u32 % 16) as nat)]
    } else {
        seq![c]
    }
}

/// The characters of `s`, each written as `escaped_char` says.
pub open spec fn escaped(s: Seq<char>) -> Seq<char>
    decreases s.len(),
{
    if s.len() == 0 {
        Seq::empty()
    } else {
        escaped(s.drop_last()) + escaped_char(s.last())
    }
}

/// The JSON string literal of `s`: its escaped characters between quotes.
pub open spec fn json_string_text(s: Seq<char>) -> Seq<char> {
    seq!['"'] + escaped(s) + seq!['"']
}

/// The character of the decimal digit `d`.
pub open spec fn digit_char(d: nat) -> char {
    seq!['0', '1', '2', '3', '4', '5', '6', '7', '8', '9'][d as int]
}

/// The decimal digits of `n`, most significant first, with no sign and no
/// leading zero.
pub open spec fn decimal_digits(n: nat) -> Seq<char>
    decreases n,
{
    if n < 10 {
        seq![digit_char(n)]
    } else {
        decimal_digits(n / 10).push(digit_char(n % 10))
    }
}

/// The JSON text of `b`.
pub open spec fn bool_json(b: bool) -> Seq<char> {
    if b {
        "true"@
    } else {
        "false"@
    }
}

/// The JSON object that stores the item `it`.
pub open spec fn item_json(it: TodoListItem) -> Seq<char> {
    "{\"id\":"@ + decimal_digits(it.spec_id() as nat) + ",\"name\":"@ + json_string_text(it.spec_name())
        + ",\"description\":"@ + json_string_text(it.spec_description()) + ",\"date_created\":"@
        + json_string_text(it.spec_created()) + ",\"completed\":"@ + bool_json(it.spec_completed()) + "}"@
}

/// The JSON objects of `items`, in order, separated by commas.
pub open spec fn items_json(items: Seq<TodoListItem>) -> Seq<char>
    decreases items.len(),
{
    if items.len() == 0 {
        Seq::empty()
    } else if items.len() == 1 {
        item_json(items[0])
    } else {
        items_json(items.drop_last()) + ","@ + item_json(items.last())
    }
}

/// The JSON document that stores the list `l`.
pub open spec fn list_json(l: TodoList) -> Seq<char> {
    "{\"title\":"@ + json_string_text(l.spec_title()) + ",\"items\":["@ + items_json(l.spec_items())
        + "],\"date_created\":"@ + json_string_text(l.spec_created()) + "}"@
}

/// Relies on serde_json::to_string for a `str`, which writes the string
/// between quotes with the escapes of `escaped_char` (its escape table and
/// `format_escaped_str`); writing into memory reports no error.
#[verifier::external_body]
fn json_string(s: &str) -> (r: String)
    ensures
        r@ == json_string_text(s@),
{
    serde_json::to_string(s).unwrap_or_default()
}

/// The decimal digit `d` as a string.
fn digit_string(d: usize) -> (r: String)
    requires
        d < 10,
    ensures
        r@ == seq![digit_char(d as nat)],
{
    proof {
        reveal_strlit("0");
        reveal_strlit("1");
        reveal_strlit("2");
        reveal_strlit("3");
        reveal_strlit("4");
        reveal_strlit("5");
        reveal_strlit("6");
        reveal_strlit("7");
        reveal_strlit("8");
        reveal_strlit("9");
    }
    let r = match d {
        0 => String::from_str("0"),
        1 => String::from_str("1"),
        2 => String::from_str("2"),
        3 => String::from_str("3"),
        4 => String::from_str("4"),
        5 => String::from_str("5"),
        6 => String::from_str("6"),
        7 => String::from_str("7"),
        8 => String::from_str("8"),
        _ => String::from_str("9"),
    };
    assert(r@ =~= seq![digit_char(d as nat)]);
    r
}

/// The decimal digits of `n`.
fn decimal(n: usize) -> (r: String)
    ensures
        r@ == decimal_digits(n as nat),
    decreases n,
{
    if n < 10 {
        digit_string(n)
    } else {
        let mut r = decimal(n / 10);
        let last = digit_string(n % 10);
        r.append(last.as_str());
        assert(r@ =~= decimal_digits(n as nat));
        r
    }
}

impl TodoListItem {
    /// The JSON object that stores this item.
    pub fn to_json(&self) -> (r: String)
        ensures
            r@ == item_json(*self),
    {
        let mut r = String::from_str("{\"id\":");
        r.append(decimal(self.id()).as_str());
        r.append(",\"name\":");
        r.append(json_string(self.name().as_str()).as_str());
        r.append(",\"description\":");
        r.append(json_string(self.description().as_str()).as_str());
        r.append(",\"date_created\":");
        r.append(json_string(self.date_created().as_str()).as_str());
        r.append(",\"completed\":");
        if self.completed() {
            r.append("true");
        } else {
            r.append("false");
        }
        r.append("}");
        r
    }
}

impl TodoList {
    /// The JSON document that stores this list: its title, its items in
    /// order, and its creation time.
    pub fn to_json(&self) -> (r: String)
        ensures
            r@ == list_json(*self),
    {
        let items = self.items();
        let n = items.len();
        let mut body = String::new();
        let mut i: usize = 0;
        while i < n
            invariant
                items@ == self.spec_items(),
                n == self.spec_items().len(),
                i <= n,
                body@ == items_json(self.spec_items().subrange(0, i as int)),
            decreases n - i,
        {
            let ghost done = self.spec_items().subrange(0, i as int);
            let ghost next = self.spec_items().subrange(0, i + 1);
            assert(next.drop_last() =~= done);
            assert(next.last() == self.spec_items()[i as int]);
            if i > 0 {
                body.append(",");
            }
            let piece = items[i].to_json();
            body.append(piece.as_str());
            if i == 0 {
                assert(body@ =~= item_json(next[0]));
            }
            i = i + 1;
        }
        assert(self.spec_items().subrange(0, n as int) =~= self.spec_items());
        let mut r = String::from_str("{\"title\":");
        r.append(json_string(self.title().as_str()).as_str());
        r.append(",\"items\":[");
        r.append(body.as_str());
        r.append("],\"date_created\":");
        r.append(json_string(self.date_created().as_str()).as_str());
        r.append("}");
        r
    }
}

} // verus!
