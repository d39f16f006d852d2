use vstd::prelude::*;
use vstd::string::StringExecFns;

use crate::level::Level;

verus! {

/// One key-value attribute of a record, each side already in its debug
/// rendering.
pub struct Attribute {
    pub key: String,
    pub value: String,
}

/// A structured log record, with the message body already rendered.
///
/// `plain_message` tells whether the body was a plain string that needed no
/// interpolation. `attributes` is `None` where the attribute capability is
/// absent, and may be an empty list where it is present.
pub struct Record {
    pub level: Level,
    pub target: String,
    pub module: Option<String>,
    pub file: Option<String>,
    pub line: Option<u32>,
    pub message: String,
    pub plain_message: bool,
    pub attributes: Option<Vec<Attribute>>,
}

/// The character of a decimal digit.
pub open spec fn digit_char(d: nat) -> char {
    if d == 0 {
        '0'
    } else if d == 1 {
        '1'
    } else if d == 2 {
        '2'
    } else if d == 3 {
        '3'
    } else if d == 4 {
        '4'
    } else if d == 5 {
        '5'
    } else if d == 6 {
        '6'
    } else if d == 7 {
        '7'
    } else if d == 8 {
        '8'
    } else {
        '9'
    }
}

/// The decimal text of a number, without sign or leading zeros.
pub open spec fn decimal(n: nat) -> Seq<char>
    decreases n,
{
    if n < 10 {
        seq![digit_char(n)]
    } else {
        decimal(n / 10) + seq![digit_char(n % 10)]
    }
}

/// Appends `part` to `acc`, with `sep` between them when `acc` is not empty.
pub open spec fn join(acc: Seq<char>, sep: Seq<char>, part: Seq<char>) -> Seq<char> {
    if acc.len() > 0 {
        acc + sep + part
    } else {
        part
    }
}

/// The text of one attribute inside the mapping literal.
pub open spec fn entry_text(a: Attribute) -> Seq<char> {
    a.key@ + seq![':', ' '] + a.value@
}

/// The first `n` attributes, separated by `", "`.
pub open spec fn entries_text(attrs: Seq<Attribute>, n: nat) -> Seq<char>
    decreases n,
{
    if n == 0 {
        Seq::empty()
    } else if n == 1 {
        entry_text(attrs[0])
    } else {
        entries_text(attrs, (n - 1) as nat) + seq![',', ' '] + entry_text(attrs[n - 1])
    }
}

/// The attributes as a mapping literal, in their own order.
pub open spec fn mapping_text(attrs: Seq<Attribute>) -> Seq<char> {
    seq!['{'] + entries_text(attrs, attrs.len()) + seq!['}']
}

/// The module path, where it is present and differs from the target.
pub open spec fn module_text(r: &Record) -> Seq<char> {
    match r.module {
        Some(m) => if m@ != r.target@ {
            m@
        } else {
            Seq::empty()
        },
        None => Seq::empty(),
    }
}

/// The module part followed by the file, after `" in "`.
pub open spec fn file_text(r: &Record) -> Seq<char> {
    match r.file {
        Some(f) => join(module_text(r), seq![' ', 'i', 'n', ' '], f@),
        None => module_text(r),
    }
}

/// The location so far followed by the line number, after `":"`.
pub open spec fn line_text(r: &Record) -> Seq<char> {
    match r.line {
        Some(n) => join(file_text(r), seq![':'], decimal(n as nat)),
        None => file_text(r),
    }
}

/// The location followed by the message body, after `": "`.
pub open spec fn body_text(r: &Record) -> Seq<char> {
    join(line_text(r), seq![':', ' '], r.message@)
}

/// Whether the record carries a non-empty list of attributes.
pub open spec fn has_attributes(r: &Record) -> bool {
    match r.attributes {
        Some(v) => v@.len() > 0,
        None => false,
    }
}

/// The composite message: location, body, and the attributes after a space.
pub open spec fn composite_text(r: &Record) -> Seq<char> {
    if has_attributes(r) {
        join(body_text(r), seq![' '], mapping_text(r.attributes->Some_0@))
    } else {
        body_text(r)
    }
}

/// Whether the message may be passed through untouched: a plain body, no
/// location and no attributes.
pub open spec fn fast_path(r: &Record) -> bool {
    &&& r.plain_message
    &&& r.module is None
    &&& r.file is None
    &&& r.line is None
    &&& !has_attributes(r)
}

/// The message that is delivered for a record.
pub open spec fn formatted(r: &Record) -> Seq<char> {
    if fast_path(r) {
        r.message@
    } else {
        composite_text(r)
    }
}

/// The composite assembly gives the bare message body on every record
/// that the fast path takes, so both paths deliver the same text.
pub proof fn lemma_fast_path_agrees(r: &Record)
    requires
        fast_path(r),
    ensures
        composite_text(r) == r.message@,
        formatted(r) == composite_text(r),
{
}

/// The text of one decimal digit.
fn digit_str(d: u32) -> (r: &'static str)
    requires
        d < 10,
    ensures
        r@ == seq![digit_char(d as nat)],
{
    proof {
        reveal_strlit("0");
        reveal_strlit("1");
        reveal_strlit("2");
        reveal_strlit("3");
        reveal_strlit("4");
        reveal_strlit("5");
        reveal_strlit("6");
        reveal_strlit("7");
        reveal_strlit("8");
        reveal_strlit("9");
    }
    if d == 0 {
        "0"
    } else if d == 1 {
        "1"
    } else if d == 2 {
        "2"
    } else if d == 3 {
        "3"
    } else if d == 4 {
        "4"
    } else if d == 5 {
        "5"
    } else if d == 6 {
        "6"
    } else if d == 7 {
        "7"
    } else if d == 8 {
        "8"
    } else {
        "9"
    }
}

/// Appends the decimal text of `n`.
pub fn push_decimal(s: &mut String, n: u32)
    ensures
        final(s)@ == old(s)@ + decimal(n as nat),
    decreases n,
{
    if n >= 10 {
        push_decimal(s, n / 10);
    }
    s.append(digit_str(n % 10));
}

/// Appends the attributes as a mapping literal, `{k1: v1, k2: v2}`.
fn push_mapping(s: &mut String, attrs: &Vec<Attribute>)
    ensures
        final(s)@ == old(s)@ + mapping_text(attrs@),
{
    proof {
        reveal_strlit("{");
        reveal_strlit("}");
    }
    let ghost start = s@;
    s.append("{");
    let mut i: usize = 0;
    while i < attrs.len()
        invariant
            0 <= i <= attrs@.len(),
            s@ == start + seq!['{'] + entries_text(attrs@, i as nat),
        decreases attrs@.len() - i,
    {
        let ghost before = s@;
        proof {
            reveal_strlit(", ");
            reveal_strlit(": ");
        }
        if i > 0 {
            s.append(", ");
        }
        let a = &attrs[i];
        s.append(a.key.as_str());
        s.append(": ");
        s.append(a.value.as_str());
        proof {
            let n = (i + 1) as nat;
            assert(entry_text(attrs@[i as int]) == a.key@ + seq![':', ' '] + a.value@);
            if i == 0 {
                assert(before =~= start + seq!['{']);
                assert(s@ =~= before + entry_text(attrs@[i as int]));
            } else {
                assert(entries_text(attrs@, n) == entries_text(attrs@, i as nat) + seq![',', ' ']
                    + entry_text(attrs@[n - 1]));
                assert(s@ =~= before + seq![',', ' '] + entry_text(attrs@[i as int]));
            }
            assert(s@ =~= start + seq!['{'] + entries_text(attrs@, n));
        }
        i = i + 1;
    }
    s.append("}");
}

/// Formats the message of a record.
///
/// A plain body with no module path, file, line or attributes is passed
/// through as it is. Otherwise the text is assembled in this order: the
/// module path (left out where it equals the target), `" in "` and the file,
/// `":"` and the line, `": "` and the body, then a space and the attributes
/// as a mapping literal. Each separator stands only where text precedes it.
pub fn format_message(record: &Record) -> (r: String)
    ensures
        r@ == formatted(record),
{
    proof {
        reveal_strlit(" in ");
        reveal_strlit(":");
        reveal_strlit(": ");
        reveal_strlit(" ");
    }
    let no_attributes = match &record.attributes {
        Some(v) => v.len() == 0,
        None => true,
    };
    if record.plain_message && record.module.is_none() && record.file.is_none()
        && record.line.is_none() && no_attributes {
        return record.message.clone();
    }
    let mut message = String::new();
    match &record.module {
        Some(m) => {
            if !m.eq(&record.target) {
                message.append(m.as_str());
            }
        },
        None => {},
    }
    match &record.file {
        Some(f) => {
            if !message.as_str().is_empty() {
                message.append(" in ");
            }
            message.append(f.as_str());
        },
        None => {},
    }
    match record.line {
        Some(n) => {
            if !message.as_str().is_empty() {
                message.append(":");
            }
            push_decimal(&mut message, n);
        },
        None => {},
    }
    if !message.as_str().is_empty() {
        message.append(": ");
    }
    message.append(record.message.as_str());
    match &record.attributes {
        Some(v) => {
            if v.len() > 0 {
                if !message.as_str().is_empty() {
                    message.append(" ");
                }
                push_mapping(&mut message, v);
            }
        },
        None => {},
    }
    message
}

} // verus!
