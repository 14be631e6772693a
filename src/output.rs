//! Output formats, and how a format is named.

use vstd::prelude::*;

use crate::text::{
    chars_of, decimal, decimal_chars, lower_of, lowercase, push_all, push_str, same_chars, string_of,
};

verus! {

/// How results are printed.
#[derive(Debug, Clone, Copy, PartialEq, Eq, Structural)]
pub enum Format {
    /// One pretty-printed JSON document.
    Json,
    /// One JSON document per line, one per item.
    JsonLines,
    /// A table with a column per field.
    Table,
}

/// The format a lower-case name stands for.
pub open spec fn format_named(name: Seq<char>) -> Option<Format> {
    if name == "json"@ {
        Some(Format::Json)
    } else if name == "jsonl"@ || name == "jsonlines"@ {
        Some(Format::JsonLines)
    } else if name == "table"@ {
        Some(Format::Table)
    } else {
        None
    }
}

/// Whether `v` spells the literal `s`.
fn spells(v: &Vec<char>, s: &str) -> (r: bool)
    ensures
        r == (v@ == s@),
{
    same_chars(v, &chars_of(s))
}

impl Format {
    /// The format named `s`, in any case: `json`, `jsonl` or `jsonlines`,
    /// or `table`; an error naming `s` otherwise.
    pub fn from_str(s: &str) -> (r: Result<Format, String>)
        ensures
            format_named(lower_of(s@)) matches Some(f) ==> r == Ok::<Format, String>(f),
            format_named(lower_of(s@)) is None ==> (r matches Err(m) && m@ == "Invalid format: "@
                + s@),
    {
        let lowered = lowercase(s);
        match Format::from_name(lowered.as_str()) {
            Some(f) => Ok(f),
            None => {
                let mut msg: Vec<char> = Vec::new();
                push_str(&mut msg, "Invalid format: ");
                push_str(&mut msg, s);
                Err(string_of(&msg))
            },
        }
    }

    /// The format a lower-case name stands for, if any.
    pub fn from_name(name: &str) -> (r: Option<Format>)
        ensures
            r == format_named(name@),
    {
        let name = chars_of(name);
        if spells(&name, "json") {
            Some(Format::Json)
        } else if spells(&name, "jsonl") || spells(&name, "jsonlines") {
            Some(Format::JsonLines)
        } else if spells(&name, "table") {
            Some(Format::Table)
        } else {
            None
        }
    }
}

/// What a table cell shows, read off a JSON value.
pub enum CellValue {
    /// The field is absent.
    Missing,
    Null,
    Text(String),
    /// A number, as its JSON text.
    Number(String),
    Bool(bool),
    /// An array of this many items.
    Array(usize),
    Object,
}

/// The text of a table cell: `-` for nothing, strings and numbers as they
/// are, `true`/`false`, `[]` or `[n items]` for arrays, `{...}` for objects.
pub open spec fn cell_text(v: CellValue) -> Seq<char> {
    match v {
        CellValue::Missing => "-"@,
        CellValue::Null => "-"@,
        CellValue::Text(s) => s@,
        CellValue::Number(n) => n@,
        CellValue::Bool(b) => if b {
            "true"@
        } else {
            "false"@
        },
        CellValue::Array(n) => if n == 0 {
            "[]"@
        } else {
            "["@ + decimal(n as nat) + " items]"@
        },
        CellValue::Object => "{...}"@,
    }
}

/// Renders a table cell.
pub fn format_value(value: &CellValue) -> (r: String)
    ensures
        r@ == cell_text(*value),
{
    match value {
        CellValue::Missing => String::from_str("-"),
        CellValue::Null => String::from_str("-"),
        CellValue::Text(s) => s.as_str().to_owned(),
        CellValue::Number(n) => n.as_str().to_owned(),
        CellValue::Bool(b) => if *b {
            String::from_str("true")
        } else {
            String::from_str("false")
        },
        CellValue::Array(n) => if *n == 0 {
            String::from_str("[]")
        } else {
            let mut out: Vec<char> = Vec::new();
            push_str(&mut out, "[");
            push_all(&mut out, &decimal_chars(*n as u64));
            push_str(&mut out, " items]");
            string_of(&out)
        },
        CellValue::Object => String::from_str("{...}"),
    }
}

} // verus!
