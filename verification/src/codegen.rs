//! Helpers for generating code from a model.

use crate::text::str_equal;
use vstd::prelude::*;
use vstd::string::StringExecFns;

verus! {

/// The text of a documentation line for `input`: a space and the text,
/// where there is a text; nothing where there is none.
pub open spec fn docstring(input: Option<Seq<char>>) -> Seq<char> {
    match input {
        Some(doc) => seq![' '] + doc,
        None => Seq::empty(),
    }
}

/// Formats a description as the text of a documentation line.
pub fn format_docstring(input: &Option<String>) -> (res: String)
    ensures
        res@ == docstring(input.deep_view()),
{
    match input {
        Some(doc) => {
            proof {
                reveal_strlit(" ");
            }
            let mut res = String::from_str(" ");
            res.append(doc.as_str());
            assert(res@ =~= seq![' '] + doc@);
            res
        },
        None => String::new(),
    }
}

/// The Rust type that stands for a built-in YANG type, by the name of the
/// YANG type in lower case: the integer types map to the Rust integers of
/// their width, `decimal64` to `f64`, `string` to `String`, `boolean` to
/// `bool` and `empty` to the unit type. No other name has one.
pub open spec fn rust_type_name(yang_type: Seq<char>) -> Option<Seq<char>> {
    if yang_type == "int8"@ {
        Some("i8"@)
    } else if yang_type == "int16"@ {
        Some("i16"@)
    } else if yang_type == "int32"@ {
        Some("i32"@)
    } else if yang_type == "int64"@ {
        Some("i64"@)
    } else if yang_type == "uint8"@ {
        Some("u8"@)
    } else if yang_type == "uint16"@ {
        Some("u16"@)
    } else if yang_type == "uint32"@ {
        Some("u32"@)
    } else if yang_type == "uint64"@ {
        Some("u64"@)
    } else if yang_type == "decimal64"@ {
        Some("f64"@)
    } else if yang_type == "string"@ {
        Some("String"@)
    } else if yang_type == "boolean"@ {
        Some("bool"@)
    } else if yang_type == "empty"@ {
        Some("()"@)
    } else {
        None
    }
}

/// Finds the Rust type that stands for a built-in YANG type; see
/// [`rust_type_name`].
pub fn yang_to_rust_type(yang_type: &str) -> (res: Option<&'static str>)
    ensures
        res.deep_view() == rust_type_name(yang_type@),
{
    if str_equal(yang_type, "int8") {
        Some("i8")
    } else if str_equal(yang_type, "int16") {
        Some("i16")
    } else if str_equal(yang_type, "int32") {
        Some("i32")
    } else if str_equal(yang_type, "int64") {
        Some("i64")
    } else if str_equal(yang_type, "uint8") {
        Some("u8")
    } else if str_equal(yang_type, "uint16") {
        Some("u16")
    } else if str_equal(yang_type, "uint32") {
        Some("u32")
    } else if str_equal(yang_type, "uint64") {
        Some("u64")
    } else if str_equal(yang_type, "decimal64") {
        Some("f64")
    } else if str_equal(yang_type, "string") {
        Some("String")
    } else if str_equal(yang_type, "boolean") {
        Some("bool")
    } else if str_equal(yang_type, "empty") {
        Some("()")
    } else {
        None
    }
}

/// The name `id` with an underscore in place of every hyphen.
pub open spec fn sanitized(id: Seq<char>) -> Seq<char> {
    Seq::new(
        id.len(),
        |i: int|
            if id[i] == '-' {
                '_'
            } else {
                id[i]
            },
    )
}

/// Makes a Rust identifier of a YANG name: puts an underscore in place of
/// every hyphen.
pub fn sanitize_identifier(id: &str) -> (res: String)
    ensures
        res@ == sanitized(id@),
{
    proof {
        reveal_strlit("_");
    }
    let n = id.unicode_len();
    let mut out = String::new();
    let mut i: usize = 0;
    assert(out@ =~= sanitized(id@).take(0));
    while i < n
        invariant
            n == id@.len(),
            i <= n,
            "_"@.len() == 1,
            "_"@[0] == '_',
            out@ == sanitized(id@).take(i as int),
        decreases n - i,
    {
        let ghost before = out@;
        if id.get_char(i) == '-' {
            out.append("_");
        } else {
            out.append(id.substring_char(i, i + 1));
        }
        assert(out@ =~= sanitized(id@).take(i + 1)) by {
            assert(sanitized(id@).take(i + 1) =~= before.push(sanitized(id@)[i as int]));
            if id@[i as int] == '-' {
                assert("_"@ =~= seq!['_']);
            } else {
                assert(id@.subrange(i as int, i + 1) =~= seq![id@[i as int]]);
            }
        }
        i += 1;
    }
    assert(sanitized(id@).take(n as int) =~= sanitized(id@));
    out
}

} // verus!
