//! Text-level helpers shared by both emitters: schema-name-to-Rust-name
//! conversions, documentation blocks, decimal rendering, and the type mapper
//! that turns a schema type reference into a target type expression.

use vstd::prelude::*;
use vstd::string::StringExecFns;

use crate::schema::{string_eq_str, TypeRef, TypeRefV};

verus! {

/// Relies on String::push: appends exactly the given character.
#[verifier::external_body]
pub fn push_char(out: &mut String, c: char)
    ensures
        final(out)@ == old(out)@.push(c),
{
    out.push(c);
}

/// The upper-case form of an ASCII letter; any other character is unchanged.
pub open spec fn upper_char(c: char) -> char {
    if c == 'a' { 'A' } else if c == 'b' { 'B' } else if c == 'c' { 'C' }
    else if c == 'd' { 'D' } else if c == 'e' { 'E' } else if c == 'f' { 'F' }
    else if c == 'g' { 'G' } else if c == 'h' { 'H' } else if c == 'i' { 'I' }
    else if c == 'j' { 'J' } else if c == 'k' { 'K' } else if c == 'l' { 'L' }
    else if c == 'm' { 'M' } else if c == 'n' { 'N' } else if c == 'o' { 'O' }
    else if c == 'p' { 'P' } else if c == 'q' { 'Q' } else if c == 'r' { 'R' }
    else if c == 's' { 'S' } else if c == 't' { 'T' } else if c == 'u' { 'U' }
    else if c == 'v' { 'V' } else if c == 'w' { 'W' } else if c == 'x' { 'X' }
    else if c == 'y' { 'Y' } else if c == 'z' { 'Z' } else { c }
}

fn upper_char_x(c: char) -> (r: char)
    ensures
        r == upper_char(c),
{
    if c == 'a' { 'A' } else if c == 'b' { 'B' } else if c == 'c' { 'C' }
    else if c == 'd' { 'D' } else if c == 'e' { 'E' } else if c == 'f' { 'F' }
    else if c == 'g' { 'G' } else if c == 'h' { 'H' } else if c == 'i' { 'I' }
    else if c == 'j' { 'J' } else if c == 'k' { 'K' } else if c == 'l' { 'L' }
    else if c == 'm' { 'M' } else if c == 'n' { 'N' } else if c == 'o' { 'O' }
    else if c == 'p' { 'P' } else if c == 'q' { 'Q' } else if c == 'r' { 'R' }
    else if c == 's' { 'S' } else if c == 't' { 'T' } else if c == 'u' { 'U' }
    else if c == 'v' { 'V' } else if c == 'w' { 'W' } else if c == 'x' { 'X' }
    else if c == 'y' { 'Y' } else if c == 'z' { 'Z' } else { c }
}

/// The lower-case form of an ASCII letter; any other character is unchanged.
pub open spec fn lower_char(c: char) -> char {
    if c == 'A' { 'a' } else if c == 'B' { 'b' } else if c == 'C' { 'c' }
    else if c == 'D' { 'd' } else if c == 'E' { 'e' } else if c == 'F' { 'f' }
    else if c == 'G' { 'g' } else if c == 'H' { 'h' } else if c == 'I' { 'i' }
    else if c == 'J' { 'j' } else if c == 'K' { 'k' } else if c == 'L' { 'l' }
    else if c == 'M' { 'm' } else if c == 'N' { 'n' } else if c == 'O' { 'o' }
    else if c == 'P' { 'p' } else if c == 'Q' { 'q' } else if c == 'R' { 'r' }
    else if c == 'S' { 's' } else if c == 'T' { 't' } else if c == 'U' { 'u' }
    else if c == 'V' { 'v' } else if c == 'W' { 'w' } else if c == 'X' { 'x' }
    else if c == 'Y' { 'y' } else if c == 'Z' { 'z' } else { c }
}

fn lower_char_x(c: char) -> (r: char)
    ensures
        r == lower_char(c),
{
    if c == 'A' { 'a' } else if c == 'B' { 'b' } else if c == 'C' { 'c' }
    else if c == 'D' { 'd' } else if c == 'E' { 'e' } else if c == 'F' { 'f' }
    else if c == 'G' { 'g' } else if c == 'H' { 'h' } else if c == 'I' { 'i' }
    else if c == 'J' { 'j' } else if c == 'K' { 'k' } else if c == 'L' { 'l' }
    else if c == 'M' { 'm' } else if c == 'N' { 'n' } else if c == 'O' { 'o' }
    else if c == 'P' { 'p' } else if c == 'Q' { 'q' } else if c == 'R' { 'r' }
    else if c == 'S' { 's' } else if c == 'T' { 't' } else if c == 'U' { 'u' }
    else if c == 'V' { 'v' } else if c == 'W' { 'w' } else if c == 'X' { 'x' }
    else if c == 'Y' { 'y' } else if c == 'Z' { 'z' } else { c }
}

/// Whether the character is an ASCII upper-case letter.
pub open spec fn is_upper(c: char) -> bool {
    lower_char(c) != c
}

fn is_upper_x(c: char) -> (r: bool)
    ensures
        r == is_upper(c),
{
    lower_char_x(c) != c
}

/// The first `n` characters of `s` converted to an upper-camel-case name:
/// underscores are dropped and the following character (and the first) is
/// capitalized.
pub open spec fn pascal_text(s: Seq<char>, n: int) -> Seq<char>
    decreases n,
{
    if n <= 0 {
        Seq::empty()
    } else {
        let rest = pascal_text(s, n - 1);
        let c = s[n - 1];
        if c == '_' {
            rest
        } else if n - 1 == 0 || s[n - 2] == '_' {
            rest.push(upper_char(c))
        } else {
            rest.push(c)
        }
    }
}

/// The upper-camel-case form of a schema name.
pub open spec fn pascal_of(s: Seq<char>) -> Seq<char> {
    pascal_text(s, s.len() as int)
}

/// The generated structure name for a schema name.
pub fn pascal_case(name: &str) -> (r: String)
    ensures
        r@ == pascal_of(name@),
{
    let mut out = String::new();
    let n = name.unicode_len();
    let mut prev_us = true;
    let mut j: usize = 0;
    while j < n
        invariant
            j <= n,
            n == name@.len(),
            out@ == pascal_text(name@, j as int),
            prev_us == (j == 0 || name@[j as int - 1] == '_'),
        decreases n - j,
    {
        let c = name.get_char(j);
        if c == '_' {
        } else if prev_us {
            push_char(&mut out, upper_char_x(c));
        } else {
            push_char(&mut out, c);
        }
        prev_us = c == '_';
        j += 1;
    }
    out
}

/// The first `n` characters of `s` converted to a snake-case name: an
/// upper-case letter is lowered and, except at the start, preceded by an
/// underscore.
pub open spec fn snake_text(s: Seq<char>, n: int) -> Seq<char>
    decreases n,
{
    if n <= 0 {
        Seq::empty()
    } else {
        let rest = snake_text(s, n - 1);
        let c = s[n - 1];
        if is_upper(c) {
            if n - 1 == 0 {
                rest.push(lower_char(c))
            } else {
                rest.push('_').push(lower_char(c))
            }
        } else {
            rest.push(c)
        }
    }
}

/// The snake-case form of a schema name.
pub open spec fn snake_of(s: Seq<char>) -> Seq<char> {
    snake_text(s, s.len() as int)
}

/// The generated function name for a schema name.
pub fn snake_case(name: &str) -> (r: String)
    ensures
        r@ == snake_of(name@),
{
    let mut out = String::new();
    let n = name.unicode_len();
    let mut j: usize = 0;
    while j < n
        invariant
            j <= n,
            n == name@.len(),
            out@ == snake_text(name@, j as int),
        decreases n - j,
    {
        let c = name.get_char(j);
        if is_upper_x(c) {
            if j > 0 {
                push_char(&mut out, '_');
            }
            push_char(&mut out, lower_char_x(c));
        } else {
            push_char(&mut out, c);
        }
        j += 1;
    }
    out
}

/// Rust keywords that occur as schema field names and must be escaped.
pub open spec fn is_rust_keyword(s: Seq<char>) -> bool {
    ||| s == "type"@
    ||| s == "fn"@
    ||| s == "loop"@
    ||| s == "static"@
    ||| s == "move"@
    ||| s == "box"@
    ||| s == "use"@
    ||| s == "impl"@
    ||| s == "self"@
}

/// The emitted attribute name of a schema field: the schema name, escaped as
/// a raw identifier when it collides with a Rust keyword.
pub open spec fn attr_name_of(s: Seq<char>) -> Seq<char> {
    if is_rust_keyword(s) {
        "r#"@ + s
    } else {
        s
    }
}

/// The emitted attribute name of a schema field.
pub fn attr_name(name: &String) -> (r: String)
    ensures
        r@ == attr_name_of(name@),
{
    let kw = string_eq_str(name, "type") || string_eq_str(name, "fn") || string_eq_str(
        name,
        "loop",
    ) || string_eq_str(name, "static") || string_eq_str(name, "move") || string_eq_str(
        name,
        "box",
    ) || string_eq_str(name, "use") || string_eq_str(name, "impl") || string_eq_str(name, "self");
    if kw {
        let pre: String = "r#".to_owned();
        pre.concat(name.as_str())
    } else {
        name.as_str().to_owned()
    }
}

/// The first `n` characters of a description, with every line break expanded
/// to a break, the indent and a fresh doc-comment marker.
pub open spec fn doc_body(desc: Seq<char>, indent: Seq<char>, n: int) -> Seq<char>
    decreases n,
{
    if n <= 0 {
        Seq::empty()
    } else {
        let rest = doc_body(desc, indent, n - 1);
        let c = desc[n - 1];
        if c == '\n' {
            rest + "\n"@ + indent + "/// "@
        } else {
            rest.push(c)
        }
    }
}

/// A full documentation block: indent, doc marker, the description with line
/// breaks re-indented, and a final line break.
pub open spec fn doc_text(desc: Seq<char>, indent: Seq<char>) -> Seq<char> {
    indent + "/// "@ + doc_body(desc, indent, desc.len() as int) + "\n"@
}

/// Appends a documentation block for the description to the output.
pub fn push_doc(out: &mut String, desc: &str, indent: &str)
    ensures
        final(out)@ == old(out)@ + doc_text(desc@, indent@),
{
    out.append(indent);
    out.append("/// ");
    push_doc_body(out, desc, indent);
    out.append("\n");
    proof {
        assert(out@ =~= old(out)@ + doc_text(desc@, indent@));
    }
}

/// Appends the description with every line break re-indented, without the
/// leading marker or the final break.
pub fn push_doc_body(out: &mut String, desc: &str, indent: &str)
    ensures
        final(out)@ == old(out)@ + doc_body(desc@, indent@, desc@.len() as int),
{
    let ghost base = out@;
    let n = desc.unicode_len();
    let mut j: usize = 0;
    while j < n
        invariant
            j <= n,
            n == desc@.len(),
            out@ == base + doc_body(desc@, indent@, j as int),
        decreases n - j,
    {
        let c = desc.get_char(j);
        if c == '\n' {
            out.append("\n");
            out.append(indent);
            out.append("/// ");
        } else {
            push_char(out, c);
            proof {
                assert(out@ =~= base + doc_body(desc@, indent@, j as int + 1));
            }
        }
        j += 1;
    }
}

/// The decimal digit character for a value below ten.
pub open spec fn dec_digit(d: int) -> char {
    if d == 0 { '0' } else if d == 1 { '1' } else if d == 2 { '2' }
    else if d == 3 { '3' } else if d == 4 { '4' } else if d == 5 { '5' }
    else if d == 6 { '6' } else if d == 7 { '7' } else if d == 8 { '8' } else { '9' }
}

/// The decimal text of a number, most significant digit first.
pub open spec fn dec_text(n: nat) -> Seq<char>
    decreases n,
{
    if n < 10 {
        Seq::empty().push(dec_digit(n as int))
    } else {
        dec_text(n / 10).push(dec_digit((n % 10) as int))
    }
}

/// Appends the decimal text of `n` to the output.
pub fn push_dec(out: &mut String, n: u64)
    ensures
        final(out)@ == old(out)@ + dec_text(n as nat),
    decreases n,
{
    if n >= 10 {
        push_dec(out, n / 10);
    }
    let m = n % 10;
    let c = if m == 0 { '0' } else if m == 1 { '1' } else if m == 2 { '2' }
        else if m == 3 { '3' } else if m == 4 { '4' } else if m == 5 { '5' }
        else if m == 6 { '6' } else if m == 7 { '7' } else if m == 8 { '8' } else { '9' };
    proof {
        assert(c == dec_digit((n as nat % 10 as nat) as int));
    }
    push_char(out, c);
    proof {
        assert(out@ =~= old(out)@ + dec_text(n as nat));
    }
}

/// The target type expression for a base schema name: built-in scalars map to
/// fixed primitives, the sentinel no-value type to unit, text to the selected
/// text representation, and any other name to its emitted structure name,
/// qualified on demand.
pub open spec fn mapped_base(name: Seq<char>, shared: bool, qualify: bool) -> Seq<char> {
    if name == "Bool"@ {
        "bool"@
    } else if name == "Int32"@ {
        "i32"@
    } else if name == "Int53"@ {
        "i64"@
    } else if name == "Int64"@ {
        "i64"@
    } else if name == "Bytes"@ {
        "String"@
    } else if name == "Ok"@ {
        "()"@
    } else if name == "String"@ {
        if shared {
            "TdString"@
        } else {
            "String"@
        }
    } else if qualify {
        "crate::types::"@ + pascal_of(name)
    } else {
        pascal_of(name)
    }
}

/// An expression wrapped in `depth` ordered-collection layers.
pub open spec fn vec_wrapped(inner: Seq<char>, depth: nat) -> Seq<char>
    decreases depth,
{
    if depth == 0 {
        inner
    } else {
        "Vec<"@ + vec_wrapped(inner, (depth - 1) as nat) + ">"@
    }
}

/// The full target type expression for a schema type reference.
pub open spec fn mapped_type(t: TypeRefV, shared: bool, qualify: bool) -> Seq<char> {
    vec_wrapped(mapped_base(t.name, shared, qualify), t.vector_depth)
}

/// Maps a schema type reference to its target type expression. Optionality is
/// wrapped by the caller, not here, so the same mapping serves struct fields
/// and operation parameters.
pub fn qual_name(ty: &TypeRef, qualify: bool, shared: bool) -> (r: String)
    ensures
        r@ == mapped_type(ty@, shared, qualify),
{
    let base: String = if string_eq_str(&ty.name, "Bool") {
        "bool".to_owned()
    } else if string_eq_str(&ty.name, "Int32") {
        "i32".to_owned()
    } else if string_eq_str(&ty.name, "Int53") {
        "i64".to_owned()
    } else if string_eq_str(&ty.name, "Int64") {
        "i64".to_owned()
    } else if string_eq_str(&ty.name, "Bytes") {
        "String".to_owned()
    } else if string_eq_str(&ty.name, "Ok") {
        "()".to_owned()
    } else if string_eq_str(&ty.name, "String") {
        if shared {
            "TdString".to_owned()
        } else {
            "String".to_owned()
        }
    } else if qualify {
        let pre: String = "crate::types::".to_owned();
        pre.concat(pascal_case(ty.name.as_str()).as_str())
    } else {
        pascal_case(ty.name.as_str())
    };
    let mut s = base;
    let mut d: u32 = 0;
    while d < ty.vector_depth
        invariant
            d <= ty.vector_depth,
            s@ == vec_wrapped(mapped_base(ty@.name, shared, qualify), d as nat),
        decreases ty.vector_depth - d,
    {
        let pre: String = "Vec<".to_owned();
        s = pre.concat(s.as_str()).concat(">");
        d += 1;
    }
    s
}

/// The transport adapter annotation for a field, when its declared integer
/// width exceeds the serialization format's safe round-trip precision: such a
/// value travels as a quoted decimal string.
pub open spec fn serde_annotation(t: TypeRefV) -> Option<Seq<char>> {
    if t.name == "Int64"@ {
        Some(vec_wrapped("DisplayFromStr"@, t.vector_depth))
    } else {
        None
    }
}

/// The transport adapter annotation for a field, if it needs one.
pub fn serde_as(ty: &TypeRef) -> (r: Option<String>)
    ensures
        match r {
            Some(s) => serde_annotation(ty@) == Some(s@),
            None => serde_annotation(ty@) is None,
        },
{
    if string_eq_str(&ty.name, "Int64") {
        let mut s: String = "DisplayFromStr".to_owned();
        let mut d: u32 = 0;
        while d < ty.vector_depth
            invariant
                d <= ty.vector_depth,
                s@ == vec_wrapped("DisplayFromStr"@, d as nat),
            decreases ty.vector_depth - d,
        {
            let pre: String = "Vec<".to_owned();
            s = pre.concat(s.as_str()).concat(">");
            d += 1;
        }
        Some(s)
    } else {
        None
    }
}

} // verus!
