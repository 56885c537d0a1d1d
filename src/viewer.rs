use vstd::prelude::*;
use crate::names::{extension_of, file_name_of, final_component, split_name};
use crate::text::{chars_of, string_from_chars};

verus! {

/// The syntax name shown for a file with extension `ext`.
pub open spec fn syntax_for(ext: Option<Seq<char>>) -> Seq<char> {
    match ext {
        Some(e) => if e == "rs"@ {
            "Rust"@
        } else if e == "py"@ {
            "Python"@
        } else if e == "js"@ || e == "jsx"@ {
            "JavaScript"@
        } else if e == "ts"@ || e == "tsx"@ {
            "TypeScript"@
        } else if e == "json"@ {
            "JSON"@
        } else if e == "toml"@ {
            "TOML"@
        } else if e == "yaml"@ || e == "yml"@ {
            "YAML"@
        } else if e == "md"@ {
            "Markdown"@
        } else if e == "sh"@ || e == "bash"@ {
            "Shell"@
        } else if e == "c"@ || e == "h"@ {
            "C"@
        } else if e == "cpp"@ || e == "hpp"@ {
            "C++"@
        } else if e == "html"@ {
            "HTML"@
        } else if e == "css"@ {
            "CSS"@
        } else {
            "Plain Text"@
        },
        None => "Plain Text"@,
    }
}

fn is(e: &String, lit: &str) -> (r: bool)
    ensures
        r == (e@ == lit@),
{
    *e == String::from_str(lit)
}

/// Names the syntax of the file at `path` (a `/`-separated path) from its
/// extension; `"Plain Text"` when the extension is unknown or missing.
pub fn detect_syntax(path: &str) -> (r: String)
    ensures
        r@ == syntax_for(extension_of(final_component(path@))),
{
    let name = file_name_of(&chars_of(path));
    let (_stem, ext) = split_name(&name);
    match ext {
        None => String::from_str("Plain Text"),
        Some(ext_chars) => {
            let e = string_from_chars(&ext_chars);
            if is(&e, "rs") {
                String::from_str("Rust")
            } else if is(&e, "py") {
                String::from_str("Python")
            } else if is(&e, "js") || is(&e, "jsx") {
                String::from_str("JavaScript")
            } else if is(&e, "ts") || is(&e, "tsx") {
                String::from_str("TypeScript")
            } else if is(&e, "json") {
                String::from_str("JSON")
            } else if is(&e, "toml") {
                String::from_str("TOML")
            } else if is(&e, "yaml") || is(&e, "yml") {
                String::from_str("YAML")
            } else if is(&e, "md") {
                String::from_str("Markdown")
            } else if is(&e, "sh") || is(&e, "bash") {
                String::from_str("Shell")
            } else if is(&e, "c") || is(&e, "h") {
                String::from_str("C")
            } else if is(&e, "cpp") || is(&e, "hpp") {
                String::from_str("C++")
            } else if is(&e, "html") {
                String::from_str("HTML")
            } else if is(&e, "css") {
                String::from_str("CSS")
            } else {
                String::from_str("Plain Text")
            }
        },
    }
}

/// Whether `std::str::from_utf8` accepts the bytes.
pub uninterp spec fn utf8_valid(b: Seq<u8>) -> bool;

/// Relies on `std::str::from_utf8`: whether the bytes are valid UTF-8; no
/// bytes at all are.
#[verifier::external_body]
fn is_utf8(b: &[u8]) -> (r: bool)
    ensures
        r == utf8_valid(b@),
        b@.len() == 0 ==> r,
{
    std::str::from_utf8(b).is_ok()
}

/// Whether the head of a file marks it as binary: it holds a zero byte, or
/// it is not valid UTF-8.
pub open spec fn binary_content(head: Seq<u8>) -> bool {
    head.contains(0u8) || !utf8_valid(head)
}

/// Tells binary content from text by the first bytes of a file.
pub fn is_binary_content(head: &[u8]) -> (r: bool)
    ensures
        r == binary_content(head@),
{
    let mut i: usize = 0;
    while i < head.len()
        invariant
            i <= head@.len(),
            forall|k: int| 0 <= k < i ==> head@[k] != 0u8,
        decreases head.len() - i,
    {
        if head[i] == 0 {
            assert(head@[i as int] == 0u8);
            return true;
        }
        i += 1;
    }
    !is_utf8(head)
}

} // verus!
