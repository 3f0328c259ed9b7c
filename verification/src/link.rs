//! The directives that tell cargo how to link the engine's static libraries.
//!
//! A directive is one line of text for cargo to read. Which lines are due
//! depends on where the libraries were built and on the platform.

use vstd::prelude::*;
use vstd::string::StringExecFns;

verus! {

/// A search-path directive for the directory `dst` followed by `subdir`.
pub open spec fn search_line(dst: Seq<char>, subdir: Seq<char>) -> Seq<char> {
    "cargo:rustc-link-search=native="@ + dst + subdir
}

/// The directives for libraries built under `dst`, in the order in which
/// cargo has to read them.
///
/// A debug build on Windows links the debug C runtime first. Then come the
/// four directories to search, the two engine libraries under the names that
/// the platform gives them, and the four libraries that they depend on.
/// Anywhere but on Windows the C++ runtime comes last, behind all that
/// need it.
pub open spec fn link_lines(dst: Seq<char>, windows: bool, debug_assertions: bool) -> Seq<
    Seq<char>,
> {
    let runtime = if windows && debug_assertions {
        seq!["cargo:rustc-link-lib=dylib=msvcrtd"@]
    } else {
        Seq::empty()
    };
    let search = seq![
        search_line(dst, "/lib"@),
        search_line(dst, "/build/third_party"@),
        search_line(dst, "/build/third_party/brotli"@),
        search_line(dst, "/build/third_party/highway"@),
    ];
    let engine = if windows {
        seq![
            "cargo:rustc-link-lib=static=jxl-static"@,
            "cargo:rustc-link-lib=static=jxl_threads-static"@,
        ]
    } else {
        seq!["cargo:rustc-link-lib=static=jxl"@, "cargo:rustc-link-lib=static=jxl_threads"@]
    };
    let needed = seq![
        "cargo:rustc-link-lib=static=brotlicommon-static"@,
        "cargo:rustc-link-lib=static=brotlidec-static"@,
        "cargo:rustc-link-lib=static=brotlienc-static"@,
        "cargo:rustc-link-lib=static=hwy"@,
    ];
    let last = if windows {
        Seq::empty()
    } else {
        seq!["cargo:rustc-link-lib=dylib=stdc++"@]
    };
    runtime + search + engine + needed + last
}

/// The views of `lines`, in order.
pub open spec fn line_views(lines: Seq<String>) -> Seq<Seq<char>> {
    Seq::new(lines.len(), |i: int| lines[i]@)
}

fn search_directive(dst: &str, subdir: &str) -> (line: String)
    ensures
        line@ == search_line(dst@, subdir@),
{
    String::from_str("cargo:rustc-link-search=native=").concat(dst).concat(subdir)
}

/// The directives for libraries built under `dst`, one line each, in the
/// order in which cargo has to read them.
pub fn cargo_link_lines(dst: &str, windows: bool, debug_assertions: bool) -> (lines: Vec<String>)
    ensures
        line_views(lines@) == link_lines(dst@, windows, debug_assertions),
{
    let mut lines: Vec<String> = Vec::new();
    if windows && debug_assertions {
        lines.push(String::from_str("cargo:rustc-link-lib=dylib=msvcrtd"));
    }
    lines.push(search_directive(dst, "/lib"));
    lines.push(search_directive(dst, "/build/third_party"));
    lines.push(search_directive(dst, "/build/third_party/brotli"));
    lines.push(search_directive(dst, "/build/third_party/highway"));
    if windows {
        lines.push(String::from_str("cargo:rustc-link-lib=static=jxl-static"));
        lines.push(String::from_str("cargo:rustc-link-lib=static=jxl_threads-static"));
    } else {
        lines.push(String::from_str("cargo:rustc-link-lib=static=jxl"));
        lines.push(String::from_str("cargo:rustc-link-lib=static=jxl_threads"));
    }
    lines.push(String::from_str("cargo:rustc-link-lib=static=brotlicommon-static"));
    lines.push(String::from_str("cargo:rustc-link-lib=static=brotlidec-static"));
    lines.push(String::from_str("cargo:rustc-link-lib=static=brotlienc-static"));
    lines.push(String::from_str("cargo:rustc-link-lib=static=hwy"));
    if !windows {
        lines.push(String::from_str("cargo:rustc-link-lib=dylib=stdc++"));
    }
    proof {
        assert(line_views(lines@) =~= link_lines(dst@, windows, debug_assertions));
    }
    lines
}

} // verus!
