//! The fixed preamble that opens every generated artifact.

use vstd::prelude::*;
use crate::text::{line_views, push_line};

verus! {

/// The preamble lines.
pub open spec fn spec_header_lines() -> Seq<Seq<char>> {
    seq!["#![allow(warnings, unused)]"@]
}

/// Emits the preamble.
pub fn generate(out: &mut Vec<String>)
    ensures
        line_views(final(out)@) == line_views(old(out)@) + spec_header_lines(),
{
    let ghost base = line_views(old(out)@);
    push_line(out, "#![allow(warnings, unused)]".to_owned());
    proof {
        assert(line_views(out@) =~= base + spec_header_lines());
    }
}

} // verus!
