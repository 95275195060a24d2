//! Source paths that belong to the recorder or to the Ruby runtime and are
//! therefore never traced.

use vstd::prelude::*;
use crate::text::{chars_of, contains_chars, contains_fragment, has_prefix, starts_with_chars};

verus! {

/// A path is internal when it starts with the interpreter's `<internal:`
/// marker or holds one of the fragments that name the recorder's own files,
/// the standard library or installed gems.
pub open spec fn is_ignored_path(path: Seq<char>) -> bool {
    ||| has_prefix(path, "<internal:"@)
    ||| contains_fragment(path, "codetracer_ruby_recorder.rb"@)
    ||| contains_fragment(path, "lib/ruby"@)
    ||| contains_fragment(path, "recorder.rb"@)
    ||| contains_fragment(path, "codetracer_pure_ruby_recorder.rb"@)
    ||| contains_fragment(path, "gems/"@)
}

/// Decides whether events at `path` are dropped before anything is recorded.
pub fn should_ignore_path(path: &str) -> (ignored: bool)
    ensures
        ignored == is_ignored_path(path@),
{
    let hay = chars_of(path);
    if starts_with_chars(&hay, &chars_of("<internal:")) {
        return true;
    }
    contains_chars(&hay, &chars_of("codetracer_ruby_recorder.rb"))
        || contains_chars(&hay, &chars_of("lib/ruby"))
        || contains_chars(&hay, &chars_of("recorder.rb"))
        || contains_chars(&hay, &chars_of("codetracer_pure_ruby_recorder.rb"))
        || contains_chars(&hay, &chars_of("gems/"))
}

} // verus!
