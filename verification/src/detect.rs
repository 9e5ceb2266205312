//! Recognising, in one line of the worker's output, the configuration file
//! that the worker says it uses.

use crate::model::text_of;
use crate::text::{
    chars_of, find, first_occurrence, lemma_first_occurrence, trim_bounds, trimmed,
};
use vstd::prelude::*;
use vstd::string::*;

verus! {

/// What stands before the path in the line that announces it.
pub open spec fn path_prefix() -> Seq<char> {
    "Using "@
}

/// What stands after the path in the line that announces it.
pub open spec fn path_suffix() -> Seq<char> {
    " as the config file"@
}

/// The path that `line` announces: what stands between the first
/// `"Using "` and the first `" as the config file"`, trimmed, provided both
/// are there and at least one character lies between them.
pub open spec fn config_path_in(line: Seq<char>) -> Option<Seq<char>> {
    match (first_occurrence(line, path_prefix()), first_occurrence(line, path_suffix())) {
        (Some(start), Some(end)) => {
            if start + path_prefix().len() < end {
                Some(trimmed(line.subrange(start + path_prefix().len(), end)))
            } else {
                None
            }
        },
        _ => None,
    }
}

/// Looks for an announced configuration path in `line`.
pub fn detect_config_path(line: &str) -> (found: Option<String>)
    ensures
        text_of(found) == config_path_in(line@),
{
    let chars = chars_of(line);
    let prefix = chars_of("Using ");
    let suffix = chars_of(" as the config file");
    let prefix_at = find(&chars, &prefix);
    let suffix_at = find(&chars, &suffix);
    match (prefix_at, suffix_at) {
        (Some(start), Some(end)) => {
            proof {
                // both markers lie within the line
                lemma_first_occurrence(chars@, prefix@);
                lemma_first_occurrence(chars@, suffix@);
                assert(end <= chars.len());
            }
            let path_start = start + prefix.len();
            if path_start < end {
                let (from, to) = trim_bounds(&chars, path_start, end);
                Some(line.substring_char(from, to).to_owned())
            } else {
                None
            }
        },
        _ => None,
    }
}

} // verus!
