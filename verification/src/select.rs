use vstd::prelude::*;
use crate::text::{same_text, trim, trimmed};

verus! {

/// Whether the option at `k` is the one that a picker's answer names: the
/// option, trimmed, reads exactly as the answer does.
pub open spec fn names_option(options: Seq<String>, k: int, answer: Seq<char>) -> bool {
    0 <= k < options.len() && trimmed(options[k]@) == answer
}

/// Whether `k` is the first option that the answer names.
pub open spec fn first_named(options: Seq<String>, k: int, answer: Seq<char>) -> bool {
    &&& names_option(options, k, answer)
    &&& forall|j: int| 0 <= j < k ==> !names_option(options, j, answer)
}

/// Decides whether an option, already trimmed, reads as the answer does.
pub fn matches_answer(trimmed_option: &str, answer: &str) -> (r: bool)
    ensures
        r == (trimmed_option@ == answer@),
{
    same_text(trimmed_option, answer)
}

/// Resolves the text that a picker handed back to the position of the option
/// it names: the first option that equals the text once the option is
/// trimmed. Gives `None` exactly when no option does; no position is ever
/// made up.
pub fn resolve_answer(options: &Vec<String>, answer: &str) -> (r: Option<usize>)
    ensures
        match r {
            Some(k) => first_named(options@, k as int, answer@),
            None => forall|j: int| 0 <= j < options@.len() ==> !names_option(options@, j, answer@),
        },
{
    let mut k: usize = 0;
    while k < options.len()
        invariant
            k <= options.len(),
            forall|j: int| 0 <= j < k ==> !names_option(options@, j, answer@),
        decreases options.len() - k,
    {
        if matches_answer(trim(options[k].as_str()), answer) {
            return Some(k);
        }
        k += 1;
    }
    None
}

/// Reads the setting that switches the outside picker on: only the text
/// `true` does.
pub fn picker_enabled(setting: &str) -> (r: bool)
    ensures
        r == (setting@ == "true"@),
{
    same_text(setting, "true")
}

} // verus!
