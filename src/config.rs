use vstd::prelude::*;

verus! {

/// User configuration of the fuzzel selector, as loaded from the configuration file.
#[derive(Clone, Debug, PartialEq, Eq)]
pub struct Fuzzel {
    pub line_length: usize,
    pub menu_length: usize,
    pub menu_prompt: String,
    pub extra_arguments: Vec<String>,
}

} // verus!
