use vstd::prelude::*;

verus! {

/// The terminal sequence that clears the console: ESC followed by `c`,
/// which resets the terminal.
pub fn clear_console_code() -> (r: &'static str)
    ensures
        r@ == seq!['\u{1b}', 'c'],
{
    let code = "\u{1b}c";
    proof {
        reveal_strlit("\u{1b}c");
    }
    code
}

} // verus!
