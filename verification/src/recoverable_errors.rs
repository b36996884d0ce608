//! A function that may fail, and says why when it does.

use vstd::prelude::*;

verus! {

/// The answer 42 where `yes` holds, and else the complaint
/// `"this shit don't work"`.
pub fn maybe_do_something(yes: bool) -> (outcome: Result<u32, String>)
    ensures
        yes ==> outcome == Ok::<u32, String>(42),
        !yes ==> outcome is Err && outcome->Err_0@ == "this shit don't work"@,
{
    if yes {
        Ok(42)
    } else {
        Err("this shit don't work".to_string())
    }
}

} // verus!
