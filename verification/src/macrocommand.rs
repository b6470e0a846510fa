use vstd::prelude::*;

verus! {

/// One scripted command: an operation name and its string argument. The
/// integer argument is carried by the script format but unused.
pub struct MacroCommand {
    pub name: String,
    pub arg: usize,
    pub argstr: String,
}

} // verus!
