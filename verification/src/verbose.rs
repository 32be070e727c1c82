//! The verbose flag: set once at startup, read ever after.

use vstd::prelude::*;
use vstd::string::*;
use crate::text::join2;

verus! {

/// A flag that is set at most once. Before it is set it reads as off.
#[derive(Debug)]
pub struct VerboseFlag {
    value: Option<bool>,
}

impl View for VerboseFlag {
    type V = Option<bool>;

    closed spec fn view(&self) -> Option<bool> {
        self.value
    }
}

impl VerboseFlag {
    /// A flag that has not been set.
    pub fn new() -> (r: VerboseFlag)
        ensures
            r@ is None,
    {
        VerboseFlag { value: None }
    }

    /// Whether the flag has been set.
    pub fn is_initialized(&self) -> (r: bool)
        ensures
            r == (self@ is Some),
    {
        self.value.is_some()
    }
}

/// Sets the flag. It must not have been set before.
pub fn init_verbose(flag: &mut VerboseFlag, verbose: bool)
    requires
        old(flag)@ is None,
    ensures
        final(flag)@ == Some(verbose),
{
    flag.value = Some(verbose);
}

/// Whether verbose mode is on: the value the flag was set to, off where it
/// was never set.
pub fn is_verbose(flag: &VerboseFlag) -> (r: bool)
    ensures
        r == (flag@ == Some(true)),
{
    match flag.value {
        Some(verbose) => verbose,
        None => false,
    }
}

/// A message as an informational line.
pub fn info_line(message: &str) -> (r: String)
    ensures
        r@ == "[INFO]    "@ + message@,
{
    join2("[INFO]    ", message)
}

/// A message as a diagnostic line, where verbose mode is on.
pub fn verbose_line(flag: &VerboseFlag, message: &str) -> (r: Option<String>)
    ensures
        match r {
            Some(line) => flag@ == Some(true) && line@ == "[VERBOSE] "@ + message@,
            None => flag@ != Some(true),
        },
{
    if is_verbose(flag) {
        Some(join2("[VERBOSE] ", message))
    } else {
        None
    }
}

} // verus!
