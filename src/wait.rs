//! The entry point of a wait: `Wait(options)`.
use crate::wait_options::WaitOptions;
use vstd::prelude::*;
use vstd::std_specs::convert::IntoSpec;

verus! {

/// A wait bound to its timing options.
pub struct Wait {
    pub options: WaitOptions,
}

/// A wait with the options that `options` converts into: whole seconds, a
/// span, or a pair of them (see `WaitOptions`).
#[allow(non_snake_case)]
pub fn Wait<T: Into<WaitOptions>>(options: T) -> (r: Wait)
    ensures
        T::obeys_into_spec() ==> r.options == options.into_spec(),
{
    Wait { options: options.into() }
}

} // verus!
