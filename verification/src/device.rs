//! Which devices the host absorbs.

use vstd::prelude::*;

verus! {

/// Name of the virtual device the host writes to.
pub const OUTPUT_DEVICE_NAME: &'static str = "Incro";

/// True when a device is to be grabbed: it reports keys, and it is not the
/// host's own output device.
pub open spec fn spec_is_absorbed(name: Option<Seq<char>>, has_keys: bool) -> bool {
    has_keys && name != Some(OUTPUT_DEVICE_NAME@)
}

/// Tells whether the host grabs a device of the given name, of which it
/// knows whether it reports keys.
pub fn is_absorbed(name: Option<&String>, has_keys: bool) -> (r: bool)
    ensures
        r == spec_is_absorbed(
            match name {
                Some(n) => Some(n@),
                None => None,
            },
            has_keys,
        ),
{
    if !has_keys {
        return false;
    }
    match name {
        Some(n) => {
            let own = OUTPUT_DEVICE_NAME.to_owned();
            !(*n == own)
        },
        None => true,
    }
}

} // verus!
