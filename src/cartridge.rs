use vstd::prelude::*;

verus! {

/// How the picture unit's four logical name tables fold onto its two
/// kilobytes of name-table memory.
#[derive(Clone, Copy, Debug, PartialEq, Eq, Structural)]
pub enum Mirroring {
    Vertical,
    Horizontal,
}

} // verus!
