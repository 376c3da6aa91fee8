//! Which kind of link a request leads to.

use vstd::prelude::*;
use crate::outcome::{LinkKind, SymlinkType};

verus! {

/// The kind of link to make: a forced kind stands whatever the source is,
/// and `Auto` follows the source.
pub open spec fn kind_for(requested: SymlinkType, source_is_dir: bool) -> LinkKind {
    match requested {
        SymlinkType::File => LinkKind::File,
        SymlinkType::Directory => LinkKind::Directory,
        SymlinkType::Auto => if source_is_dir {
            LinkKind::Directory
        } else {
            LinkKind::File
        },
    }
}

/// Whether the source has to be looked at before the kind is known.
pub open spec fn follows_source(requested: SymlinkType) -> bool {
    requested == SymlinkType::Auto
}

/// Whether the source has to be looked at before the kind is known.
pub fn needs_source_kind(requested: SymlinkType) -> (needed: bool)
    ensures
        needed == follows_source(requested),
{
    match requested {
        SymlinkType::Auto => true,
        SymlinkType::File => false,
        SymlinkType::Directory => false,
    }
}

/// The kind of link to make for a request, given whether its source is a
/// directory.
pub fn resolve_kind(requested: SymlinkType, source_is_dir: bool) -> (kind: LinkKind)
    ensures
        kind == kind_for(requested, source_is_dir),
{
    match requested {
        SymlinkType::File => LinkKind::File,
        SymlinkType::Directory => LinkKind::Directory,
        SymlinkType::Auto => {
            if source_is_dir {
                LinkKind::Directory
            } else {
                LinkKind::File
            }
        },
    }
}

} // verus!
