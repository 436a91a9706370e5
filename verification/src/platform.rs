//! Which entry path a build target has.
//!
//! A build is made for one target, and each target has one way in: the
//! process entry point on a desktop, the callback that the platform mediates
//! on a mobile device. The choice is made when the shell is built.

use vstd::prelude::*;

verus! {

/// What the shell is built for.
#[derive(Clone, Copy, Debug, PartialEq, Eq, Structural)]
pub enum Target {
    /// A desktop platform: the loader calls the process entry point.
    Desktop,
    /// A mobile platform: the platform calls a registered callback.
    Mobile,
}

/// A way into the shell.
#[derive(Clone, Copy, Debug, PartialEq, Eq, Structural)]
pub enum EntryPath {
    /// The native entry point of the process.
    ProcessEntry,
    /// The entry callback that a mobile platform mediates.
    MobileCallback,
}

/// The entry path of a build for `target`.
pub open spec fn entry_of(target: Target) -> EntryPath {
    match target {
        Target::Desktop => EntryPath::ProcessEntry,
        Target::Mobile => EntryPath::MobileCallback,
    }
}

/// Whether `path` leads into a build for `target`.
pub open spec fn reaches(target: Target, path: EntryPath) -> bool {
    path == entry_of(target)
}

/// The entry path of a build for `target`.
pub fn entry_path(target: Target) -> (path: EntryPath)
    ensures
        path == entry_of(target),
{
    match target {
        Target::Desktop => EntryPath::ProcessEntry,
        Target::Mobile => EntryPath::MobileCallback,
    }
}

/// A build has exactly one way in, and it is that of its target: the
/// callback and nothing else on a mobile target, the process entry point and
/// nothing else on a desktop target. No build has both.
pub proof fn lemma_one_entry_per_target(target: Target)
    ensures
        reaches(target, EntryPath::MobileCallback) <==> target == Target::Mobile,
        reaches(target, EntryPath::ProcessEntry) <==> target == Target::Desktop,
        !(reaches(target, EntryPath::MobileCallback) && reaches(target, EntryPath::ProcessEntry)),
        reaches(target, EntryPath::MobileCallback) || reaches(target, EntryPath::ProcessEntry),
{
}

} // verus!
