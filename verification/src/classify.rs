//! What kind of application a path names, and which process stands behind
//! the window of a host wrapper.

use vstd::prelude::*;
use crate::path::{file_name, find_name_start, slice_chars};
use crate::text::{contains, contains_chars, to_chars};

verus! {

/// The three kinds of application, each with its own way to an icon.
#[derive(Clone, Copy, Debug, PartialEq, Eq, Structural)]
pub enum AppKind {
    /// An executable that carries its own icon.
    OrdinaryExecutable,
    /// An application installed below the package root, described by a manifest.
    PackagedApplication,
    /// The generic process that hosts the window of a packaged application.
    HostWrapper,
}

/// The file name of the generic host-wrapper executable.
pub open spec fn host_wrapper_name() -> Seq<char> {
    "ApplicationFrameHost.exe"@
}

/// The folder name that marks the install root of packaged applications.
pub open spec fn package_root_marker() -> Seq<char> {
    "WindowsApps"@
}

/// The kind of the application at `path`. The host wrapper is looked for
/// first: it is not installed below the package root, and a path that
/// names it is a host wrapper wherever it lies.
pub open spec fn classify(path: Seq<char>) -> AppKind {
    if file_name(path) == host_wrapper_name() {
        AppKind::HostWrapper
    } else if contains(path, package_root_marker()) {
        AppKind::PackagedApplication
    } else {
        AppKind::OrdinaryExecutable
    }
}

/// Classifies the application at `path`.
pub fn get_app_type(path: &str) -> (r: AppKind)
    ensures
        r == classify(path@),
{
    let chars = to_chars(path);
    let start: usize = find_name_start(&chars);
    let name = slice_chars(&chars, start, chars.len());
    let wrapper = to_chars("ApplicationFrameHost.exe");
    if name.len() == wrapper.len() && contains_exactly(&name, &wrapper) {
        return AppKind::HostWrapper;
    }
    let marker = to_chars("WindowsApps");
    if contains_chars(&chars, &marker) {
        AppKind::PackagedApplication
    } else {
        AppKind::OrdinaryExecutable
    }
}

/// Whether two runs of characters of one length are the same.
fn contains_exactly(a: &Vec<char>, b: &Vec<char>) -> (r: bool)
    requires
        a@.len() == b@.len(),
    ensures
        r == (a@ == b@),
{
    let hit = crate::text::matches_at(a, b, 0);
    assert(a@.subrange(0, a@.len() as int) =~= a@);
    hit
}

/// The kind of an application depends on the text of its path and on
/// nothing else: classifying the same text again gives the same kind.
pub proof fn classification_is_stable(first: Seq<char>, second: Seq<char>)
    requires
        first == second,
    ensures
        classify(first) == classify(second),
{
}

/// The first of `owners` that is another process than `wrapper`.
pub open spec fn first_other(owners: Seq<u32>, wrapper: u32) -> Option<u32>
    decreases owners.len(),
{
    if owners.len() == 0 {
        None
    } else if owners[0] != wrapper {
        Some(owners[0])
    } else {
        first_other(owners.drop_first(), wrapper)
    }
}

/// Finds the process that a host wrapper stands for: given the owners of
/// the wrapper's child windows in the order of enumeration, the first owner
/// that is not the wrapper itself.
pub fn get_real_process(wrapper: u32, owners: &Vec<u32>) -> (r: Option<u32>)
    ensures
        r == first_other(owners@, wrapper),
{
    let mut i: usize = 0;
    assert(owners@.skip(0) =~= owners@);
    while i < owners.len()
        invariant
            i <= owners@.len(),
            first_other(owners@, wrapper) == first_other(owners@.skip(i as int), wrapper),
        decreases owners@.len() - i,
    {
        if owners[i] != wrapper {
            return Some(owners[i]);
        }
        assert(owners@.skip(i as int).drop_first() =~= owners@.skip(i + 1));
        i += 1;
    }
    None
}

/// What `first_other` finds is an owner other than the wrapper with none
/// but the wrapper before it; it finds nothing only where every owner is
/// the wrapper.
pub proof fn first_other_is_first(owners: Seq<u32>, wrapper: u32)
    ensures
        match first_other(owners, wrapper) {
            Some(other) => other != wrapper && exists|i: int|
                0 <= i < owners.len() && #[trigger] owners[i] == other && forall|j: int|
                    0 <= j < i ==> owners[j] == wrapper,
            None => forall|i: int| 0 <= i < owners.len() ==> owners[i] == wrapper,
        },
    decreases owners.len(),
{
    if owners.len() > 0 {
        if owners[0] != wrapper {
            assert(owners[0] == owners[0]);
        } else {
            let rest = owners.drop_first();
            first_other_is_first(rest, wrapper);
            match first_other(rest, wrapper) {
                Some(other) => {
                    let i = choose|i: int|
                        0 <= i < rest.len() && #[trigger] rest[i] == other && forall|j: int|
                            0 <= j < i ==> rest[j] == wrapper;
                    assert(owners[i + 1] == rest[i]);
                    assert forall|j: int| 0 <= j < i + 1 implies owners[j] == wrapper by {
                        if j > 0 {
                            assert(owners[j] == rest[j - 1]);
                        }
                    }
                },
                None => {
                    assert forall|i: int| 0 <= i < owners.len() implies owners[i] == wrapper by {
                        if i > 0 {
                            assert(owners[i] == rest[i - 1]);
                        }
                    }
                },
            }
        }
    }
}

} // verus!
