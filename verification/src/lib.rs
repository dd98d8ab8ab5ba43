//! Resolves the icon of a running process, a window or an executable path
//! on a desktop system with packaged applications.
//!
//! The library holds every decision of the pipeline and never touches the
//! operating system itself: a caller performs the [`resolver::Action`] that
//! the resolver asks for and hands back what it observed.

use vstd::prelude::*;
use crate::resolver::{
    start_from_package, start_from_path, start_from_process, start_from_window, Action, Goal,
    Resolver,
};

pub mod bitmap;
pub mod classify;
pub mod codec;
pub mod guarantees;
pub mod manifest;
pub mod number;
pub mod path;
pub mod resolver;
pub mod scale;
pub mod text;

verus! {

/// The display scale, in percent, against which scaled icon assets are matched.
#[derive(Clone, Copy, Debug, PartialEq, Eq, Structural)]
pub struct IconMatcher {
    pub display_scale: i16,
}

impl Default for IconMatcher {
    fn default() -> (r: Self)
        ensures
            r.display_scale == 100,
    {
        IconMatcher { display_scale: 100 }
    }
}

/// The display scale that is matched against where the caller names none.
pub open spec fn default_scale() -> i16 {
    100
}

/// Begins to resolve the icon of the process that shows the window `hwnd`,
/// as pixels, for the default display scale.
pub fn get_icon_by_hwnd(hwnd: isize) -> (r: (Resolver, Action))
    ensures
        (r.0@, r.1@) == start_from_window(hwnd, Goal::Image, default_scale()),
{
    let icon_matcher = IconMatcher::default();
    get_icon_by_hwnd_matching(hwnd, &icon_matcher)
}

/// Begins to resolve the icon of the process that shows the window `hwnd`,
/// as pixels.
pub fn get_icon_by_hwnd_matching(hwnd: isize, icon_matcher: &IconMatcher) -> (r: (Resolver, Action))
    ensures
        (r.0@, r.1@) == start_from_window(hwnd, Goal::Image, icon_matcher.display_scale),
{
    Resolver::from_window(hwnd, Goal::Image, icon_matcher.display_scale)
}

/// Begins to resolve the icon of the process that shows the window `hwnd`,
/// as encoded text.
pub fn get_icon_base64_by_hwnd_matching(hwnd: isize, icon_matcher: &IconMatcher) -> (r: (
    Resolver,
    Action,
))
    ensures
        (r.0@, r.1@) == start_from_window(hwnd, Goal::Base64, icon_matcher.display_scale),
{
    Resolver::from_window(hwnd, Goal::Base64, icon_matcher.display_scale)
}

/// Begins to find the process that shows the window `hwnd`: its owner, or
/// the process behind it where the owner is a host wrapper.
pub fn get_process_id_by_hwnd(hwnd: isize) -> (r: (Resolver, Action))
    ensures
        (r.0@, r.1@) == start_from_window(hwnd, Goal::ProcessId, default_scale()),
{
    Resolver::from_window(hwnd, Goal::ProcessId, 100)
}

/// Begins to resolve the icon of the process `process_id`, as pixels, for
/// the default display scale.
pub fn get_icon_by_process_id(process_id: u32) -> (r: (Resolver, Action))
    ensures
        (r.0@, r.1@) == start_from_process(process_id, Goal::Image, default_scale()),
{
    let icon_matcher = IconMatcher::default();
    get_icon_by_process_id_matching(process_id, &icon_matcher)
}

/// Begins to resolve the icon of the process `process_id`, as pixels.
pub fn get_icon_by_process_id_matching(process_id: u32, icon_matcher: &IconMatcher) -> (r: (
    Resolver,
    Action,
))
    ensures
        (r.0@, r.1@) == start_from_process(process_id, Goal::Image, icon_matcher.display_scale),
{
    Resolver::from_process(process_id, Goal::Image, icon_matcher.display_scale)
}

/// Begins to resolve the icon of the process `process_id`, as encoded
/// text, for the default display scale.
pub fn get_icon_base64_by_process_id(process_id: u32) -> (r: (Resolver, Action))
    ensures
        (r.0@, r.1@) == start_from_process(process_id, Goal::Base64, default_scale()),
{
    let icon_matcher = IconMatcher::default();
    get_icon_base64_by_process_id_matching(process_id, &icon_matcher)
}

/// Begins to resolve the icon of the process `process_id`, as encoded text.
pub fn get_icon_base64_by_process_id_matching(process_id: u32, icon_matcher: &IconMatcher) -> (r: (
    Resolver,
    Action,
))
    ensures
        (r.0@, r.1@) == start_from_process(process_id, Goal::Base64, icon_matcher.display_scale),
{
    Resolver::from_process(process_id, Goal::Base64, icon_matcher.display_scale)
}

/// Begins to resolve the icon of the executable at `path`, as pixels, for
/// the default display scale.
pub fn get_icon_by_path(path: &str) -> (r: (Resolver, Action))
    ensures
        (r.0@, r.1@) == start_from_path(path@, Goal::Image, default_scale()),
{
    Resolver::from_path(path, Goal::Image, 100)
}

/// Begins to resolve the icon of the executable at `path`, as encoded
/// text, for the default display scale.
pub fn get_icon_base64_by_path(path: &str) -> (r: (Resolver, Action))
    ensures
        (r.0@, r.1@) == start_from_path(path@, Goal::Base64, default_scale()),
{
    let icon_matcher = IconMatcher::default();
    get_icon_base64_by_path_matching(path, &icon_matcher)
}

/// Begins to resolve the icon of the executable at `path`, as encoded text.
pub fn get_icon_base64_by_path_matching(path: &str, icon_matcher: &IconMatcher) -> (r: (
    Resolver,
    Action,
))
    ensures
        (r.0@, r.1@) == start_from_path(path@, Goal::Base64, icon_matcher.display_scale),
{
    Resolver::from_path(path, Goal::Base64, icon_matcher.display_scale)
}

/// Begins to resolve the icon of the packaged application whose entry
/// executable is at `process_path`, as pixels.
pub fn get_uwp_icon(process_path: &str, icon_matcher: &IconMatcher) -> (r: (Resolver, Action))
    ensures
        (r.0@, r.1@) == start_from_package(process_path@, Goal::Image, icon_matcher.display_scale),
{
    Resolver::from_package(process_path, Goal::Image, icon_matcher.display_scale)
}

/// Begins to resolve the icon of the packaged application whose entry
/// executable is at `process_path`, as encoded text.
pub fn get_uwp_icon_base64(process_path: &str, icon_matcher: &IconMatcher) -> (r: (
    Resolver,
    Action,
))
    ensures
        (r.0@, r.1@) == start_from_package(process_path@, Goal::Base64, icon_matcher.display_scale),
{
    Resolver::from_package(process_path, Goal::Base64, icon_matcher.display_scale)
}

} // verus!
