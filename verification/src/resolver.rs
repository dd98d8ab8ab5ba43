//! The resolution of an icon as a state machine. The resolver decides; the
//! caller acts. Each step takes what the caller observed when it performed
//! the last action and gives the next action, until the action is
//! [`Action::Finish`].

use vstd::prelude::*;
use crate::bitmap::{conversion_error, converted, icon_to_image, NativeBitmap, Pixels, RgbaImage};
use crate::classify::{classify, first_other, get_app_type, get_real_process, host_wrapper_name, AppKind};
use crate::codec::{encode_icon, encoded_icon, load_image, loaded_image};
use crate::manifest::{extract_icon_path, logo_reference};
use crate::path::{file_name, find_name_start, join, join_path, parent, parent_dir};
use crate::scale::{match_icon_path, matched_icon, DirEntry};
use crate::text::{same_text, to_chars};
use crate::IconMatcher;

verus! {

/// How long one wait for a host wrapper to give way lasts, in milliseconds.
pub const WRAPPER_WAIT_MS: u32 = 1000;

/// How long the waits for a host wrapper may last together, in milliseconds.
pub const WRAPPER_BUDGET_MS: u32 = 10000;

/// How long the resolver backs off before it looks at the child windows of
/// a host wrapper a second time, in milliseconds.
pub const CHILD_BACKOFF_MS: u32 = 500;

/// What a resolution is to end with.
#[derive(Clone, Copy, Debug, PartialEq, Eq, Structural)]
pub enum Goal {
    /// The process behind a window.
    ProcessId,
    /// The icon as pixels.
    Image,
    /// The icon as a PNG file in base64 text.
    Base64,
}

/// What a resolution ended with.
#[derive(Debug)]
pub enum Outcome {
    ProcessId(u32),
    Image(RgbaImage),
    Encoded(String),
}

/// What a resolution ended with, as plain values.
pub enum OutcomeView {
    ProcessId(u32),
    Image(Pixels),
    Encoded(Seq<char>),
}

impl View for Outcome {
    type V = OutcomeView;

    open spec fn view(&self) -> OutcomeView {
        match self {
            Outcome::ProcessId(id) => OutcomeView::ProcessId(*id),
            Outcome::Image(image) => OutcomeView::Image(image@),
            Outcome::Encoded(text) => OutcomeView::Encoded(text@),
        }
    }
}

/// A process as the system knows it: its identifier and the name of its executable.
#[derive(Debug)]
pub struct ProcessInfo {
    pub id: u32,
    pub name: String,
}

/// What the caller observed when it performed an action.
#[derive(Debug)]
pub enum Event {
    /// The process that owns the window, if it was found.
    WindowOwner(Option<ProcessInfo>),
    /// The owners of the child windows, in the order of enumeration.
    ChildOwners(Vec<u32>),
    /// The time asked for has passed.
    Slept,
    /// The path of the executable of the process, if it was found.
    ProcessPath(Option<String>),
    /// Whether the file exists.
    FileExists(bool),
    /// The text of the file, if it could be read.
    Text(Option<String>),
    /// The entries of the directory, if it could be listed.
    Listing(Option<Vec<DirEntry>>),
    /// The bytes of the file, if it could be read.
    Bytes(Option<Vec<u8>>),
    /// The colour bitmap of the icon of the file, if the system gave one.
    NativeIcon(Option<NativeBitmap>),
}

/// What the caller is to do next.
#[derive(Debug)]
pub enum Action {
    /// Find the process that owns the window; answer with `Event::WindowOwner`.
    FindWindowOwner { window: isize },
    /// Find the owners of the child windows of the window; answer with `Event::ChildOwners`.
    ListChildOwners { window: isize },
    /// Let the time pass; answer with `Event::Slept`.
    Sleep { millis: u32 },
    /// Find the path of the executable of the process; answer with `Event::ProcessPath`.
    FindProcessPath { process_id: u32 },
    /// See whether the file exists; answer with `Event::FileExists`.
    CheckFile { path: String },
    /// Read the file as text; answer with `Event::Text`.
    ReadText { path: String },
    /// List the directory; answer with `Event::Listing`.
    ListDirectory { path: String },
    /// Read the file; answer with `Event::Bytes`.
    ReadBytes { path: String },
    /// Dump the colour bitmap of the icon of the file; answer with `Event::NativeIcon`.
    LoadNativeIcon { path: String },
    /// The resolution is over, with or without an outcome.
    Finish(Option<Outcome>),
}

/// An action, as plain values.
pub enum ActionView {
    FindWindowOwner { window: isize },
    ListChildOwners { window: isize },
    Sleep { millis: u32 },
    FindProcessPath { process_id: u32 },
    CheckFile { path: Seq<char> },
    ReadText { path: Seq<char> },
    ListDirectory { path: Seq<char> },
    ReadBytes { path: Seq<char> },
    LoadNativeIcon { path: Seq<char> },
    Finish(Option<OutcomeView>),
}

impl View for Action {
    type V = ActionView;

    open spec fn view(&self) -> ActionView {
        match self {
            Action::FindWindowOwner { window } => ActionView::FindWindowOwner { window: *window },
            Action::ListChildOwners { window } => ActionView::ListChildOwners { window: *window },
            Action::Sleep { millis } => ActionView::Sleep { millis: *millis },
            Action::FindProcessPath { process_id } => ActionView::FindProcessPath {
                process_id: *process_id,
            },
            Action::CheckFile { path } => ActionView::CheckFile { path: path@ },
            Action::ReadText { path } => ActionView::ReadText { path: path@ },
            Action::ListDirectory { path } => ActionView::ListDirectory { path: path@ },
            Action::ReadBytes { path } => ActionView::ReadBytes { path: path@ },
            Action::LoadNativeIcon { path } => ActionView::LoadNativeIcon { path: path@ },
            Action::Finish(outcome) => ActionView::Finish(
                match outcome {
                    Some(o) => Some(o@),
                    None => None,
                },
            ),
        }
    }
}

/// Where a resolution stands: what it has asked for and waits to hear.
#[derive(Debug)]
enum Phase {
    WindowOwner { window: isize },
    ChildOwners { window: isize, wrapper: u32, retried: bool },
    Backoff { window: isize, wrapper: u32 },
    ProcessPath { process_id: u32, waited: u32 },
    WrapperWait { process_id: u32, waited: u32 },
    ShortcutCheck { package: String, shortcut: String },
    Manifest { package: String },
    Listing { nominal: String },
    Asset,
    NativeIcon,
    Finished,
}

/// Where a resolution stands, as plain values.
pub enum PhaseView {
    /// The owner of the window was asked for.
    WindowOwner { window: isize },
    /// The owners of the child windows of the host wrapper were asked for;
    /// `retried` says whether this is the second time.
    ChildOwners { window: isize, wrapper: u32, retried: bool },
    /// The resolver backs off before it asks for the child windows again.
    Backoff { window: isize, wrapper: u32 },
    /// The path of the process was asked for, after `waited` milliseconds
    /// of waiting for a host wrapper to give way.
    ProcessPath { process_id: u32, waited: u32 },
    /// The resolver waits for a host wrapper to give way; `waited` counts
    /// this wait already.
    WrapperWait { process_id: u32, waited: u32 },
    /// The shortcut icon of the package was looked for.
    ShortcutCheck { package: Seq<char>, shortcut: Seq<char> },
    /// The manifest of the package was asked for.
    Manifest { package: Seq<char> },
    /// The directory of the nominal icon was asked for.
    Listing { nominal: Seq<char> },
    /// The bytes of the chosen asset were asked for.
    Asset,
    /// The native icon of the executable was asked for.
    NativeIcon,
    /// The resolution is over.
    Finished,
}

impl View for Phase {
    type V = PhaseView;

    closed spec fn view(&self) -> PhaseView {
        match self {
            Phase::WindowOwner { window } => PhaseView::WindowOwner { window: *window },
            Phase::ChildOwners { window, wrapper, retried } => PhaseView::ChildOwners {
                window: *window,
                wrapper: *wrapper,
                retried: *retried,
            },
            Phase::Backoff { window, wrapper } => PhaseView::Backoff {
                window: *window,
                wrapper: *wrapper,
            },
            Phase::ProcessPath { process_id, waited } => PhaseView::ProcessPath {
                process_id: *process_id,
                waited: *waited,
            },
            Phase::WrapperWait { process_id, waited } => PhaseView::WrapperWait {
                process_id: *process_id,
                waited: *waited,
            },
            Phase::ShortcutCheck { package, shortcut } => PhaseView::ShortcutCheck {
                package: package@,
                shortcut: shortcut@,
            },
            Phase::Manifest { package } => PhaseView::Manifest { package: package@ },
            Phase::Listing { nominal } => PhaseView::Listing { nominal: nominal@ },
            Phase::Asset => PhaseView::Asset,
            Phase::NativeIcon => PhaseView::NativeIcon,
            Phase::Finished => PhaseView::Finished,
        }
    }
}

/// A resolution under way.
#[derive(Debug)]
pub struct Resolver {
    goal: Goal,
    scale: i16,
    phase: Phase,
}

/// A resolution under way, as plain values: what it is to end with, the
/// display scale it matches against, and where it stands.
pub struct ResolverView {
    pub goal: Goal,
    pub scale: i16,
    pub phase: PhaseView,
}

impl View for Resolver {
    type V = ResolverView;

    closed spec fn view(&self) -> ResolverView {
        ResolverView { goal: self.goal, scale: self.scale, phase: self.phase@ }
    }
}

/// A resolver and the action it asks for.
pub type Step = (ResolverView, ActionView);

/// The resolver `state` in another phase.
pub open spec fn in_phase(state: ResolverView, phase: PhaseView) -> ResolverView {
    ResolverView { goal: state.goal, scale: state.scale, phase }
}

/// A resolver that has asked for nothing yet.
pub open spec fn fresh(goal: Goal, scale: i16) -> ResolverView {
    ResolverView { goal, scale, phase: PhaseView::Finished }
}

/// The end of a resolution.
pub open spec fn finish(state: ResolverView, outcome: Option<OutcomeView>) -> Step {
    (in_phase(state, PhaseView::Finished), ActionView::Finish(outcome))
}

/// The end of a resolution without an outcome.
pub open spec fn fail(state: ResolverView) -> Step {
    finish(state, None)
}

/// The end of a resolution that has its image: the image itself, or its
/// encoded form where the goal is text. Nothing where it cannot be encoded.
pub open spec fn deliver(state: ResolverView, image: Pixels) -> Step {
    if state.goal == Goal::Base64 {
        match encoded_icon(image) {
            Some(text) => finish(state, Some(OutcomeView::Encoded(text))),
            None => fail(state),
        }
    } else {
        finish(state, Some(OutcomeView::Image(image)))
    }
}

/// Asking for the path of a process, after `waited` milliseconds of waiting.
pub open spec fn seek_path(state: ResolverView, process_id: u32, waited: u32) -> Step {
    (
        in_phase(state, PhaseView::ProcessPath { process_id, waited }),
        ActionView::FindProcessPath { process_id },
    )
}

/// What follows once the process is known: the end, where the process is
/// all that was asked for, else the search for its path.
pub open spec fn with_process(state: ResolverView, process_id: u32) -> Step {
    if state.goal == Goal::ProcessId {
        finish(state, Some(OutcomeView::ProcessId(process_id)))
    } else {
        seek_path(state, process_id, 0)
    }
}

/// Asking for the native icon of the executable at `path`.
pub open spec fn fetch_native(state: ResolverView, path: Seq<char>) -> Step {
    (in_phase(state, PhaseView::NativeIcon), ActionView::LoadNativeIcon { path })
}

/// The path of the shortcut icon of a package folder.
pub open spec fn shortcut_path(package: Seq<char>) -> Seq<char> {
    join(join(package, "assets"@), "DesktopShortcut.ico"@)
}

/// The path of the manifest of a package folder.
pub open spec fn manifest_path(package: Seq<char>) -> Seq<char> {
    join(package, "AppxManifest.xml"@)
}

/// The first step into the package of the entry executable at `path`:
/// looking for its shortcut icon. A path that names no file, such as the
/// empty path or a bare root, has no package: the resolution ends without
/// an outcome.
pub open spec fn open_package(state: ResolverView, path: Seq<char>) -> Step {
    let package = parent(path);
    let shortcut = shortcut_path(package);
    if file_name(path).len() == 0 {
        fail(state)
    } else {
        (
            in_phase(state, PhaseView::ShortcutCheck { package, shortcut }),
            ActionView::CheckFile { path: shortcut },
        )
    }
}

/// Whether a host wrapper that was waited for during `waited` milliseconds
/// may be waited for once more.
pub open spec fn may_wait(waited: u32) -> bool {
    waited + WRAPPER_WAIT_MS <= WRAPPER_BUDGET_MS
}

/// What follows once the path is known. A packaged application is looked
/// up in its package, an ordinary executable gives its own icon. A host
/// wrapper is waited for while the process is known and the budget lasts,
/// and gives its own icon after that.
pub open spec fn with_path(state: ResolverView, path: Seq<char>, process: Option<(u32, u32)>) -> Step {
    match classify(path) {
        AppKind::HostWrapper => match process {
            Some((process_id, waited)) => if may_wait(waited) {
                (
                    in_phase(
                        state,
                        PhaseView::WrapperWait {
                            process_id,
                            waited: (waited + WRAPPER_WAIT_MS) as u32,
                        },
                    ),
                    ActionView::Sleep { millis: WRAPPER_WAIT_MS },
                )
            } else {
                fetch_native(state, path)
            },
            None => fetch_native(state, path),
        },
        AppKind::PackagedApplication => open_package(state, path),
        AppKind::OrdinaryExecutable => fetch_native(state, path),
    }
}

/// The first step of a resolution that starts from a window: asking for
/// the process that owns it.
pub open spec fn start_from_window(window: isize, goal: Goal, scale: i16) -> Step {
    (
        in_phase(fresh(goal, scale), PhaseView::WindowOwner { window }),
        ActionView::FindWindowOwner { window },
    )
}

/// The first step of a resolution that starts from a process.
pub open spec fn start_from_process(process_id: u32, goal: Goal, scale: i16) -> Step {
    with_process(fresh(goal, scale), process_id)
}

/// The first step of a resolution that starts from a path. No process is
/// known, so a host wrapper is not waited for.
pub open spec fn start_from_path(path: Seq<char>, goal: Goal, scale: i16) -> Step {
    with_path(fresh(goal, scale), path, None)
}

/// The first step of a resolution that starts in the package of the entry
/// executable at `path`, whatever kind of path that is.
pub open spec fn start_from_package(path: Seq<char>, goal: Goal, scale: i16) -> Step {
    open_package(fresh(goal, scale), path)
}

/// The entries of a listing; none where the directory could not be listed.
pub open spec fn entries_of(listing: Option<Vec<DirEntry>>) -> Seq<DirEntry> {
    match listing {
        Some(entries) => entries@,
        None => Seq::empty(),
    }
}

/// The asset to read for the nominal icon: the one that scale matching
/// chooses, else the nominal path as it stands.
pub open spec fn chosen_asset(nominal: Seq<char>, entries: Seq<DirEntry>, scale: i16) -> Seq<char> {
    match matched_icon(nominal, entries, scale) {
        Some(chosen) => chosen,
        None => nominal,
    }
}

/// The step that the resolver takes from `state` when it hears `event`.
/// Whatever is not the answer to what it asked for, or tells of a failure,
/// ends the resolution without an outcome.
pub open spec fn next(state: ResolverView, event: Event) -> Step {
    match (state.phase, event) {
        (PhaseView::WindowOwner { window }, Event::WindowOwner(Some(owner))) => {
            if owner.name@ == host_wrapper_name() {
                (
                    in_phase(
                        state,
                        PhaseView::ChildOwners { window, wrapper: owner.id, retried: false },
                    ),
                    ActionView::ListChildOwners { window },
                )
            } else {
                with_process(state, owner.id)
            }
        },
        (PhaseView::ChildOwners { window, wrapper, retried }, Event::ChildOwners(owners)) => {
            match first_other(owners@, wrapper) {
                Some(other) => with_process(state, other),
                None => if retried {
                    with_process(state, wrapper)
                } else {
                    (
                        in_phase(state, PhaseView::Backoff { window, wrapper }),
                        ActionView::Sleep { millis: CHILD_BACKOFF_MS },
                    )
                },
            }
        },
        (PhaseView::Backoff { window, wrapper }, Event::Slept) => (
            in_phase(state, PhaseView::ChildOwners { window, wrapper, retried: true }),
            ActionView::ListChildOwners { window },
        ),
        (PhaseView::ProcessPath { process_id, waited }, Event::ProcessPath(Some(path))) => with_path(
            state,
            path@,
            Some((process_id, waited)),
        ),
        (PhaseView::WrapperWait { process_id, waited }, Event::Slept) => seek_path(
            state,
            process_id,
            waited,
        ),
        (PhaseView::ShortcutCheck { package, shortcut }, Event::FileExists(exists)) => {
            if exists {
                (in_phase(state, PhaseView::Asset), ActionView::ReadBytes { path: shortcut })
            } else {
                (
                    in_phase(state, PhaseView::Manifest { package }),
                    ActionView::ReadText { path: manifest_path(package) },
                )
            }
        },
        (PhaseView::Manifest { package }, Event::Text(Some(text))) => {
            match logo_reference(text@) {
                Some(logo) => {
                    let nominal = join(package, logo);
                    (
                        in_phase(state, PhaseView::Listing { nominal }),
                        ActionView::ListDirectory { path: parent(nominal) },
                    )
                },
                None => fail(state),
            }
        },
        (PhaseView::Listing { nominal }, Event::Listing(listing)) => (
            in_phase(state, PhaseView::Asset),
            ActionView::ReadBytes { path: chosen_asset(nominal, entries_of(listing), state.scale) },
        ),
        (PhaseView::Asset, Event::Bytes(Some(bytes))) => match loaded_image(bytes@) {
            Some(image) => deliver(state, image),
            None => fail(state),
        },
        (PhaseView::NativeIcon, Event::NativeIcon(Some(bitmap))) => {
            if conversion_error(bitmap) is None {
                deliver(state, converted(bitmap))
            } else {
                fail(state)
            }
        },
        _ => fail(state),
    }
}

impl Resolver {
    /// A resolver that has asked for nothing yet.
    fn new(goal: Goal, scale: i16) -> (r: Resolver)
        ensures
            r@ == fresh(goal, scale),
    {
        Resolver { goal, scale, phase: Phase::Finished }
    }

    fn finish(self, outcome: Option<Outcome>) -> (r: (Resolver, Action))
        ensures
            (r.0@, r.1@) == finish(
                self@,
                match outcome {
                    Some(o) => Some(o@),
                    None => None,
                },
            ),
    {
        (
            Resolver { goal: self.goal, scale: self.scale, phase: Phase::Finished },
            Action::Finish(outcome),
        )
    }

    fn fail(self) -> (r: (Resolver, Action))
        ensures
            (r.0@, r.1@) == fail(self@),
    {
        self.finish(None)
    }

    fn deliver(self, image: RgbaImage) -> (r: (Resolver, Action))
        ensures
            (r.0@, r.1@) == deliver(self@, image@),
    {
        match self.goal {
            Goal::Base64 => match encode_icon(&image) {
                Some(text) => self.finish(Some(Outcome::Encoded(text))),
                None => self.fail(),
            },
            _ => self.finish(Some(Outcome::Image(image))),
        }
    }

    fn seek_path(self, process_id: u32, waited: u32) -> (r: (Resolver, Action))
        ensures
            (r.0@, r.1@) == seek_path(self@, process_id, waited),
    {
        (
            Resolver {
                goal: self.goal,
                scale: self.scale,
                phase: Phase::ProcessPath { process_id, waited },
            },
            Action::FindProcessPath { process_id },
        )
    }

    fn with_process(self, process_id: u32) -> (r: (Resolver, Action))
        ensures
            (r.0@, r.1@) == with_process(self@, process_id),
    {
        match self.goal {
            Goal::ProcessId => self.finish(Some(Outcome::ProcessId(process_id))),
            _ => self.seek_path(process_id, 0),
        }
    }

    fn fetch_native(self, path: &str) -> (r: (Resolver, Action))
        ensures
            (r.0@, r.1@) == fetch_native(self@, path@),
    {
        (
            Resolver { goal: self.goal, scale: self.scale, phase: Phase::NativeIcon },
            Action::LoadNativeIcon { path: path.to_owned() },
        )
    }

    fn open_package(self, path: &str) -> (r: (Resolver, Action))
        ensures
            (r.0@, r.1@) == open_package(self@, path@),
    {
        let chars = to_chars(path);
        if find_name_start(&chars) == chars.len() {
            return self.fail();
        }
        let package = parent_dir(path);
        let assets = join_path(package.as_str(), "assets");
        let shortcut = join_path(assets.as_str(), "DesktopShortcut.ico");
        let asked = shortcut.clone();
        (
            Resolver {
                goal: self.goal,
                scale: self.scale,
                phase: Phase::ShortcutCheck { package, shortcut },
            },
            Action::CheckFile { path: asked },
        )
    }

    fn with_path(self, path: &str, process: Option<(u32, u32)>) -> (r: (Resolver, Action))
        ensures
            (r.0@, r.1@) == with_path(self@, path@, process),
    {
        match get_app_type(path) {
            AppKind::HostWrapper => match process {
                Some((process_id, waited)) => {
                    if waited <= WRAPPER_BUDGET_MS - WRAPPER_WAIT_MS {
                        (
                            Resolver {
                                goal: self.goal,
                                scale: self.scale,
                                phase: Phase::WrapperWait {
                                    process_id,
                                    waited: waited + WRAPPER_WAIT_MS,
                                },
                            },
                            Action::Sleep { millis: WRAPPER_WAIT_MS },
                        )
                    } else {
                        self.fetch_native(path)
                    }
                },
                None => self.fetch_native(path),
            },
            AppKind::PackagedApplication => self.open_package(path),
            AppKind::OrdinaryExecutable => self.fetch_native(path),
        }
    }

    /// Begins a resolution from a window.
    pub fn from_window(window: isize, goal: Goal, scale: i16) -> (r: (Resolver, Action))
        ensures
            (r.0@, r.1@) == start_from_window(window, goal, scale),
    {
        (
            Resolver { goal, scale, phase: Phase::WindowOwner { window } },
            Action::FindWindowOwner { window },
        )
    }

    /// Begins a resolution from a process.
    pub fn from_process(process_id: u32, goal: Goal, scale: i16) -> (r: (Resolver, Action))
        ensures
            (r.0@, r.1@) == start_from_process(process_id, goal, scale),
    {
        Resolver::new(goal, scale).with_process(process_id)
    }

    /// Begins a resolution from the path of an executable.
    pub fn from_path(path: &str, goal: Goal, scale: i16) -> (r: (Resolver, Action))
        ensures
            (r.0@, r.1@) == start_from_path(path@, goal, scale),
    {
        Resolver::new(goal, scale).with_path(path, None)
    }

    /// Begins a resolution in the package of an entry executable.
    pub fn from_package(path: &str, goal: Goal, scale: i16) -> (r: (Resolver, Action))
        ensures
            (r.0@, r.1@) == start_from_package(path@, goal, scale),
    {
        Resolver::new(goal, scale).open_package(path)
    }

    /// Takes the step that follows `event`, the answer to the action that
    /// the resolver asked for last.
    pub fn step(self, event: Event) -> (r: (Resolver, Action))
        ensures
            (r.0@, r.1@) == next(self@, event),
    {
        let goal = self.goal;
        let scale = self.scale;
        match (self.phase, event) {
            (Phase::WindowOwner { window }, Event::WindowOwner(Some(owner))) => {
                let state = Resolver { goal, scale, phase: Phase::Finished };
                if same_text(owner.name.as_str(), "ApplicationFrameHost.exe") {
                    (
                        Resolver {
                            goal,
                            scale,
                            phase: Phase::ChildOwners { window, wrapper: owner.id, retried: false },
                        },
                        Action::ListChildOwners { window },
                    )
                } else {
                    state.with_process(owner.id)
                }
            },
            (Phase::ChildOwners { window, wrapper, retried }, Event::ChildOwners(owners)) => {
                let state = Resolver { goal, scale, phase: Phase::Finished };
                match get_real_process(wrapper, &owners) {
                    Some(other) => state.with_process(other),
                    None => if retried {
                        state.with_process(wrapper)
                    } else {
                        (
                            Resolver { goal, scale, phase: Phase::Backoff { window, wrapper } },
                            Action::Sleep { millis: CHILD_BACKOFF_MS },
                        )
                    },
                }
            },
            (Phase::Backoff { window, wrapper }, Event::Slept) => (
                Resolver {
                    goal,
                    scale,
                    phase: Phase::ChildOwners { window, wrapper, retried: true },
                },
                Action::ListChildOwners { window },
            ),
            (Phase::ProcessPath { process_id, waited }, Event::ProcessPath(Some(path))) => {
                let state = Resolver { goal, scale, phase: Phase::Finished };
                state.with_path(path.as_str(), Some((process_id, waited)))
            },
            (Phase::WrapperWait { process_id, waited }, Event::Slept) => {
                let state = Resolver { goal, scale, phase: Phase::Finished };
                state.seek_path(process_id, waited)
            },
            (Phase::ShortcutCheck { package, shortcut }, Event::FileExists(exists)) => {
                if exists {
                    (
                        Resolver { goal, scale, phase: Phase::Asset },
                        Action::ReadBytes { path: shortcut },
                    )
                } else {
                    let manifest = join_path(package.as_str(), "AppxManifest.xml");
                    (
                        Resolver { goal, scale, phase: Phase::Manifest { package } },
                        Action::ReadText { path: manifest },
                    )
                }
            },
            (Phase::Manifest { package }, Event::Text(Some(text))) => {
                let state = Resolver { goal, scale, phase: Phase::Finished };
                match extract_icon_path(text.as_str()) {
                    Some(logo) => {
                        let nominal = join_path(package.as_str(), logo.as_str());
                        let folder = parent_dir(nominal.as_str());
                        (
                            Resolver { goal, scale, phase: Phase::Listing { nominal } },
                            Action::ListDirectory { path: folder },
                        )
                    },
                    None => state.fail(),
                }
            },
            (Phase::Listing { nominal }, Event::Listing(listing)) => {
                let entries: Vec<DirEntry> = match listing {
                    Some(entries) => entries,
                    None => Vec::new(),
                };
                let matcher = IconMatcher { display_scale: scale };
                let chosen = match match_icon_path(nominal.as_str(), &entries, &matcher) {
                    Some(chosen) => chosen,
                    None => nominal,
                };
                (Resolver { goal, scale, phase: Phase::Asset }, Action::ReadBytes { path: chosen })
            },
            (Phase::Asset, Event::Bytes(Some(bytes))) => {
                let state = Resolver { goal, scale, phase: Phase::Finished };
                match load_image(&bytes) {
                    Some(image) => state.deliver(image),
                    None => state.fail(),
                }
            },
            (Phase::NativeIcon, Event::NativeIcon(Some(bitmap))) => {
                let state = Resolver { goal, scale, phase: Phase::Finished };
                match icon_to_image(&bitmap) {
                    Ok(image) => state.deliver(image),
                    Err(_) => state.fail(),
                }
            },
            _ => {
                let state = Resolver { goal, scale, phase: Phase::Finished };
                state.fail()
            },
        }
    }
}

} // verus!
