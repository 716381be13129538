//! Canonical window-event kinds and the raw change kinds they are
//! normalized from.

use vstd::prelude::*;

verus! {

/// Something that a user can do as part of an event: the canonical, closed
/// enumeration of window state changes that the recorder distinguishes.
#[derive(Clone, Copy, Debug, PartialEq, Eq, Structural)]
pub enum WindowEvent {
    Open,
    Close,
    /// Anything to do with window management: fullscreening, moving,
    /// floating toggles and the like.
    Move,
    Focus,
    TitleChange,
    Other,
}

/// The state-change reasons that the event source reports on a window
/// notification. `Unknown` stands for every reason outside the known
/// enumeration, so normalization is total.
#[derive(Clone, Copy, Debug, PartialEq, Eq, Structural)]
pub enum WindowChangeKind {
    New,
    Close,
    Focus,
    Title,
    FullscreenMode,
    Move,
    Floating,
    Urgent,
    Unknown,
}

impl WindowEvent {
    /// The lowercase-symbolic string form under which a kind is persisted.
    pub open spec fn label_spec(self) -> Seq<char> {
        match self {
            WindowEvent::Open => "open"@,
            WindowEvent::Close => "close"@,
            WindowEvent::Move => "move"@,
            WindowEvent::Focus => "focus"@,
            WindowEvent::TitleChange => "title_change"@,
            WindowEvent::Other => "other"@,
        }
    }

    /// The stable string form stored in the `event_source` column.
    pub fn to_string(&self) -> (r: String)
        ensures
            r@ == self.label_spec(),
    {
        let label: &str = match self {
            WindowEvent::Open => "open",
            WindowEvent::Close => "close",
            WindowEvent::Move => "move",
            WindowEvent::Focus => "focus",
            WindowEvent::TitleChange => "title_change",
            WindowEvent::Other => "other",
        };
        label.to_owned()
    }

    /// The fixed, total normalization table from raw change reasons to
    /// canonical kinds: several reasons collapse onto `Move`, and `Urgent`
    /// as well as every unknown reason collapses onto `Other`.
    pub open spec fn canonical_spec(change: WindowChangeKind) -> WindowEvent {
        match change {
            WindowChangeKind::New => WindowEvent::Open,
            WindowChangeKind::Close => WindowEvent::Close,
            WindowChangeKind::Focus => WindowEvent::Focus,
            WindowChangeKind::Title => WindowEvent::TitleChange,
            WindowChangeKind::FullscreenMode => WindowEvent::Move,
            WindowChangeKind::Move => WindowEvent::Move,
            WindowChangeKind::Floating => WindowEvent::Move,
            WindowChangeKind::Urgent => WindowEvent::Other,
            WindowChangeKind::Unknown => WindowEvent::Other,
        }
    }

    /// Maps a raw change reason to its canonical kind; total, never fails.
    pub fn from_change_kind(change: WindowChangeKind) -> (r: WindowEvent)
        ensures
            r == WindowEvent::canonical_spec(change),
    {
        match change {
            WindowChangeKind::New => WindowEvent::Open,
            WindowChangeKind::Close => WindowEvent::Close,
            WindowChangeKind::Focus => WindowEvent::Focus,
            WindowChangeKind::Title => WindowEvent::TitleChange,
            WindowChangeKind::FullscreenMode => WindowEvent::Move,
            WindowChangeKind::Move => WindowEvent::Move,
            WindowChangeKind::Floating => WindowEvent::Move,
            WindowChangeKind::Urgent => WindowEvent::Other,
            WindowChangeKind::Unknown => WindowEvent::Other,
        }
    }
}

} // verus!
