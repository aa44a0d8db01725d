//! Fixed configuration: the window's logical geometry, the identifier under
//! which the host registers the window, and the plugin chain.

use vstd::prelude::*;

verus! {

/// Logical geometry of the panel window, in device-independent units.
///
/// `vertical_offset` is added to the vertically centred position, so a
/// negative value moves the window towards the top of the display.
#[derive(Clone, Copy, Debug, PartialEq, Eq, Structural)]
pub struct WindowSpec {
    pub logical_width: u32,
    pub logical_height: u32,
    pub vertical_offset: i32,
}

impl WindowSpec {
    /// The geometry that `fixed` returns.
    pub open spec fn fixed_spec() -> WindowSpec {
        WindowSpec { logical_width: 420u32, logical_height: 300u32, vertical_offset: -300i32 }
    }

    /// The one geometry this application uses: 420 by 300 logical units,
    /// placed 300 units above the vertical centre.
    pub fn fixed() -> (w: WindowSpec)
        ensures
            w == Self::fixed_spec(),
    {
        WindowSpec { logical_width: 420, logical_height: 300, vertical_offset: -300 }
    }
}

/// The identifier under which the host's window registry holds the panel.
pub fn main_window_label() -> (label: &'static str)
    ensures
        label@ == "main"@,
{
    "main"
}

/// How the autostart plugin registers the program with the login items of
/// one desktop platform.
#[derive(Clone, Copy, Debug, PartialEq, Eq, Structural)]
pub enum LauncherMode {
    LaunchAgent,
    AppleScript,
}

/// A member of the plugin chain.
#[derive(Clone, Copy, Debug, PartialEq, Eq, Structural)]
pub enum Plugin {
    Autostart,
    Process,
    Updater,
    Opener,
}

impl Plugin {
    /// The chain in the order in which its members are registered.
    pub open spec fn chain() -> Seq<Plugin> {
        seq![Plugin::Autostart, Plugin::Process, Plugin::Updater, Plugin::Opener]
    }

    /// Index of this plugin in the chain.
    pub open spec fn position(self) -> nat {
        match self {
            Plugin::Autostart => 0,
            Plugin::Process => 1,
            Plugin::Updater => 2,
            Plugin::Opener => 3,
        }
    }

    /// The plugin registered right after this one, if any.
    pub open spec fn successor(self) -> Option<Plugin> {
        if self.position() + 1 < Self::chain().len() {
            Some(Self::chain()[self.position() + 1int])
        } else {
            None
        }
    }

    /// The launcher mode handed to this plugin's initialization hook: only
    /// the autostart plugin takes one, and it is always the launch agent.
    pub open spec fn launcher_spec(self) -> Option<LauncherMode> {
        if self == Plugin::Autostart {
            Some(LauncherMode::LaunchAgent)
        } else {
            None
        }
    }

    /// The first plugin of the chain.
    pub fn first() -> (p: Plugin)
        ensures
            p == Self::chain()[0],
    {
        Plugin::Autostart
    }

    /// The plugin to register after this one; `None` after the last.
    pub fn next(self) -> (r: Option<Plugin>)
        ensures
            r == self.successor(),
    {
        match self {
            Plugin::Autostart => Some(Plugin::Process),
            Plugin::Process => Some(Plugin::Updater),
            Plugin::Updater => Some(Plugin::Opener),
            Plugin::Opener => None,
        }
    }

    /// The launcher mode for this plugin's initialization hook, if it takes
    /// one.
    pub fn launcher(self) -> (r: Option<LauncherMode>)
        ensures
            r == self.launcher_spec(),
    {
        match self {
            Plugin::Autostart => Some(LauncherMode::LaunchAgent),
            _ => None,
        }
    }
}

/// Every plugin sits in the chain at its position, so the chain names each
/// plugin exactly once.
pub proof fn lemma_chain_positions(p: Plugin)
    ensures
        Plugin::chain().len() == 4,
        p.position() < Plugin::chain().len(),
        Plugin::chain()[p.position() as int] == p,
{
}

} // verus!
