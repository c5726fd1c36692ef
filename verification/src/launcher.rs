//! Which front end to start, by what the environment offers.

use vstd::prelude::*;

verus! {

/// The front ends.
#[derive(Debug, Clone, Copy, PartialEq, Eq, Structural)]
pub enum FrontEnd {
    /// Writes the state to a file.
    Statefile,
    /// An overlay for the gamescope compositor.
    Gamescope,
    /// An overlay on a Wayland layer shell.
    Wlroots,
    /// An overlay window on X11.
    X11,
    /// Prints the state to the terminal.
    Clispam,
}

/// The front end for an environment: the state file where one is asked
/// for, else gamescope, else Wayland, else X11, each where its display is
/// there, and the terminal where none is.
pub open spec fn front_end_for(statefile: bool, gamescope: bool, wayland: bool, x11: bool) -> FrontEnd {
    if statefile {
        FrontEnd::Statefile
    } else if gamescope {
        FrontEnd::Gamescope
    } else if wayland {
        FrontEnd::Wlroots
    } else if x11 {
        FrontEnd::X11
    } else {
        FrontEnd::Clispam
    }
}

/// The name of the program of a front end.
pub open spec fn executable_of(front_end: FrontEnd) -> Seq<char> {
    match front_end {
        FrontEnd::Statefile => "discern-statefile"@,
        FrontEnd::Gamescope => "discern-gamescope"@,
        FrontEnd::Wlroots => "discern-wlr"@,
        FrontEnd::X11 => "discern-x11"@,
        FrontEnd::Clispam => "discern-clispam"@,
    }
}

/// Picks the front end for an environment.
pub fn pick_front_end(statefile: bool, gamescope: bool, wayland: bool, x11: bool) -> (r: FrontEnd)
    ensures
        r == front_end_for(statefile, gamescope, wayland, x11),
{
    if statefile {
        FrontEnd::Statefile
    } else if gamescope {
        FrontEnd::Gamescope
    } else if wayland {
        FrontEnd::Wlroots
    } else if x11 {
        FrontEnd::X11
    } else {
        FrontEnd::Clispam
    }
}

/// The name of the program of a front end.
pub fn executable_name(front_end: FrontEnd) -> (r: &'static str)
    ensures
        r@ == executable_of(front_end),
{
    match front_end {
        FrontEnd::Statefile => "discern-statefile",
        FrontEnd::Gamescope => "discern-gamescope",
        FrontEnd::Wlroots => "discern-wlr",
        FrontEnd::X11 => "discern-x11",
        FrontEnd::Clispam => "discern-clispam",
    }
}

} // verus!
