use std::collections::HashMap;
use vstd::prelude::*;

use crate::events::{FloatBits, MuiEvent};

verus! {

broadcast use vstd::std_specs::hash::group_hash_axioms;

/// An axis-aligned rectangle in desktop coordinates.
#[derive(Debug, Clone, Copy, PartialEq, Eq, Structural)]
pub struct Rect {
    pub x: i32,
    pub y: i32,
    pub w: u32,
    pub h: u32,
}

/// One fullscreen mode that a display offers.
#[derive(Debug, Clone, Copy, PartialEq, Eq, Structural)]
pub struct DisplayModeInfo {
    pub w: i32,
    pub h: i32,
    pub refresh_rate: FloatBits,
    pub pixel_density: FloatBits,
}

/// What is known of one display.
#[derive(Debug, Clone, PartialEq, Eq)]
pub struct DisplayInfo {
    pub name: String,
    pub bounds: Rect,
    pub usable_bounds: Rect,
    pub fullscreen_modes: Vec<DisplayModeInfo>,
    pub hdr_enabled: bool,
}

/// What a display event asks of the registry.
#[derive(Debug, Clone, Copy, PartialEq, Eq, Structural)]
pub enum DisplayAction {
    /// Query the new display and register it.
    Register(u32),
    /// Forget the display.
    Forget(u32),
    /// Query the display's bounds again and record them.
    RefreshBounds(u32),
}

pub open spec fn display_action_of(e: MuiEvent) -> Option<DisplayAction> {
    match e {
        MuiEvent::DisplayAdded(h) => Some(DisplayAction::Register(h.display)),
        MuiEvent::DisplayRemoved(h) => Some(DisplayAction::Forget(h.display)),
        MuiEvent::DisplayMoved(h) => Some(DisplayAction::RefreshBounds(h.display)),
        _ => None,
    }
}

/// The registry work that an application event calls for, if any.
pub fn display_action(e: &MuiEvent) -> (r: Option<DisplayAction>)
    ensures
        r == display_action_of(*e),
{
    match e {
        MuiEvent::DisplayAdded(h) => Some(DisplayAction::Register(h.display)),
        MuiEvent::DisplayRemoved(h) => Some(DisplayAction::Forget(h.display)),
        MuiEvent::DisplayMoved(h) => Some(DisplayAction::RefreshBounds(h.display)),
        _ => None,
    }
}

/// The displays known to the event translator, by the identity the
/// windowing library gives them.
pub struct DisplayRegistry {
    displays: HashMap<u32, DisplayInfo>,
}

impl View for DisplayRegistry {
    type V = Map<u32, DisplayInfo>;

    closed spec fn view(&self) -> Map<u32, DisplayInfo> {
        self.displays@
    }
}

impl DisplayRegistry {
    pub fn new() -> (r: DisplayRegistry)
        ensures
            r@ == Map::<u32, DisplayInfo>::empty(),
    {
        DisplayRegistry { displays: HashMap::new() }
    }

    /// Records `info` for `display`, replacing what was known of it.
    pub fn register(&mut self, display: u32, info: DisplayInfo)
        ensures
            final(self)@ == old(self)@.insert(display, info),
    {
        let _ = self.displays.insert(display, info);
    }

    /// Forgets `display`; returns whether it was known.
    pub fn forget(&mut self, display: u32) -> (r: bool)
        ensures
            r == old(self)@.contains_key(display),
            final(self)@ == old(self)@.remove(display),
    {
        self.displays.remove(&display).is_some()
    }

    /// Records new bounds for a known display and keeps the rest of what is
    /// known of it; returns whether the display was known. An unknown one is
    /// left unknown.
    pub fn refresh_bounds(&mut self, display: u32, bounds: Rect, usable_bounds: Rect) -> (r: bool)
        ensures
            r == old(self)@.contains_key(display),
            r ==> final(self)@ == old(self)@.insert(
                display,
                DisplayInfo { bounds, usable_bounds, ..old(self)@[display] },
            ),
            !r ==> final(self)@ == old(self)@,
    {
        match self.displays.remove(&display) {
            Some(info) => {
                let updated = DisplayInfo { bounds, usable_bounds, ..info };
                let _ = self.displays.insert(display, updated);
                proof {
                    assert(old(self)@.remove(display).insert(display, updated) =~= old(self)@.insert(
                        display,
                        updated,
                    ));
                }
                true
            },
            None => false,
        }
    }

    pub fn get(&self, display: u32) -> (r: Option<&DisplayInfo>)
        ensures
            match r {
                Some(info) => self@.contains_key(display) && *info == self@[display],
                None => !self@.contains_key(display),
            },
    {
        self.displays.get(&display)
    }
}

} // verus!
