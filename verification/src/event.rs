//! The value records that a tracking loop consumes and produces: the
//! geometry and identity of a foreground window as one sample, and the
//! change event published when the owning application changes.

use vstd::prelude::*;

verus! {

/// Screen geometry of a window: top-left corner, pixel dimensions and
/// whether the window is full screen.
#[derive(Clone, Copy, PartialEq, Eq, Structural, Debug)]
pub struct WindowPosition {
    pub x: i32,
    pub y: i32,
    pub width: i32,
    pub height: i32,
    pub is_full_screen: bool,
}

/// One successful foreground-window query: the owning application's
/// display name, the window's title and its geometry.
#[derive(Clone, Debug)]
pub struct WindowSample {
    pub app_name: String,
    pub window_title: String,
    pub position: WindowPosition,
}

/// Mathematical image of a [`WindowSample`]: both texts as character
/// sequences.
pub ghost struct WindowSampleView {
    pub app_name: Seq<char>,
    pub window_title: Seq<char>,
    pub position: WindowPosition,
}

impl View for WindowSample {
    type V = WindowSampleView;

    open spec fn view(&self) -> WindowSampleView {
        WindowSampleView {
            app_name: self.app_name@,
            window_title: self.window_title@,
            position: self.position,
        }
    }
}

} // verus!
