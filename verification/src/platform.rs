use vstd::prelude::*;

use crate::input::InputEvent;
use crate::render::Frame;

verus! {

/// A window or other sink that shows frames and delivers input events.
pub trait Presenter {
    /// The size of the area that frames are shown in, as (width, height).
    fn size(&self) -> (u32, u32);

    /// Appends the pending input events to `events`; answers whether the application
    /// should stop.
    fn handle_events(&mut self, events: &mut Vec<InputEvent>) -> bool;

    /// Shows a frame.
    fn present(&mut self, frame: &Frame) -> Result<(), String>;
}

} // verus!
