//! Resizing of windows that have no frame.

use crate::runtime::messages::WindowAction;
use crate::runtime::store::TaoWindowId;
use vstd::prelude::*;

verus! {

/// What a window is told so that it can be resized without a frame: nothing. CEF handles
/// its own input, so there is no widget to attach a handler to.
pub fn attach_resize_handler(window: TaoWindowId) -> (actions: Vec<WindowAction>)
    ensures
        actions@ == Seq::<WindowAction>::empty(),
{
    let _ = window;
    Vec::new()
}

} // verus!
