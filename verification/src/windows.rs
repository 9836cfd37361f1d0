//! Display resolution: selecting the target display's working area from the
//! enumerated displays. Enumerating the displays themselves is the display
//! resolver collaborator's job, outside this library.

use vstd::prelude::*;

use crate::layout::{DisplayInfo, Rect};

verus! {

/// Errors of the display resolver; either aborts the whole batch before any
/// window-level work begins.
#[derive(Debug, Clone, Copy, PartialEq, Eq, Structural)]
pub enum DisplayError {
    /// The requested display index is out of range.
    DisplayNotFound,
    /// Display enumeration itself failed.
    DisplayQueryFailed,
}

/// Get the working area for a specific display, by index into the
/// enumeration order.
pub fn get_display_working_area(displays: &[DisplayInfo], display_index: u32) -> (r: Result<
    Rect,
    DisplayError,
>)
    ensures
        r is Ok <==> display_index < displays@.len(),
        r matches Ok(rect) ==> ({
            let wa = displays@[display_index as int].working_area;
            rect == (Rect { x: wa.x, y: wa.y, width: wa.width, height: wa.height })
        }),
        r matches Err(e) ==> e == DisplayError::DisplayNotFound,
{
    if (display_index as usize) < displays.len() {
        let d = &displays[display_index as usize];
        Ok(Rect::new(d.working_area.x, d.working_area.y, d.working_area.width, d.working_area.height))
    } else {
        Err(DisplayError::DisplayNotFound)
    }
}

} // verus!
