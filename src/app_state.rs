use vstd::prelude::*;

verus! {

/// A renderer that the application's event loop drives while it is active.
pub trait Drawable {
    /// Handle pending events and draw one frame.
    fn handle_events_and_draw(&mut self);

    /// Release what the renderer holds before the application is paused.
    fn suspend(&mut self);
}

/// Whether the application is paused or runs a renderer.
pub enum AppState<T: Drawable> {
    Paused,
    Active(T),
}

impl<T: Drawable> Default for AppState<T> {
    fn default() -> (r: Self)
        ensures
            r is Paused,
    {
        Self::Paused
    }
}

} // verus!
