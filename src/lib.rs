//! The decision logic of a native window that hosts a page-rendering engine:
//! how raw windowing events become engine events, and how the host answers the
//! engine's queries on size, cursor and title.

mod bridge;
mod host;
mod input;
mod lemmas;

pub use bridge::{
    actions_of, is_reload_key, next_state, Bridge, EngineEvent, HostAction, HostEvent,
    SessionState, RELOAD_KEY,
};
pub use host::{
    fits_scaled, framebuffer_size, native_cursor, title_text, window_rect, CursorIntent, NativeCursor, Rect,
    Size,
};
pub use input::{
    pixel_delta, pixel_delta_of, scroll_phase, scroll_phase_of, PixelDelta, ScrollPhase, TouchPhase, WheelDelta, LINE_HEIGHT,
};
pub use lemmas::{
    last_pointer, lemma_pointer_tracks_last_move, lemma_resize_notifies_then_resizes,
    lemma_session_handshake, lemma_wakes_drain, run, wakes,
};
