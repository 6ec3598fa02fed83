use vstd::prelude::*;

verus! {

/// A width and a height in whole pixels.
#[derive(Clone, Copy, Debug, PartialEq, Eq, Structural)]
pub struct Size {
    pub width: u32,
    pub height: u32,
}

/// A rectangle in device pixels, given by its top-left corner and its size.
#[derive(Clone, Copy, Debug, PartialEq, Eq, Structural)]
pub struct Rect {
    pub x: u32,
    pub y: u32,
    pub size: Size,
}

/// Whether `logical` scaled by `scale` fits in device pixels of `u32`.
pub open spec fn fits_scaled(logical: Size, scale: u32) -> bool {
    &&& logical.width * scale <= u32::MAX
    &&& logical.height * scale <= u32::MAX
}

/// The framebuffer size of a window: its logical size times the scale factor.
///
/// `None` where a side would not fit in `u32`.
pub fn framebuffer_size(logical: Size, scale: u32) -> (r: Option<Size>)
    ensures
        r is Some <==> fits_scaled(logical, scale),
        r matches Some(s) ==> s.width == logical.width * scale && s.height == logical.height
            * scale,
{
    match (logical.width.checked_mul(scale), logical.height.checked_mul(scale)) {
        (Some(width), Some(height)) => Some(Size { width, height }),
        _ => None,
    }
}

/// The window's rectangle in device pixels: the framebuffer, placed at the origin.
pub fn window_rect(logical: Size, scale: u32) -> (r: Option<Rect>)
    ensures
        r is Some <==> fits_scaled(logical, scale),
        r matches Some(rect) ==> rect.x == 0 && rect.y == 0 && rect.size.width == logical.width
            * scale && rect.size.height == logical.height * scale,
{
    match framebuffer_size(logical, scale) {
        Some(size) => Some(Rect { x: 0, y: 0, size }),
        None => None,
    }
}

/// The text the window's title bar shows for a page title: none clears it.
pub fn title_text(title: Option<String>) -> (r: String)
    ensures
        r@ == (match title {
            Some(t) => t@,
            None => Seq::<char>::empty(),
        }),
{
    match title {
        Some(t) => t,
        None => String::new(),
    }
}

/// A cursor shape that a page asks for, by its CSS name.
#[derive(Clone, Copy, Debug, PartialEq, Eq, Structural)]
pub enum CursorIntent {
    Hidden,
    Default,
    Pointer,
    ContextMenu,
    Help,
    Progress,
    Wait,
    Cell,
    Crosshair,
    Text,
    VerticalText,
    Alias,
    Copy,
    Move,
    NoDrop,
    NotAllowed,
    Grab,
    Grabbing,
    EResize,
    NResize,
    NeResize,
    NwResize,
    SResize,
    SeResize,
    SwResize,
    WResize,
    EwResize,
    NsResize,
    NeswResize,
    NwseResize,
    ColResize,
    RowResize,
    AllScroll,
    ZoomIn,
    ZoomOut,
}

/// The native cursor shapes this host uses.
#[derive(Clone, Copy, Debug, PartialEq, Eq, Structural)]
pub enum NativeCursor {
    Hand,
    Default,
}

/// The native cursor for a page's cursor intent: a hand over links, the default arrow
/// for everything else.
pub fn native_cursor(c: CursorIntent) -> (r: NativeCursor)
    ensures
        r == (if c == CursorIntent::Pointer {
            NativeCursor::Hand
        } else {
            NativeCursor::Default
        }),
{
    match c {
        CursorIntent::Pointer => NativeCursor::Hand,
        _ => NativeCursor::Default,
    }
}

} // verus!
