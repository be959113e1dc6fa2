use vstd::prelude::*;

use crate::event::Point;

verus! {

/// Cached window geometry: size and position.
#[derive(Debug, Clone, Copy, PartialEq, Eq, Structural)]
pub struct WindowConfig {
    pub width: i32,
    pub height: i32,
    pub x: i32,
    pub y: i32,
}

/// The on-screen anchor of text composition.
#[derive(Debug, Clone, Copy, PartialEq, Eq, Structural)]
pub struct XimSpot {
    pub x: i16,
    pub y: i16,
}

/// State kept for translating the events of one window.
#[derive(Debug, Clone, Copy, PartialEq, Eq, Structural)]
pub struct WindowData {
    /// Geometry, absent until the first geometry notification.
    pub config: Option<WindowConfig>,
    pub ic_spot: XimSpot,
    /// Whether the window takes multi-touch input; fixed at registration.
    pub multitouch: bool,
    /// Last pointer position, absent until the first motion.
    pub cursor_pos: Option<Point>,
}

/// Whether a geometry notification reports a resize and a move: both the
/// first time, then each when its value differs from the cached one.
pub open spec fn geometry_changes(cached: Option<WindowConfig>, c: WindowConfig) -> (bool, bool) {
    match cached {
        None => (true, true),
        Some(o) => (o.width != c.width || o.height != c.height, o.x != c.x || o.y != c.y),
    }
}

impl WindowConfig {
    /// The geometry of a notification.
    pub fn new(width: i32, height: i32, x: i32, y: i32) -> (r: WindowConfig)
        ensures
            r == (WindowConfig { width, height, x, y }),
    {
        WindowConfig { width, height, x, y }
    }
}

impl WindowData {
    /// The state of a window that has just registered.
    pub fn new(multitouch: bool) -> (r: WindowData)
        ensures
            r == (WindowData {
                config: None,
                ic_spot: XimSpot { x: 0, y: 0 },
                multitouch,
                cursor_pos: None,
            }),
    {
        WindowData { config: None, ic_spot: XimSpot { x: 0, y: 0 }, multitouch, cursor_pos: None }
    }

    /// Caches a reported geometry and says whether it resized and moved.
    pub fn update_config(&mut self, c: WindowConfig) -> (r: (bool, bool))
        ensures
            r == geometry_changes(old(self).config, c),
            *final(self) == (WindowData { config: Some(c), ..*old(self) }),
    {
        let r = match self.config {
            None => (true, true),
            Some(o) => (o.width != c.width || o.height != c.height, o.x != c.x || o.y != c.y),
        };
        self.config = Some(c);
        r
    }

    /// Caches a pointer position and says whether it changed.
    pub fn update_cursor(&mut self, p: Point) -> (r: bool)
        ensures
            r == (old(self).cursor_pos != Some(p)),
            *final(self) == (WindowData { cursor_pos: Some(p), ..*old(self) }),
    {
        let r = match self.cursor_pos {
            None => true,
            Some(q) => q.x != p.x || q.y != p.y,
        };
        self.cursor_pos = Some(p);
        r
    }

    /// Caches a composition spot and says whether it changed.
    pub fn update_spot(&mut self, x: i16, y: i16) -> (r: bool)
        ensures
            r == (old(self).ic_spot != XimSpot { x, y }),
            *final(self) == (WindowData { ic_spot: XimSpot { x, y }, ..*old(self) }),
    {
        let r = self.ic_spot.x != x || self.ic_spot.y != y;
        self.ic_spot = XimSpot { x, y };
        r
    }
}

} // verus!
