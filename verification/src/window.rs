//! Windows: fixed-size, pinned by window-manager size hints set atomically at
//! creation, each owning an optional drawing surface and per-kind event hook
//! slots.

use vstd::prelude::*;

use crate::error::MlxError;
use crate::image::Surface;

verus! {

/// Size-hint flag: the program specified a position.
pub const P_POSITION: i64 = 4;

/// Size-hint flag: the program specified a size.
pub const P_SIZE: i64 = 8;

/// Size-hint flag: the program specified a minimum size.
pub const P_MIN_SIZE: i64 = 16;

/// Size-hint flag: the program specified a maximum size.
pub const P_MAX_SIZE: i64 = 32;

/// Window-manager size hints. Equal size, minimum and maximum pin the window
/// at its creation dimensions, so the window manager refuses resizes.
#[derive(Debug, Clone, Copy, PartialEq, Eq, Structural)]
pub struct SizeHints {
    pub flags: i64,
    pub x: i32,
    pub y: i32,
    pub width: i32,
    pub height: i32,
    pub min_width: i32,
    pub min_height: i32,
    pub max_width: i32,
    pub max_height: i32,
}

/// The anti-resize hints for a window of `size_x * size_y` pixels: position,
/// size, minimum and maximum all set, and all three sizes equal.
pub open spec fn anti_resize_spec(size_x: u32, size_y: u32) -> SizeHints {
    SizeHints {
        flags: P_POSITION | P_SIZE | P_MIN_SIZE | P_MAX_SIZE,
        x: 0,
        y: 0,
        width: size_x as i32,
        height: size_y as i32,
        min_width: size_x as i32,
        min_height: size_y as i32,
        max_width: size_x as i32,
        max_height: size_y as i32,
    }
}

/// Build the hints that pin a window at exactly `(size_x, size_y)`. They are
/// meant to be handed to the window manager before the window is mapped.
pub fn anti_resize_hints(size_x: u32, size_y: u32) -> (h: SizeHints)
    requires
        size_x <= i32::MAX as u32,
        size_y <= i32::MAX as u32,
    ensures
        h == anti_resize_spec(size_x, size_y),
{
    SizeHints {
        flags: P_POSITION | P_SIZE | P_MIN_SIZE | P_MAX_SIZE,
        x: 0,
        y: 0,
        width: size_x as i32,
        height: size_y as i32,
        min_width: size_x as i32,
        min_height: size_y as i32,
        max_width: size_x as i32,
        max_height: size_y as i32,
    }
}

/// Law: for any accepted dimensions, the stored hints report exactly those
/// dimensions for size, minimum and maximum, and carry the flags under which
/// the window manager rejects resize attempts.
pub proof fn lemma_hints_pin_size(size_x: u32, size_y: u32)
    requires
        0 < size_x <= i32::MAX as u32,
        0 < size_y <= i32::MAX as u32,
    ensures
        anti_resize_spec(size_x, size_y).width == size_x,
        anti_resize_spec(size_x, size_y).height == size_y,
        anti_resize_spec(size_x, size_y).min_width == size_x,
        anti_resize_spec(size_x, size_y).min_height == size_y,
        anti_resize_spec(size_x, size_y).max_width == size_x,
        anti_resize_spec(size_x, size_y).max_height == size_y,
        anti_resize_spec(size_x, size_y).flags == P_POSITION | P_SIZE | P_MIN_SIZE | P_MAX_SIZE,
{
}

/// The event kinds a hook can be registered for.
#[derive(Debug, Clone, Copy, PartialEq, Eq, Structural)]
pub enum HookKind {
    Mouse,
    Key,
    Expose,
}

/// A window: its fixed dimensions, its title, the size hints stored at
/// creation, at most one hook parameter per event kind, and the optionally
/// attached drawing surface. `destroyed` marks a window torn down by the
/// window manager or by the caller; operations on it are reported errors.
#[derive(Debug)]
pub struct MlxWindow {
    pub width: u32,
    pub height: u32,
    pub title: String,
    pub hints: SizeHints,
    pub mouse_hook: Option<u64>,
    pub key_hook: Option<u64>,
    pub expose_hook: Option<u64>,
    pub surface: Option<Surface>,
    pub destroyed: bool,
}

impl MlxWindow {
    /// Dimensions a window may be created with: positive, and small enough
    /// for the hint fields.
    pub open spec fn dims_ok(width: u32, height: u32) -> bool {
        0 < width <= i32::MAX as u32 && 0 < height <= i32::MAX as u32
    }

    /// Well-formed: accepted dimensions, the anti-resize hints stored at
    /// creation, and an attached surface that matches the window's fixed
    /// size. The dimensions never change after creation.
    pub open spec fn wf(self) -> bool {
        &&& Self::dims_ok(self.width, self.height)
        &&& self.hints == anti_resize_spec(self.width, self.height)
        &&& match self.surface {
            Some(s) => s@.wf() && s@.width == self.width && s@.height == self.height,
            None => true,
        }
    }

    /// The hook parameter registered for `kind`, if any.
    pub open spec fn spec_hook(self, kind: HookKind) -> Option<u64> {
        match kind {
            HookKind::Mouse => self.mouse_hook,
            HookKind::Key => self.key_hook,
            HookKind::Expose => self.expose_hook,
        }
    }

    /// Create the window record: validated dimensions, anti-resize hints, no
    /// hooks, no surface. Refused dimensions are a creation error carrying
    /// them.
    pub fn new(width: u32, height: u32, title: &str) -> (r: Result<MlxWindow, MlxError>)
        ensures
            r is Ok <==> Self::dims_ok(width, height),
            r matches Ok(w) ==> w.wf() && w.width == width && w.height == height && w.title@
                == title@ && w.hints == anti_resize_spec(width, height) && w.mouse_hook is None
                && w.key_hook is None && w.expose_hook is None && w.surface is None
                && !w.destroyed,
            r matches Err(e) ==> e == (MlxError::WindowCreation { width, height }),
    {
        if width == 0 || height == 0 || width > i32::MAX as u32 || height > i32::MAX as u32 {
            return Err(MlxError::WindowCreation { width, height });
        }
        Ok(
            MlxWindow {
                width,
                height,
                title: title.to_owned(),
                hints: anti_resize_hints(width, height),
                mouse_hook: None,
                key_hook: None,
                expose_hook: None,
                surface: None,
                destroyed: false,
            },
        )
    }

    /// Register `param` as the hook for `kind`, replacing any earlier one: at
    /// most one hook per (window, kind).
    pub fn register_hook(&mut self, kind: HookKind, param: u64)
        ensures
            old(self).wf() ==> final(self).wf(),
            final(self).spec_hook(kind) == Some(param),
            forall|k: HookKind| k != kind ==> final(self).spec_hook(k) == old(self).spec_hook(k),
            final(self).width == old(self).width,
            final(self).height == old(self).height,
            final(self).title == old(self).title,
            final(self).hints == old(self).hints,
            final(self).surface == old(self).surface,
            final(self).destroyed == old(self).destroyed,
    {
        match kind {
            HookKind::Mouse => self.mouse_hook = Some(param),
            HookKind::Key => self.key_hook = Some(param),
            HookKind::Expose => self.expose_hook = Some(param),
        }
    }

    /// The hook parameter registered for `kind`, if any.
    pub fn hook(&self, kind: HookKind) -> (r: Option<u64>)
        ensures
            r == self.spec_hook(kind),
    {
        match kind {
            HookKind::Mouse => self.mouse_hook,
            HookKind::Key => self.key_hook,
            HookKind::Expose => self.expose_hook,
        }
    }

    /// Attach a fresh background-colored surface of the window's fixed size;
    /// `shared` follows the negotiated transport. Attaching to a destroyed
    /// window is a reported error, not a crash.
    pub fn attach_surface(&mut self, shared: bool) -> (r: Result<(), MlxError>)
        requires
            old(self).wf(),
        ensures
            final(self).wf(),
            r is Ok <==> (!old(self).destroyed && old(self).width * old(self).height
                <= usize::MAX),
            old(self).destroyed ==> r == Err::<(), MlxError>(MlxError::BadWindow) && *final(self)
                == *old(self),
            r is Ok ==> (match final(self).surface {
                Some(s) => s@.wf() && s@.width == old(self).width && s@.height == old(self).height
                    && s@.shared == shared && s@.pixels == Seq::new(
                    (old(self).width * old(self).height) as nat,
                    |i: int| crate::image::BACKGROUND,
                ),
                None => false,
            }) && *final(self) == (MlxWindow { surface: final(self).surface, ..*old(self) }),
            r matches Err(e) ==> *final(self) == *old(self) && (e == MlxError::BadWindow || e == (
            MlxError::SurfaceAllocation { width: old(self).width, height: old(self).height })),
    {
        if self.destroyed {
            return Err(MlxError::BadWindow);
        }
        match Surface::create(self.width, self.height, shared) {
            Ok(s) => {
                self.surface = Some(s);
                Ok(())
            },
            Err(e) => Err(e),
        }
    }

    /// Reset every pixel of the attached surface to the background value.
    /// A destroyed window or a missing surface is a reported error.
    pub fn clear(&mut self) -> (r: Result<(), MlxError>)
        requires
            old(self).wf(),
        ensures
            final(self).wf(),
            r is Ok <==> (!old(self).destroyed && old(self).surface is Some),
            old(self).destroyed ==> r == Err::<(), MlxError>(MlxError::BadWindow) && *final(self)
                == *old(self),
            !old(self).destroyed && old(self).surface is None ==> r == Err::<(), MlxError>(
                MlxError::NoSurface,
            ) && *final(self) == *old(self),
            r is Ok ==> (match (old(self).surface, final(self).surface) {
                (Some(s0), Some(s1)) => s1@ == s0@.cleared(),
                _ => false,
            }) && *final(self) == (MlxWindow { surface: final(self).surface, ..*old(self) }),
    {
        if self.destroyed {
            return Err(MlxError::BadWindow);
        }
        let surface = self.surface.take();
        match surface {
            Some(mut s) => {
                s.clear();
                self.surface = Some(s);
                Ok(())
            },
            None => {
                self.surface = None;
                Err(MlxError::NoSurface)
            },
        }
    }

    /// Write `color` at `(x, y)` of the attached surface, origin top left, y
    /// growing downward. Out-of-bounds coordinates (negative included) are a
    /// reported error and never write outside the buffer.
    pub fn pixel_put(&mut self, x: i32, y: i32, color: u32) -> (r: Result<(), MlxError>)
        requires
            old(self).wf(),
        ensures
            final(self).wf(),
            old(self).destroyed ==> r == Err::<(), MlxError>(MlxError::BadWindow) && *final(self)
                == *old(self),
            !old(self).destroyed && old(self).surface is None ==> r == Err::<(), MlxError>(
                MlxError::NoSurface,
            ) && *final(self) == *old(self),
            !old(self).destroyed ==> match old(self).surface {
                Some(s0) => {
                    &&& (r is Ok <==> s0@.in_bounds(x as int, y as int))
                    &&& s0@.in_bounds(x as int, y as int) ==> (match final(self).surface {
                        Some(s1) => s1@ == s0@.put(x as int, y as int, color),
                        None => false,
                    }) && *final(self) == (MlxWindow { surface: final(self).surface, ..*old(self) })
                    &&& !s0@.in_bounds(x as int, y as int) ==> r == Err::<(), MlxError>(
                        MlxError::OutOfBounds,
                    ) && *final(self) == *old(self)
                },
                None => true,
            },
    {
        if self.destroyed {
            return Err(MlxError::BadWindow);
        }
        if x < 0 || y < 0 {
            if self.surface.is_none() {
                return Err(MlxError::NoSurface);
            }
            return Err(MlxError::OutOfBounds);
        }
        let surface = self.surface.take();
        match surface {
            Some(mut s) => {
                proof {
                    assert(x as u32 as int == x as int);
                    assert(y as u32 as int == y as int);
                }
                let r = s.put_pixel(x as u32, y as u32, color);
                self.surface = Some(s);
                r
            },
            None => {
                self.surface = None;
                Err(MlxError::NoSurface)
            },
        }
    }

    /// Read the color at `(x, y)` of the attached surface, or nothing when
    /// there is no surface or the coordinate is out of bounds.
    pub fn get_pixel(&self, x: u32, y: u32) -> (r: Option<u32>)
        requires
            self.wf(),
        ensures
            r is Some <==> (!self.destroyed && match self.surface {
                Some(s) => s@.in_bounds(x as int, y as int),
                None => false,
            }),
            !self.destroyed ==> match self.surface {
                Some(s) => s@.in_bounds(x as int, y as int) ==> r == Some(
                    s@.pixel(x as int, y as int),
                ),
                None => r is None,
            },
    {
        if self.destroyed {
            return None;
        }
        match &self.surface {
            Some(s) => s.get_pixel(x, y),
            None => None,
        }
    }

    /// Mark the window destroyed and release its surface. The embedding
    /// program detaches any shared-memory segment at the same time.
    pub fn destroy(&mut self)
        ensures
            old(self).wf() ==> final(self).wf(),
            final(self).destroyed,
            final(self).surface is None,
            *final(self) == (MlxWindow { destroyed: true, surface: None, ..*old(self) }),
    {
        self.destroyed = true;
        self.surface = None;
    }
}

} // verus!
