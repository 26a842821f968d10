//! The connection state: screen metadata, the negotiated shared-memory
//! capability, the window registry, and the event-dispatch step of the
//! cooperative event loop.

use vstd::prelude::*;

use crate::error::MlxError;
use crate::shm::{host_name_bytes, negotiate, opt_bytes, spec_negotiate, ShmCaps, ShmProbe};
use crate::window::{HookKind, MlxWindow};

verus! {

/// Screen metadata queried once from the display server at connection setup.
#[derive(Debug, Clone, Copy, PartialEq, Eq, Structural)]
pub struct ScreenInfo {
    /// Default screen index.
    pub screen: i32,
    /// Root window identifier of that screen.
    pub root: u64,
    /// Default color map identifier.
    pub cmap: u64,
    /// Negotiated color depth.
    pub depth: i32,
}

/// What the embedding program must do to show a surface in a window: which
/// transport to use and whether to flush the connection afterwards.
#[derive(Debug, Clone, Copy, PartialEq, Eq, Structural)]
pub struct BlitOp {
    /// Copy through the shared-memory transport rather than a plain image put.
    pub use_shm: bool,
    /// Flush the display connection after the copy.
    pub flush: bool,
    /// Width of the area to copy.
    pub width: u32,
    /// Height of the area to copy.
    pub height: u32,
}

/// A windowing-system event, already resolved to the registry handle of the
/// window it addresses.
#[derive(Debug, Clone, Copy, PartialEq, Eq, Structural)]
pub enum Event {
    Mouse { window: usize, x: i32, y: i32, button: u32 },
    Key { window: usize, keycode: u32 },
    Expose { window: usize },
}

impl Event {
    /// The registry handle of the window the event addresses.
    pub open spec fn spec_window(self) -> usize {
        match self {
            Event::Mouse { window, .. } => window,
            Event::Key { window, .. } => window,
            Event::Expose { window } => window,
        }
    }

    /// The hook kind the event is dispatched to.
    pub open spec fn spec_kind(self) -> HookKind {
        match self {
            Event::Mouse { .. } => HookKind::Mouse,
            Event::Key { .. } => HookKind::Key,
            Event::Expose { .. } => HookKind::Expose,
        }
    }
}

/// The callbacks a client registers. The dispatch step invokes them
/// synchronously, handing each the connection state, the window handle the
/// event addressed and the opaque parameter registered with the hook; `idle`
/// runs once per cycle when no event is pending.
pub trait Hooks {
    fn mouse(&mut self, mlx: &mut Mlx, window: usize, param: u64, x: i32, y: i32, button: u32);

    fn key(&mut self, mlx: &mut Mlx, window: usize, param: u64, keycode: u32);

    fn expose(&mut self, mlx: &mut Mlx, window: usize, param: u64);

    fn idle(&mut self, mlx: &mut Mlx);
}

/// The per-process connection state. Exactly one instance is meant to exist;
/// it owns every window created through it.
#[derive(Debug)]
pub struct Mlx {
    /// Default screen index.
    pub screen: i32,
    /// Root window identifier.
    pub root: u64,
    /// Default color map identifier.
    pub cmap: u64,
    /// Negotiated color depth.
    pub depth: i32,
    /// A private (non-shared) color map was allocated.
    pub private_cmap: bool,
    /// The windows created through this connection, addressed by index.
    pub windows: Vec<MlxWindow>,
    /// Shared-memory transport may be used.
    pub use_xshm: bool,
    /// Negotiated shared-memory pixmap format, or `NO_SHM_FORMAT`.
    pub pshm_format: i32,
    /// Flush the connection after every blit.
    pub do_flush: bool,
    /// Termination flag of the event loop; setting it is the sole
    /// cancellation mechanism.
    pub end_loop: bool,
}

impl Mlx {
    /// Well-formed: every registered window is well-formed.
    pub open spec fn wf(self) -> bool {
        forall|i: int| 0 <= i < self.windows@.len() ==> #[trigger] self.windows@[i].wf()
    }

    /// `h` names a live window.
    pub open spec fn valid_handle(self, h: int) -> bool {
        0 <= h < self.windows@.len() && !self.windows@[h].destroyed
    }

    /// The negotiated capability pair held in the state.
    pub open spec fn spec_caps(self) -> ShmCaps {
        ShmCaps { use_xshm: self.use_xshm, pshm_format: self.pshm_format }
    }

    /// The two states agree observably: equal scalar fields and equal window
    /// sequences.
    pub open spec fn state_eq(a: Mlx, b: Mlx) -> bool {
        &&& a.screen == b.screen
        &&& a.root == b.root
        &&& a.cmap == b.cmap
        &&& a.depth == b.depth
        &&& a.private_cmap == b.private_cmap
        &&& a.use_xshm == b.use_xshm
        &&& a.pshm_format == b.pshm_format
        &&& a.do_flush == b.do_flush
        &&& a.end_loop == b.end_loop
        &&& a.windows@ == b.windows@
    }

    /// Build the connection state from the screen description, the
    /// shared-memory probe, the machine's hostname and the display-target
    /// value. The capability pair is exactly the negotiated one.
    pub fn with_host(
        info: &ScreenInfo,
        probe: &ShmProbe,
        host: &Vec<u8>,
        display_target: &Option<Vec<u8>>,
    ) -> (m: Mlx)
        ensures
            m.wf(),
            m.screen == info.screen && m.root == info.root && m.cmap == info.cmap && m.depth
                == info.depth,
            !m.private_cmap,
            m.windows@.len() == 0,
            m.do_flush,
            !m.end_loop,
            m.spec_caps() == spec_negotiate(*probe, host@, opt_bytes(*display_target)),
    {
        let caps = negotiate(probe, host, display_target);
        Mlx {
            screen: info.screen,
            root: info.root,
            cmap: info.cmap,
            depth: info.depth,
            private_cmap: false,
            windows: Vec::new(),
            use_xshm: caps.use_xshm,
            pshm_format: caps.pshm_format,
            do_flush: true,
            end_loop: false,
        }
    }

    /// Build the connection state, querying the machine's own hostname for
    /// the locality check. Whatever hostname the machine reports, the
    /// capability pair is the negotiation's outcome for it; without a display
    /// target, or without extension support, the outcome does not depend on
    /// the hostname at all.
    pub fn new(info: &ScreenInfo, probe: &ShmProbe, display_target: &Option<Vec<u8>>) -> (m: Mlx)
        ensures
            m.wf(),
            m.screen == info.screen && m.root == info.root && m.cmap == info.cmap && m.depth
                == info.depth,
            !m.private_cmap,
            m.windows@.len() == 0,
            m.do_flush,
            !m.end_loop,
            exists|host: Seq<u8>|
                m.spec_caps() == #[trigger] spec_negotiate(*probe, host, opt_bytes(*display_target)),
            !probe.ext_supported ==> !m.use_xshm && m.pshm_format == crate::shm::NO_SHM_FORMAT,
            (match opt_bytes(*display_target) {
                Some(d) => d.len() == 0 || d[0] == 58u8,
                None => true,
            }) ==> m.spec_caps() == spec_negotiate(
                *probe,
                Seq::<u8>::empty(),
                opt_bytes(*display_target),
            ),
    {
        let host = host_name_bytes();
        let m = Self::with_host(info, probe, &host, display_target);
        proof {
            assert(m.spec_caps() == spec_negotiate(*probe, host@, opt_bytes(*display_target)));
            match opt_bytes(*display_target) {
                Some(d) => {
                    if d.len() == 0 || d[0] == 58u8 {
                        crate::shm::lemma_negotiate_host_irrelevant(
                            *probe,
                            host@,
                            Seq::<u8>::empty(),
                            opt_bytes(*display_target),
                        );
                    }
                },
                None => {
                    crate::shm::lemma_negotiate_host_irrelevant(
                        *probe,
                        host@,
                        Seq::<u8>::empty(),
                        opt_bytes(*display_target),
                    );
                },
            }
        }
        m
    }

    /// Create a window of exactly `size_x * size_y` pixels with the
    /// anti-resize hints stored, register it, and return its handle. Refused
    /// dimensions are a creation error carrying them; other windows are
    /// unaffected.
    pub fn new_window(&mut self, size_x: u32, size_y: u32, title: &str) -> (r: Result<
        usize,
        MlxError,
    >)
        requires
            old(self).wf(),
        ensures
            final(self).wf(),
            r is Ok <==> MlxWindow::dims_ok(size_x, size_y),
            r matches Ok(i) ==> i == old(self).windows@.len() && final(self).windows@.len() == old(
                self,
            ).windows@.len() + 1 && (forall|j: int|
                0 <= j < old(self).windows@.len() ==> final(self).windows@[j] == old(
                    self,
                ).windows@[j]) && ({
                let w = final(self).windows@[i as int];
                &&& w.width == size_x
                &&& w.height == size_y
                &&& w.title@ == title@
                &&& w.hints == crate::window::anti_resize_spec(size_x, size_y)
                &&& w.surface is None
                &&& !w.destroyed
                &&& w.mouse_hook is None
                &&& w.key_hook is None
                &&& w.expose_hook is None
            }) && *final(self) == (Mlx { windows: final(self).windows, ..*old(self) }),
            r matches Err(e) ==> e == (MlxError::WindowCreation { width: size_x, height: size_y })
                && *final(self) == *old(self),
    {
        match MlxWindow::new(size_x, size_y, title) {
            Ok(w) => {
                let i = self.windows.len();
                self.windows.push(w);
                Ok(i)
            },
            Err(e) => Err(e),
        }
    }

    /// Register `param` as the hook for `kind` on the window named by
    /// `handle`, replacing any earlier one. A dead handle is a reported
    /// error.
    pub fn register_hook(&mut self, handle: usize, kind: HookKind, param: u64) -> (r: Result<
        (),
        MlxError,
    >)
        requires
            old(self).wf(),
        ensures
            final(self).wf(),
            r is Ok <==> old(self).valid_handle(handle as int),
            !old(self).valid_handle(handle as int) ==> r == Err::<(), MlxError>(MlxError::BadWindow)
                && Mlx::state_eq(*final(self), *old(self)),
            r is Ok ==> ({
                let w0 = old(self).windows@[handle as int];
                let w1 = final(self).windows@[handle as int];
                &&& final(self).windows@ == old(self).windows@.update(handle as int, w1)
                &&& w1.spec_hook(kind) == Some(param)
                &&& forall|k: HookKind| k != kind ==> w1.spec_hook(k) == w0.spec_hook(k)
                &&& w1.width == w0.width && w1.height == w0.height && w1.title == w0.title
                    && w1.hints == w0.hints && w1.surface == w0.surface && w1.destroyed
                    == w0.destroyed
            }) && *final(self) == (Mlx { windows: final(self).windows, ..*old(self) }),
    {
        if handle >= self.windows.len() {
            return Err(MlxError::BadWindow);
        }
        let mut w = self.windows.remove(handle);
        if w.destroyed {
            let ghost snapshot = old(self).windows@;
            self.windows.insert(handle, w);
            proof {
                assert(self.windows@ =~= snapshot);
                assert forall|i: int| 0 <= i < self.windows@.len() implies #[trigger] self.windows@[
                i].wf() by {
                    assert(old(self).windows@[i].wf());
                }
            }
            return Err(MlxError::BadWindow);
        }
        w.register_hook(kind, param);
        self.windows.insert(handle, w);
        proof {
            assert(self.windows@ =~= old(self).windows@.update(
                handle as int,
                self.windows@[handle as int],
            ));
            assert forall|i: int| 0 <= i < self.windows@.len() implies #[trigger] self.windows@[
            i].wf() by {
                if i != handle as int {
                    assert(self.windows@[i] == old(self).windows@[i]);
                }
                assert(old(self).windows@[i].wf());
            }
        }
        Ok(())
    }

    /// Attach a fresh surface of the window's fixed size, shared-memory
    /// backed when the negotiated capability allows it.
    pub fn attach_surface(&mut self, handle: usize) -> (r: Result<(), MlxError>)
        requires
            old(self).wf(),
        ensures
            final(self).wf(),
            r is Ok <==> (old(self).valid_handle(handle as int) && old(self).windows@[handle as int].width
                * old(self).windows@[handle as int].height <= usize::MAX),
            !old(self).valid_handle(handle as int) ==> r == Err::<(), MlxError>(MlxError::BadWindow)
                && Mlx::state_eq(*final(self), *old(self)),
            r is Ok ==> ({
                let w0 = old(self).windows@[handle as int];
                let w1 = final(self).windows@[handle as int];
                &&& final(self).windows@ == old(self).windows@.update(handle as int, w1)
                &&& match w1.surface {
                    Some(s) => s@.wf() && s@.width == w0.width && s@.height == w0.height
                        && s@.shared == old(self).use_xshm && s@.pixels == Seq::new(
                        (w0.width * w0.height) as nat,
                        |i: int| crate::image::BACKGROUND,
                    ),
                    None => false,
                }
                &&& w1 == (MlxWindow { surface: w1.surface, ..w0 })
            }) && *final(self) == (Mlx { windows: final(self).windows, ..*old(self) }),
            r matches Err(e) ==> Mlx::state_eq(*final(self), *old(self)) && (e == MlxError::BadWindow || (
            old(self).valid_handle(handle as int) && e == (MlxError::SurfaceAllocation {
                width: old(self).windows@[handle as int].width,
                height: old(self).windows@[handle as int].height,
            }))),
    {
        if handle >= self.windows.len() {
            return Err(MlxError::BadWindow);
        }
        let use_shared = self.use_xshm;
        let mut w = self.windows.remove(handle);
        let ghost snapshot = old(self).windows@;
        let r = w.attach_surface(use_shared);
        self.windows.insert(handle, w);
        match r {
            Ok(()) => {
                proof {
                    assert(self.windows@ =~= snapshot.update(
                        handle as int,
                        self.windows@[handle as int],
                    ));
                    assert forall|i: int| 0 <= i < self.windows@.len() implies #[trigger] self.windows@[
                    i].wf() by {
                        if i != handle as int {
                            assert(self.windows@[i] == old(self).windows@[i]);
                        }
                        assert(old(self).windows@[i].wf());
                    }
                }
                Ok(())
            },
            Err(e) => {
                proof {
                    assert(self.windows@ =~= snapshot);
                }
                Err(e)
            },
        }
    }

    /// Write `color` at `(x, y)` of the surface attached to the window named
    /// by `handle`. Out-of-bounds coordinates never write outside the buffer.
    pub fn put_pixel(&mut self, handle: usize, x: i32, y: i32, color: u32) -> (r: Result<
        (),
        MlxError,
    >)
        requires
            old(self).wf(),
        ensures
            final(self).wf(),
            !old(self).valid_handle(handle as int) ==> r == Err::<(), MlxError>(MlxError::BadWindow)
                && Mlx::state_eq(*final(self), *old(self)),
            old(self).valid_handle(handle as int) ==> ({
                let w0 = old(self).windows@[handle as int];
                let w1 = final(self).windows@[handle as int];
                &&& final(self).windows@ == old(self).windows@.update(handle as int, w1)
                &&& *final(self) == (Mlx { windows: final(self).windows, ..*old(self) })
                &&& w0.surface is None ==> r == Err::<(), MlxError>(MlxError::NoSurface) && w1
                    == w0
                &&& match w0.surface {
                    Some(s0) => {
                        &&& (r is Ok <==> s0@.in_bounds(x as int, y as int))
                        &&& s0@.in_bounds(x as int, y as int) ==> (match w1.surface {
                            Some(s1) => s1@ == s0@.put(x as int, y as int, color),
                            None => false,
                        }) && w1 == (MlxWindow { surface: w1.surface, ..w0 })
                        &&& !s0@.in_bounds(x as int, y as int) ==> r == Err::<(), MlxError>(
                            MlxError::OutOfBounds,
                        ) && w1 == w0
                    },
                    None => true,
                }
            }),
    {
        if handle >= self.windows.len() {
            return Err(MlxError::BadWindow);
        }
        let mut w = self.windows.remove(handle);
        let ghost snapshot = old(self).windows@;
        if w.destroyed {
            self.windows.insert(handle, w);
            proof {
                assert(self.windows@ =~= snapshot);
                assert forall|i: int| 0 <= i < self.windows@.len() implies #[trigger] self.windows@[
                i].wf() by {
                    assert(old(self).windows@[i].wf());
                }
            }
            return Err(MlxError::BadWindow);
        }
        let r = w.pixel_put(x, y, color);
        self.windows.insert(handle, w);
        proof {
            assert(self.windows@ =~= snapshot.update(handle as int, self.windows@[handle as int]));
            assert forall|i: int| 0 <= i < self.windows@.len() implies #[trigger] self.windows@[
            i].wf() by {
                if i != handle as int {
                    assert(self.windows@[i] == old(self).windows@[i]);
                }
                assert(old(self).windows@[i].wf());
            }
        }
        r
    }

    /// Reset every pixel of the surface attached to the window named by
    /// `handle` to the background value.
    pub fn clear(&mut self, handle: usize) -> (r: Result<(), MlxError>)
        requires
            old(self).wf(),
        ensures
            final(self).wf(),
            r is Ok <==> (old(self).valid_handle(handle as int) && old(self).windows@[handle as int].surface
                is Some),
            !old(self).valid_handle(handle as int) ==> r == Err::<(), MlxError>(MlxError::BadWindow)
                && Mlx::state_eq(*final(self), *old(self)),
            old(self).valid_handle(handle as int) && old(self).windows@[handle as int].surface
                is None ==> r == Err::<(), MlxError>(MlxError::NoSurface) && Mlx::state_eq(
                *final(self),
                *old(self),
            ),
            r is Ok ==> ({
                let w0 = old(self).windows@[handle as int];
                let w1 = final(self).windows@[handle as int];
                &&& final(self).windows@ == old(self).windows@.update(handle as int, w1)
                &&& *final(self) == (Mlx { windows: final(self).windows, ..*old(self) })
                &&& match (w0.surface, w1.surface) {
                    (Some(s0), Some(s1)) => s1@ == s0@.cleared(),
                    _ => false,
                }
                &&& w1 == (MlxWindow { surface: w1.surface, ..w0 })
            }),
    {
        if handle >= self.windows.len() {
            return Err(MlxError::BadWindow);
        }
        let mut w = self.windows.remove(handle);
        let ghost snapshot = old(self).windows@;
        if w.destroyed {
            self.windows.insert(handle, w);
            proof {
                assert(self.windows@ =~= snapshot);
                assert forall|i: int| 0 <= i < self.windows@.len() implies #[trigger] self.windows@[
                i].wf() by {
                    assert(old(self).windows@[i].wf());
                }
            }
            return Err(MlxError::BadWindow);
        }
        let r = w.clear();
        self.windows.insert(handle, w);
        match r {
            Ok(()) => {
                proof {
                    assert(self.windows@ =~= snapshot.update(
                        handle as int,
                        self.windows@[handle as int],
                    ));
                    assert forall|i: int| 0 <= i < self.windows@.len() implies #[trigger] self.windows@[
                    i].wf() by {
                        if i != handle as int {
                            assert(self.windows@[i] == old(self).windows@[i]);
                        }
                        assert(old(self).windows@[i].wf());
                    }
                }
                Ok(())
            },
            Err(e) => {
                proof {
                    assert(self.windows@ =~= snapshot);
                }
                Err(e)
            },
        }
    }

    /// Read the color at `(x, y)` of the surface attached to the window named
    /// by `handle`, or nothing when the handle is dead, no surface is
    /// attached, or the coordinate is out of bounds.
    pub fn get_pixel(&self, handle: usize, x: u32, y: u32) -> (r: Option<u32>)
        requires
            self.wf(),
        ensures
            !self.valid_handle(handle as int) ==> r is None,
            self.valid_handle(handle as int) ==> match self.windows@[handle as int].surface {
                Some(s) => {
                    &&& (r is Some <==> s@.in_bounds(x as int, y as int))
                    &&& s@.in_bounds(x as int, y as int) ==> r == Some(
                        s@.pixel(x as int, y as int),
                    )
                },
                None => r is None,
            },
    {
        if handle >= self.windows.len() {
            return None;
        }
        let w = &self.windows[handle];
        w.get_pixel(x, y)
    }

    /// Describe the copy of the window's surface onto the screen: through
    /// shared memory when negotiated, with a flush when the global flag says
    /// so. The surface itself is untouched.
    pub fn blit(&self, handle: usize) -> (r: Result<BlitOp, MlxError>)
        requires
            self.wf(),
        ensures
            r is Ok <==> (self.valid_handle(handle as int) && self.windows@[handle as int].surface
                is Some),
            r matches Ok(op) ==> op.use_shm == self.use_xshm && op.flush == self.do_flush
                && op.width == self.windows@[handle as int].width && op.height
                == self.windows@[handle as int].height,
            r matches Err(e) ==> (e == MlxError::BadWindow <==> !self.valid_handle(
                handle as int,
            )) && (e == MlxError::NoSurface <==> (self.valid_handle(handle as int)
                && self.windows@[handle as int].surface is None)),
    {
        if handle >= self.windows.len() {
            return Err(MlxError::BadWindow);
        }
        let w = &self.windows[handle];
        if w.destroyed {
            return Err(MlxError::BadWindow);
        }
        match &w.surface {
            Some(_) => Ok(
                BlitOp {
                    use_shm: self.use_xshm,
                    flush: self.do_flush,
                    width: w.width,
                    height: w.height,
                },
            ),
            None => Err(MlxError::NoSurface),
        }
    }

    /// Mark the window destroyed and release its surface; its handle stays
    /// allocated so other handles keep their meaning.
    pub fn destroy_window(&mut self, handle: usize) -> (r: Result<(), MlxError>)
        requires
            old(self).wf(),
        ensures
            final(self).wf(),
            r is Ok <==> old(self).valid_handle(handle as int),
            !old(self).valid_handle(handle as int) ==> r == Err::<(), MlxError>(MlxError::BadWindow)
                && Mlx::state_eq(*final(self), *old(self)),
            r is Ok ==> ({
                let w0 = old(self).windows@[handle as int];
                let w1 = final(self).windows@[handle as int];
                &&& final(self).windows@ == old(self).windows@.update(handle as int, w1)
                &&& *final(self) == (Mlx { windows: final(self).windows, ..*old(self) })
                &&& w1 == (MlxWindow { destroyed: true, surface: None, ..w0 })
            }),
    {
        if handle >= self.windows.len() {
            return Err(MlxError::BadWindow);
        }
        let mut w = self.windows.remove(handle);
        let ghost snapshot = old(self).windows@;
        if w.destroyed {
            self.windows.insert(handle, w);
            proof {
                assert(self.windows@ =~= snapshot);
                assert forall|i: int| 0 <= i < self.windows@.len() implies #[trigger] self.windows@[
                i].wf() by {
                    assert(old(self).windows@[i].wf());
                }
            }
            return Err(MlxError::BadWindow);
        }
        w.destroy();
        self.windows.insert(handle, w);
        proof {
            assert(self.windows@ =~= snapshot.update(handle as int, self.windows@[handle as int]));
            assert forall|i: int| 0 <= i < self.windows@.len() implies #[trigger] self.windows@[
            i].wf() by {
                if i != handle as int {
                    assert(self.windows@[i] == old(self).windows@[i]);
                }
                assert(old(self).windows@[i].wf());
            }
        }
        Ok(())
    }

    /// Request that the event loop return to its caller; the flag is never
    /// cleared within the same loop invocation.
    pub fn request_stop(&mut self)
        ensures
            final(self).end_loop,
            *final(self) == (Mlx { end_loop: true, ..*old(self) }),
    {
        self.end_loop = true;
    }

    /// The number of registered window slots, destroyed ones included.
    pub fn window_count(&self) -> (n: usize)
        ensures
            n == self.windows@.len(),
    {
        self.windows.len()
    }

    /// The dispatch decision for an event: the parameter of the hook
    /// registered for the addressed window and the event's kind, or nothing
    /// when the handle is dead or no such hook is registered.
    pub open spec fn spec_dispatch(self, ev: Event) -> Option<u64> {
        if self.valid_handle(ev.spec_window() as int) {
            self.windows@[ev.spec_window() as int].spec_hook(ev.spec_kind())
        } else {
            None
        }
    }

    /// Compute the dispatch decision for `ev`.
    pub fn dispatch_target(&self, ev: &Event) -> (r: Option<u64>)
        ensures
            r == self.spec_dispatch(*ev),
    {
        let handle = match ev {
            Event::Mouse { window, .. } => *window,
            Event::Key { window, .. } => *window,
            Event::Expose { window } => *window,
        };
        if handle >= self.windows.len() {
            return None;
        }
        let w = &self.windows[handle];
        if w.destroyed {
            return None;
        }
        match ev {
            Event::Mouse { .. } => w.hook(HookKind::Mouse),
            Event::Key { .. } => w.hook(HookKind::Key),
            Event::Expose { .. } => w.hook(HookKind::Expose),
        }
    }

    /// One cycle of the event loop: dispatch `event` to the hook registered
    /// for its window and kind, or invoke the idle hook when no event is
    /// pending; an event with no registered hook is ignored. A stop request
    /// pending before the cycle, or made during it, is still pending when the
    /// cycle ends, so the loop returns only after the current dispatch step
    /// completes, never mid-callback.
    pub fn loop_step<H: Hooks>(&mut self, hooks: &mut H, event: Option<Event>)
        ensures
            old(self).end_loop ==> final(self).end_loop,
            (match event {
                Some(ev) => old(self).spec_dispatch(ev) is None,
                None => false,
            }) ==> *final(self) == *old(self),
    {
        let stop_was_requested = self.end_loop;
        match event {
            Some(ev) => {
                match self.dispatch_target(&ev) {
                    Some(param) => {
                        match ev {
                            Event::Mouse { window, x, y, button } => {
                                hooks.mouse(self, window, param, x, y, button);
                            },
                            Event::Key { window, keycode } => {
                                hooks.key(self, window, param, keycode);
                            },
                            Event::Expose { window } => {
                                hooks.expose(self, window, param);
                            },
                        }
                    },
                    None => {},
                }
            },
            None => {
                hooks.idle(self);
            },
        }
        if stop_was_requested && !self.end_loop {
            self.end_loop = true;
        }
    }
}

} // verus!
