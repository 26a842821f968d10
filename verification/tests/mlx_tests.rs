use mlx::error::MlxError;
use mlx::image::Surface;
use mlx::mlx::{Event, Hooks, Mlx, ScreenInfo};
use mlx::shm::{negotiate, starts_with_bytes, ShmProbe};
use mlx::window::{anti_resize_hints, HookKind, MlxWindow};

fn screen() -> ScreenInfo {
    ScreenInfo { screen: 0, root: 1, cmap: 2, depth: 24 }
}

fn no_shm() -> ShmProbe {
    ShmProbe { ext_supported: false, pixmaps_supported: false, pixmap_format: -1 }
}

fn full_shm() -> ShmProbe {
    ShmProbe { ext_supported: true, pixmaps_supported: true, pixmap_format: 2 }
}

#[test]
fn test() {
    let mlx = Mlx::new(&screen(), &no_shm(), &None);
    println!("{:?}", mlx);
    let hints = anti_resize_hints(10, 10);
    assert_eq!(hints.width, 10);
    assert_eq!(hints.height, 10);
}

#[test]
fn window_hints_pin_requested_size() {
    let mut mlx = Mlx::new(&screen(), &no_shm(), &None);
    let h = mlx.new_window(37, 53, "pinned").expect("creation");
    let w = &mlx.windows[h];
    assert_eq!(w.hints.x, 0);
    assert_eq!(w.hints.y, 0);
    assert_eq!(w.hints.width, 37);
    assert_eq!(w.hints.height, 53);
    assert_eq!(w.hints.min_width, 37);
    assert_eq!(w.hints.min_height, 53);
    assert_eq!(w.hints.max_width, 37);
    assert_eq!(w.hints.max_height, 53);
    assert_eq!(w.hints.flags, 4 | 8 | 16 | 32);
}

#[test]
fn put_pixel_then_read_returns_written_color() {
    let mut s = Surface::create(4, 3, false).expect("allocation");
    assert_eq!(s.put_pixel(2, 1, 0x00AB_CDEF), Ok(()));
    assert_eq!(s.get_pixel(2, 1), Some(0x00AB_CDEF));
    assert_eq!(s.get_pixel(3, 2), Some(0));
}

#[test]
fn out_of_bounds_put_is_error_and_leaves_buffer() {
    let mut s = Surface::create(4, 3, false).expect("allocation");
    assert_eq!(s.put_pixel(1, 1, 0x0000_0042), Ok(()));
    assert_eq!(s.put_pixel(4, 0, 7), Err(MlxError::OutOfBounds));
    assert_eq!(s.put_pixel(0, 3, 7), Err(MlxError::OutOfBounds));
    assert_eq!(s.width(), 4);
    assert_eq!(s.height(), 3);
    assert_eq!(s.get_pixel(1, 1), Some(0x0000_0042));
    assert_eq!(s.get_pixel(4, 0), None);
}

#[test]
fn clear_resets_every_pixel_to_background() {
    let mut s = Surface::create(3, 3, false).expect("allocation");
    for x in 0..3 {
        for y in 0..3 {
            assert_eq!(s.put_pixel(x, y, 0x00FF_00FF), Ok(()));
        }
    }
    s.clear();
    for x in 0..3 {
        for y in 0..3 {
            assert_eq!(s.get_pixel(x, y), Some(mlx::image::BACKGROUND));
        }
    }
}

#[test]
fn negotiation_is_idempotent() {
    let probe = full_shm();
    let host: Vec<u8> = b"worker".to_vec();
    let dpy: Option<Vec<u8>> = Some(b"elsewhere:0".to_vec());
    let first = negotiate(&probe, &host, &dpy);
    let second = negotiate(&probe, &host, &dpy);
    assert_eq!(first, second);
    let local: Option<Vec<u8>> = Some(b":0".to_vec());
    assert_eq!(negotiate(&probe, &host, &local), negotiate(&probe, &host, &local));
}

#[test]
fn remote_display_disables_shared_memory() {
    let probe = full_shm();
    let host: Vec<u8> = b"myhost".to_vec();
    let remote: Option<Vec<u8>> = Some(b"otherhost:0".to_vec());
    let caps = negotiate(&probe, &host, &remote);
    assert!(!caps.use_xshm);
    assert_eq!(caps.pshm_format, mlx::shm::NO_SHM_FORMAT);
}

#[test]
fn local_display_forms_keep_shared_memory() {
    let probe = full_shm();
    let host: Vec<u8> = b"myhost".to_vec();
    for dpy in [&b":0"[..], &b"localhost:0"[..], &b"myhost:0"[..]] {
        let caps = negotiate(&probe, &host, &Some(dpy.to_vec()));
        assert!(caps.use_xshm);
        assert_eq!(caps.pshm_format, 2);
    }
    let caps = negotiate(&probe, &host, &None);
    assert!(caps.use_xshm);
}

#[test]
fn unsupported_extension_degrades_silently() {
    let caps = negotiate(&no_shm(), &b"myhost".to_vec(), &None);
    assert!(!caps.use_xshm);
    assert_eq!(caps.pshm_format, mlx::shm::NO_SHM_FORMAT);
}

#[test]
fn byte_prefix_matching() {
    assert!(starts_with_bytes(&b"localhost:0".to_vec(), &b"localhost".to_vec()));
    assert!(starts_with_bytes(&b"abc".to_vec(), &b"".to_vec()));
    assert!(!starts_with_bytes(&b"ab".to_vec(), &b"abc".to_vec()));
    assert!(!starts_with_bytes(&b"axc".to_vec(), &b"ab".to_vec()));
}

#[test]
fn end_to_end_draw_and_blit() {
    let mut mlx = Mlx::new(&screen(), &no_shm(), &None);
    let h = mlx.new_window(100, 100, "test").expect("creation");
    mlx.attach_surface(h).expect("attach");
    assert_eq!(mlx.put_pixel(h, 0, 0, 0x00FF_0000), Ok(()));
    let op = mlx.blit(h).expect("blit");
    assert!(!op.use_shm);
    assert!(op.flush);
    assert_eq!(op.width, 100);
    assert_eq!(op.height, 100);
    assert_eq!(mlx.get_pixel(h, 0, 0), Some(0x00FF_0000));
}

struct IdleCounter {
    counter: u32,
}

impl Hooks for IdleCounter {
    fn mouse(&mut self, _mlx: &mut Mlx, _window: usize, _param: u64, _x: i32, _y: i32, _button: u32) {
    }

    fn key(&mut self, _mlx: &mut Mlx, _window: usize, _param: u64, _keycode: u32) {}

    fn expose(&mut self, _mlx: &mut Mlx, _window: usize, _param: u64) {}

    fn idle(&mut self, mlx: &mut Mlx) {
        self.counter += 1;
        mlx.request_stop();
    }
}

#[test]
fn idle_hook_runs_once_and_stops_the_loop() {
    let mut mlx = Mlx::new(&screen(), &no_shm(), &None);
    let mut hooks = IdleCounter { counter: 0 };
    while !mlx.end_loop {
        mlx.loop_step(&mut hooks, None);
    }
    assert_eq!(hooks.counter, 1);
}

struct KeyRecorder {
    seen: Vec<(usize, u64, u32)>,
}

impl Hooks for KeyRecorder {
    fn mouse(&mut self, _mlx: &mut Mlx, _window: usize, _param: u64, _x: i32, _y: i32, _button: u32) {
    }

    fn key(&mut self, _mlx: &mut Mlx, window: usize, param: u64, keycode: u32) {
        self.seen.push((window, param, keycode));
    }

    fn expose(&mut self, _mlx: &mut Mlx, _window: usize, _param: u64) {}

    fn idle(&mut self, _mlx: &mut Mlx) {}
}

#[test]
fn events_reach_only_registered_hooks() {
    let mut mlx = Mlx::new(&screen(), &no_shm(), &None);
    let h = mlx.new_window(20, 20, "keys").expect("creation");
    mlx.register_hook(h, HookKind::Key, 77).expect("register");
    let mut hooks = KeyRecorder { seen: Vec::new() };
    mlx.loop_step(&mut hooks, Some(Event::Key { window: h, keycode: 9 }));
    mlx.loop_step(&mut hooks, Some(Event::Mouse { window: h, x: 1, y: 2, button: 3 }));
    mlx.loop_step(&mut hooks, Some(Event::Key { window: h + 1, keycode: 5 }));
    assert_eq!(hooks.seen, vec![(h, 77, 9)]);
}

#[test]
fn replacing_a_hook_keeps_one_per_kind() {
    let mut mlx = Mlx::new(&screen(), &no_shm(), &None);
    let h = mlx.new_window(20, 20, "keys").expect("creation");
    mlx.register_hook(h, HookKind::Key, 1).expect("register");
    mlx.register_hook(h, HookKind::Key, 2).expect("register");
    let mut hooks = KeyRecorder { seen: Vec::new() };
    mlx.loop_step(&mut hooks, Some(Event::Key { window: h, keycode: 4 }));
    assert_eq!(hooks.seen, vec![(h, 2, 4)]);
}

#[test]
fn window_creation_error_carries_dimensions() {
    let mut mlx = Mlx::new(&screen(), &no_shm(), &None);
    assert_eq!(
        mlx.new_window(0, 5, "zero"),
        Err(MlxError::WindowCreation { width: 0, height: 5 })
    );
    assert_eq!(
        MlxWindow::new(7, 0, "zero").err(),
        Some(MlxError::WindowCreation { width: 7, height: 0 })
    );
}

#[test]
fn surface_allocation_error_carries_dimensions() {
    assert_eq!(
        Surface::create(0, 9, false).err(),
        Some(MlxError::SurfaceAllocation { width: 0, height: 9 })
    );
}

#[test]
fn dead_handles_are_reported_not_crashed() {
    let mut mlx = Mlx::new(&screen(), &no_shm(), &None);
    assert_eq!(mlx.register_hook(3, HookKind::Mouse, 0), Err(MlxError::BadWindow));
    let h = mlx.new_window(10, 10, "w").expect("creation");
    assert_eq!(mlx.put_pixel(h, 0, 0, 1), Err(MlxError::NoSurface));
    mlx.destroy_window(h).expect("destroy");
    assert_eq!(mlx.attach_surface(h), Err(MlxError::BadWindow));
    assert_eq!(mlx.destroy_window(h), Err(MlxError::BadWindow));
    assert_eq!(mlx.get_pixel(h, 0, 0), None);
}

#[test]
fn shared_flag_follows_negotiated_capability() {
    let mut mlx = Mlx::new(&screen(), &full_shm(), &Some(b":0".to_vec()));
    assert!(mlx.use_xshm);
    let h = mlx.new_window(8, 8, "shm").expect("creation");
    mlx.attach_surface(h).expect("attach");
    let op = mlx.blit(h).expect("blit");
    assert!(op.use_shm);
}

#[test]
fn negative_coordinates_are_out_of_bounds() {
    let mut mlx = Mlx::new(&screen(), &no_shm(), &None);
    let h = mlx.new_window(10, 10, "w").expect("creation");
    mlx.attach_surface(h).expect("attach");
    assert_eq!(mlx.put_pixel(h, -1, 0, 1), Err(MlxError::OutOfBounds));
    assert_eq!(mlx.put_pixel(h, 0, -1, 1), Err(MlxError::OutOfBounds));
    assert_eq!(mlx.put_pixel(h, 10, 0, 1), Err(MlxError::OutOfBounds));
    assert_eq!(mlx.put_pixel(h, 9, 9, 1), Ok(()));
}

#[test]
fn clear_through_the_registry() {
    let mut mlx = Mlx::new(&screen(), &no_shm(), &None);
    let h = mlx.new_window(5, 5, "w").expect("creation");
    assert_eq!(mlx.clear(h), Err(MlxError::NoSurface));
    mlx.attach_surface(h).expect("attach");
    assert_eq!(mlx.put_pixel(h, 4, 4, 123), Ok(()));
    assert_eq!(mlx.clear(h), Ok(()));
    assert_eq!(mlx.get_pixel(h, 4, 4), Some(0));
}

#[test]
fn loopback_target_ignores_hostname() {
    let probe = full_shm();
    let dpy: Option<Vec<u8>> = Some(b":1".to_vec());
    let a = negotiate(&probe, &b"one".to_vec(), &dpy);
    let b = negotiate(&probe, &b"two".to_vec(), &dpy);
    assert_eq!(a, b);
    assert!(a.use_xshm);
}
