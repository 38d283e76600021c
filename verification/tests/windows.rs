use waywire::decoration::{
    components, paint, scene_elements, Appearance, Decoration, DecorationPart, PartPaint, Repaint,
    SceneLight, SceneWindow,
};
use waywire::geometry::{
    anchor, constrain, initial_location, popup_target, resize_size, window_output_geometry,
    DecorationAction, Dragged, Edges, Layout, Point, Rect, Size, BAR,
};
use waywire::windows::{
    configure_request, constrain_window, decoration_under, focus_after_death, focus_after_unmap,
    focus_window, new_toplevel, requested_edges, x11_stacking, Activation, KeyboardFocus,
    grab_ends, grab_motion, grants_window_grab, output_resized, popup_grab, zoom_changes, zoomed,
    CommitFocus, DecorationHit, DecorationPress, DeviceGrab, ExpandedMode, GrabMotion, Modes,
    PopupGrab, Probe, Shell, SizeLimits, StackedWindow, SurfaceCommit, WindowId, WindowState,
};

fn point(x: i32, y: i32) -> Point {
    Point { x, y }
}

fn size(w: i32, h: i32) -> Size {
    Size { w, h }
}

fn rect(x: i32, y: i32, w: i32, h: i32) -> Rect {
    Rect {
        loc: point(x, y),
        size: size(w, h),
    }
}

const PLAIN: Modes = Modes {
    maximized: false,
    fullscreen: false,
};

fn toplevel(id: u64, location: Point, extent: Size) -> StackedWindow {
    StackedWindow {
        id: WindowId { id },
        shell: Shell::Toplevel {
            server_side: true,
            modes: PLAIN,
        },
        mapped: true,
        location: Some(location),
        size: extent,
    }
}

fn hit(layout: &Layout, x: f64, y: f64) -> Option<DecorationAction> {
    layout.hit(x.floor() as i64, y.floor() as i64)
}

#[test]
fn hit_regions_match_painted_edges_including_narrow_windows() {
    let layout = Layout { size: size(101, 57) };
    for ((x, y), expected) in [
        ((-0.1, -1.0), None),
        ((0.0, -32.1), None),
        ((0.0, -32.0), Some(DecorationAction::Move)),
        ((68.9, -0.1), Some(DecorationAction::Move)),
        ((69.0, -32.0), Some(DecorationAction::Close)),
        ((100.9, -0.1), Some(DecorationAction::Close)),
        ((101.0, -1.0), None),
        ((99.0, 0.0), None),
        ((76.9, 57.0), None),
        ((77.0, 57.0), Some(DecorationAction::Resize)),
        ((100.9, 64.9), Some(DecorationAction::Resize)),
        ((99.0, 65.0), None),
        ((101.0, 58.0), None),
    ] {
        assert_eq!(hit(&layout, x, y), expected, "{x} {y}");
    }
    let narrow = Layout { size: size(13, 57) };
    assert_eq!(narrow.close(), narrow.bar());
    assert_eq!(narrow.resize(), rect(0, 57, 13, 8));
    assert_eq!(hit(&narrow, 12.9, -1.0), Some(DecorationAction::Close));
    assert_eq!(hit(&narrow, 13.0, -1.0), None);
}

/// Resizes by a drag of the pointer, rounded as the compositor rounds it.
fn drag(initial: Size, delta: (f64, f64), edges: u32, minimum: Size, maximum: Size) -> Size {
    let rounded = |extent: i32, change: f64| (f64::from(extent) + change).round() as i32;
    resize_size(
        initial,
        Dragged {
            grown: size(rounded(initial.w, delta.0), rounded(initial.h, delta.1)),
            shrunk: size(rounded(initial.w, -delta.0), rounded(initial.h, -delta.1)),
        },
        Edges::from_bits(edges),
        minimum,
        maximum,
    )
}

#[test]
fn asymmetric_top_left_resize_honors_each_axis_and_constraints() {
    assert_eq!(
        drag(size(300, 170), (51.0, -33.0), 5, size(100, 80), size(280, 190)),
        size(249, 190)
    );
    assert_eq!(
        drag(size(300, 170), (999.0, 999.0), 4, size(100, 80), size(0, 0)),
        size(100, 170)
    );
    assert_eq!(
        drag(size(300, 170), (-50.0, 60.0), 10, size(100, 80), size(0, 0)),
        size(250, 230)
    );
}

fn appearance(width: i32) -> Appearance {
    Appearance {
        title: "A readable title — العربية".to_owned(),
        width,
        scale_bits: 1.25_f64.to_bits(),
        active: true,
        hover: None,
        pressed: false,
    }
}

#[test]
fn cached_decorations_repaint_only_what_changed() {
    let mut cache = Decoration::default();
    let mut look = appearance(501);
    assert_eq!(
        cache.repaint(&look),
        Some(Repaint {
            bar: true,
            strip: true
        })
    );
    cache.painted(look.clone());
    for step in 1..7 {
        let (bar, strip) = match step {
            1 => {
                look.hover = Some(DecorationAction::Resize);
                (false, true)
            }
            2 => {
                look.title = "Changed without a client buffer commit".to_owned();
                (true, false)
            }
            3 => {
                look.hover = Some(DecorationAction::Close);
                (true, true)
            }
            4 => {
                look.pressed = true;
                (true, false)
            }
            5 => {
                look.active = false;
                (true, true)
            }
            _ => {
                look.width = 533;
                (true, false)
            }
        };
        assert_eq!(
            cache.repaint(&look),
            Some(Repaint { bar, strip }),
            "step {step}"
        );
        cache.painted(look.clone());
        assert_eq!(cache.repaint(&look), None, "idle");
    }
}

#[test]
fn close_buttons_are_painted_by_their_state() {
    for width in [1, 13, 32, 501] {
        for (hover, pressed, fill) in [
            (None, false, None),
            (Some(DecorationAction::Close), false, Some(0xb8_3245)),
            (Some(DecorationAction::Close), true, Some(0x85_2936)),
        ] {
            let mut look = appearance(width);
            look.hover = hover;
            look.pressed = pressed;
            let painted = paint(&look, DecorationPart::Bar);
            assert_eq!(painted.palette.background, 0x27_2e39);
            match painted.part {
                PartPaint::Bar { bar } => {
                    assert_eq!(bar.close_fill, fill);
                    assert_eq!(bar.title_width, (width - BAR - 24).max(0));
                }
                PartPaint::Strip { .. } => panic!("the bar should be painted"),
            }
        }
    }
    assert_eq!(components(0xb8_3245), (0xb8, 0x32, 0x45));
}

#[test]
fn strips_are_as_wide_as_the_grip() {
    let mut look = appearance(501);
    look.active = false;
    look.hover = Some(DecorationAction::Resize);
    let painted = paint(&look, DecorationPart::Strip);
    assert_eq!(painted.size, size(24, 8));
    assert_eq!(painted.palette.border, 0x30_3743);
    assert!(matches!(painted.part, PartPaint::Strip { strip }
        if strip.grip == 0xe7_ebf0 && strip.right == 20));
}

#[test]
fn the_scene_is_drawn_from_the_top() {
    let mut hidden = toplevel(3, point(9, 9), size(50, 40));
    hidden.location = None;
    let mut bare = toplevel(2, point(10, 42), size(50, 40));
    bare.shell = Shell::Other;
    let windows = [
        (toplevel(1, point(0, 32), size(100, 60)), ""),
        (bare, "bare"),
        (hidden, "hidden"),
    ];
    let stack: Vec<SceneWindow> = windows
        .into_iter()
        .map(|(window, title)| SceneWindow {
            window,
            origin: point(4, 5),
            title: title.to_owned(),
            active: true,
        })
        .collect();
    let light = SceneLight {
        scale_bits: 1.0_f64.to_bits(),
        hover: Some(DecorationHit {
            window: WindowId { id: 1 },
            action: DecorationAction::Resize,
        }),
        pressed: None,
    };
    let elements = scene_elements(&stack, light);
    assert_eq!(elements.len(), 2);
    assert_eq!(elements[0].id, WindowId { id: 2 });
    assert_eq!(elements[0].surfaces, point(6, 37));
    assert!(elements[0].decoration.is_none());
    let decoration = elements[1]
        .decoration
        .as_ref()
        .expect("the lower window should be decorated");
    assert_eq!(decoration.appearance.title, "Untitled");
    assert_eq!(decoration.appearance.hover, Some(DecorationAction::Resize));
    assert_eq!(decoration.bar, rect(0, 0, 100, 32));
    assert_eq!(decoration.strip, rect(76, 92, 24, 8));
}

#[test]
fn windows_are_kept_on_the_output() {
    let output = rect(0, 0, 800, 600);
    assert_eq!(
        constrain(point(-5, 700), size(100, 50), output),
        point(0, 550)
    );
    assert_eq!(constrain(point(9, 9), size(900, 700), output), point(0, 0));
    assert_eq!(
        window_output_geometry(output, true),
        rect(0, 32, 800, 560)
    );
    assert_eq!(window_output_geometry(output, false), output);
    let placed = constrain_window(toplevel(1, point(790, 0), size(100, 50)), output)
        .expect("a toplevel should be placed");
    assert_eq!(placed.location, point(700, 32));
    assert_eq!(placed.configure, None);
}

#[test]
fn new_windows_start_on_a_diagonal() {
    assert_eq!(initial_location(0), point(32, 32));
    assert_eq!(initial_location(3), point(176, 176));
    assert_eq!(initial_location(8), point(32, 32));
}

#[test]
fn commits_map_constrain_and_focus() {
    let commit = SurfaceCommit {
        has_buffer: true,
        bounds_changed: true,
        size: size(200, 100),
        toplevel: true,
        acknowledged: false,
    };
    let mut state = WindowState::default();
    let plan = state.commit(commit);
    assert!(plan.constrain);
    assert_eq!(plan.focus, CommitFocus::Take);
    assert_eq!(plan.location, None);

    state.begin_grab(Some(Edges::from_bits(5)), rect(50, 60, 300, 200));
    let plan = state.commit(commit);
    assert!(!plan.constrain);
    assert_eq!(plan.location, Some(point(150, 160)));
    assert_eq!(plan.focus, CommitFocus::Keep);
    state.end_resize_grab(7);
    let _ = state.commit(commit);
    assert!(state.resize.is_some());
    let _ = state.commit(SurfaceCommit {
        acknowledged: true,
        ..commit
    });
    assert!(state.resize.is_none());

    let plan = state.commit(SurfaceCommit {
        has_buffer: false,
        ..commit
    });
    assert_eq!(plan.focus, CommitFocus::Release);
    assert!(!state.mapped);
}

#[test]
fn resized_windows_keep_the_opposite_edge() {
    let initial = rect(50, 60, 300, 200);
    assert_eq!(
        anchor(initial, size(280, 150), Edges::from_bits(5)),
        point(70, 110)
    );
    assert_eq!(
        anchor(initial, size(280, 150), Edges::from_bits(10)),
        point(50, 60)
    );
}

#[test]
fn expanded_windows_return_to_where_they_were() {
    let output = rect(0, 0, 800, 600);
    let original = rect(40, 80, 300, 200);
    let mut state = WindowState::default();
    let (modes, geometry) = state.set_expanded(
        true,
        PLAIN,
        ExpandedMode::Maximized,
        true,
        original,
        output,
    );
    assert_eq!(geometry, rect(0, 32, 800, 560));
    let (modes, geometry) = state.set_expanded(
        true,
        modes,
        ExpandedMode::Fullscreen,
        true,
        geometry,
        output,
    );
    assert_eq!(geometry, output);
    let (modes, geometry) = state.set_expanded(
        true,
        modes,
        ExpandedMode::Fullscreen,
        false,
        geometry,
        output,
    );
    assert_eq!(geometry, rect(0, 32, 800, 560));
    let (modes, geometry) = state.set_expanded(
        true,
        modes,
        ExpandedMode::Maximized,
        false,
        geometry,
        output,
    );
    assert_eq!(modes, PLAIN);
    assert_eq!(geometry, original);
}

#[test]
fn x11_windows_return_to_where_they_were() {
    let area = rect(0, 32, 800, 560);
    let original = rect(40, 80, 300, 200);
    let maximized = Modes {
        maximized: true,
        fullscreen: false,
    };
    let mut saved = None;
    assert!(zoom_changes(PLAIN, ExpandedMode::Maximized, true));
    assert!(!zoom_changes(PLAIN, ExpandedMode::Maximized, false));
    assert_eq!(
        zoomed(&mut saved, PLAIN, maximized, true, original, Some(area)),
        Some(area)
    );
    assert_eq!(
        zoomed(&mut saved, maximized, PLAIN, false, area, Some(area)),
        Some(original)
    );
    assert_eq!(saved, None);
}

#[test]
fn the_focus_falls_to_the_topmost_mapped_window() {
    let mut menu = toplevel(3, point(0, 0), size(10, 10));
    menu.shell = Shell::X11 {
        override_redirect: true,
        framed: false,
        modes: PLAIN,
    };
    let mut unmapped = toplevel(2, point(0, 0), size(10, 10));
    unmapped.mapped = false;
    let stack = vec![
        toplevel(1, point(0, 0), size(10, 10)),
        unmapped,
        menu,
        toplevel(4, point(0, 0), size(10, 10)),
    ];
    let id = |id: u64| WindowId { id };
    assert_eq!(
        focus_after_unmap(&stack, id(4), Some(id(4))),
        Some(Some(id(1)))
    );
    assert_eq!(focus_after_unmap(&stack, id(4), Some(id(1))), None);
    assert_eq!(focus_after_death(&stack, Some(false)), Some(Some(id(4))));
    assert_eq!(focus_after_death(&stack, Some(true)), None);
    assert_eq!(focus_after_death(&stack, None), None);
    assert_eq!(
        focus_after_unmap(&vec![], id(4), Some(id(4))),
        Some(None)
    );
}

#[test]
fn requests_without_an_edge_resize_nothing() {
    assert_eq!(requested_edges(0), None);
    assert_eq!(requested_edges(5), Some(Edges::from_bits(5)));
}

#[test]
fn new_toplevels_learn_the_size_of_the_output() {
    let fresh = new_toplevel(9, Some(rect(0, 0, 800, 600)));
    assert_eq!(fresh.location, point(80, 80));
    assert_eq!(fresh.bounds, Some(size(800, 600)));
    assert_eq!(new_toplevel(0, None).bounds, None);
    assert_eq!(new_toplevel(0, None).location, point(32, 32));
}

#[test]
fn moving_the_focus_activates_one_window() {
    let mut x11 = toplevel(2, point(0, 0), size(10, 10));
    x11.shell = Shell::X11 {
        override_redirect: false,
        framed: false,
        modes: PLAIN,
    };
    let wayland = toplevel(1, point(0, 0), size(10, 10));
    let stack = vec![wayland, x11];
    let told = |id: u64, activated: bool, configure: bool| Activation {
        id: WindowId { id },
        activated,
        configure,
    };

    let plan = focus_window(&stack, Some(x11), true, true);
    assert_eq!(plan.raise, Some(WindowId { id: 2 }));
    assert!(plan.raise_x11);
    assert_eq!(
        plan.activations,
        vec![told(1, false, true), told(2, true, false)]
    );
    assert_eq!(plan.keyboard, Some(KeyboardFocus::X11(WindowId { id: 2 })));

    let plan = focus_window(&stack, Some(wayland), true, true);
    assert!(!plan.raise_x11);
    assert_eq!(
        plan.activations,
        vec![told(1, true, true), told(2, false, false)]
    );
    assert_eq!(
        plan.keyboard,
        Some(KeyboardFocus::Wayland(WindowId { id: 1 }))
    );

    let plan = focus_window(&stack, None, false, true);
    assert_eq!(plan.raise, None);
    assert_eq!(
        plan.activations,
        vec![told(1, false, true), told(2, false, false)]
    );
    assert_eq!(plan.keyboard, None);

    assert_eq!(x11_stacking(&stack), vec![WindowId { id: 2 }]);
}

#[test]
fn output_changes_reach_every_window() {
    let output = rect(0, 0, 800, 600);
    let mut expanded = toplevel(1, point(0, 0), size(100, 100));
    expanded.shell = Shell::Toplevel {
        server_side: false,
        modes: Modes {
            maximized: true,
            fullscreen: false,
        },
    };
    let mut x11 = toplevel(2, point(900, 900), size(100, 100));
    x11.shell = Shell::X11 {
        override_redirect: false,
        framed: true,
        modes: PLAIN,
    };
    let changes = output_resized(&vec![expanded, x11], output);
    assert_eq!(changes[0].bounds, Some(size(800, 600)));
    assert_eq!(changes[0].size, Some(size(800, 600)));
    assert_eq!(
        changes[0].placement.map(|placed| placed.location),
        Some(point(0, 0))
    );
    assert_eq!(changes[1].bounds, None);
    let placed = changes[1].placement.expect("the window should be placed");
    assert_eq!(placed.location, point(700, 500));
    assert_eq!(placed.configure, Some(rect(700, 500, 100, 100)));
}

#[test]
fn surfaces_hide_the_decorations_below_them() {
    let window = toplevel(1, point(10, 50), size(100, 60));
    let other = toplevel(2, point(300, 50), size(100, 60));
    let probe = |window, covered| Probe { window, covered };
    let on_bar = point(20, 40);
    assert_eq!(
        decoration_under(&vec![probe(window, false), probe(other, false)], on_bar),
        Some(DecorationHit {
            window: WindowId { id: 1 },
            action: DecorationAction::Move
        })
    );
    assert_eq!(
        decoration_under(&vec![probe(window, false), probe(other, true)], on_bar),
        None
    );
    let mut lost = other;
    lost.location = None;
    assert_eq!(
        decoration_under(&vec![probe(window, false), probe(lost, false)], on_bar),
        None
    );
}

#[test]
fn presses_end_when_the_pointer_leaves_the_button() {
    let close = Some(DecorationHit {
        window: WindowId { id: 1 },
        action: DecorationAction::Close,
    });
    let bar = Some(DecorationHit {
        window: WindowId { id: 1 },
        action: DecorationAction::Move,
    });
    let mut press = DecorationPress {
        window: Some(WindowId { id: 1 }),
    };
    assert_eq!(press.hover(close, false), close);
    assert_eq!(press.hover(bar, true), None);
    assert_eq!(press.window, None);
    assert_eq!(press.hover(close, false), None);
    assert_eq!(press.hover(close, true), close);
}

#[test]
fn grabs_need_the_clients_own_press() {
    assert!(grants_window_grab(true, Some(1), Some(1)));
    assert!(!grants_window_grab(false, Some(1), Some(1)));
    assert!(!grants_window_grab(true, Some(1), Some(2)));
    assert!(!grants_window_grab(true, None, None));
    assert!(grab_ends(&vec![0x111], 0x110));
    assert!(!grab_ends(&vec![0x111, 0x110], 0x110));
}

#[test]
fn grabbed_windows_follow_the_pointer() {
    let initial = rect(50, 60, 300, 200);
    let dragged = Dragged {
        grown: size(310, 210),
        shrunk: size(290, 190),
    };
    let limits = SizeLimits {
        minimum: size(0, 0),
        maximum: size(295, 0),
    };
    let shell = |x11: bool| {
        if x11 {
            Shell::X11 {
                override_redirect: false,
                framed: false,
                modes: PLAIN,
            }
        } else {
            Shell::Toplevel {
                server_side: true,
                modes: PLAIN,
            }
        }
    };
    assert_eq!(
        grab_motion(
            shell(false),
            initial,
            Some(Edges::from_bits(10)),
            dragged,
            point(0, 0),
            limits
        ),
        GrabMotion::ConfigureToplevel {
            size: size(295, 210)
        }
    );
    assert_eq!(
        grab_motion(
            shell(true),
            initial,
            Some(Edges::from_bits(5)),
            dragged,
            point(0, 0),
            limits
        ),
        GrabMotion::ConfigureX11 {
            rect: rect(60, 70, 290, 190)
        }
    );
    assert_eq!(
        grab_motion(shell(true), initial, None, dragged, point(70, 80), limits),
        GrabMotion::Move {
            location: point(70, 80),
            configure: Some(rect(70, 80, 300, 200))
        }
    );
}

#[test]
fn popups_do_not_break_foreign_grabs() {
    let grab = |grabbed, has_serial, has_previous| {
        Some(DeviceGrab {
            grabbed,
            has_serial,
            has_previous,
        })
    };
    assert_eq!(
        popup_grab(grab(true, false, false), None),
        PopupGrab::Refuse
    );
    assert_eq!(
        popup_grab(grab(true, true, false), grab(true, false, false)),
        PopupGrab::Refuse
    );
    assert_eq!(
        popup_grab(grab(true, false, true), grab(false, false, false)),
        PopupGrab::Install {
            keyboard: true,
            pointer: true
        }
    );
}

#[test]
fn x11_windows_choose_their_size_within_limits() {
    let last = rect(5, 6, 70, 80);
    assert_eq!(
        configure_request(last, PLAIN, Some(0), Some(100_000)),
        rect(5, 6, 1, 65_535)
    );
    assert_eq!(configure_request(last, PLAIN, None, None), last);
    let fullscreen = Modes {
        maximized: false,
        fullscreen: true,
    };
    assert_eq!(configure_request(last, fullscreen, Some(9), Some(9)), last);
}

#[test]
fn popups_are_placed_relative_to_their_parent() {
    assert_eq!(
        popup_target(rect(0, 0, 800, 600), point(10, 20), point(100, 200)),
        rect(-110, -220, 800, 600)
    );
}
