use hako::keymap::{EV_KEY, KEY_ESC, KEY_F, KEY_SPACE, KEY_Y};
use hako::{
    Analog, Axis, AxisButtonState, AxisState, B0xxEvent, B0xxRaw, B0xxState, Button, ButtonImpure,
    ButtonPure, DolphinPipeInput, DualModeAxisState, GCButton, Input, KeyEvent, Main, Remapper,
    Shield, ShieldState, Stick, TimeVal, Trigger, NEGATIVE, POSITIVE, PRESSED, RELEASED,
};

fn an(v: i8) -> Analog {
    Analog::new(v)
}

fn stick(x: i8, y: i8) -> (Analog, Analog) {
    (an(x), an(y))
}

fn ev(main: &mut Main, btn: B0xxRaw, pressed: bool) -> Option<Input> {
    main.process_b0xx(B0xxEvent::new_without_time(btn, pressed), false)
}

#[test]
fn analog_negation_and_range() {
    assert_eq!(an(53).neg_not(POSITIVE).get(), 53);
    assert_eq!(an(53).neg_not(NEGATIVE).get(), -53);
    assert_eq!(an(-80).neg_not(NEGATIVE).get(), 80);
    assert_eq!(Trigger::from(Shield::Light).get(), 49);
    assert_eq!(Trigger::from(Shield::Medium).get(), 94);
}

#[test]
fn axis_transition_table() {
    let mut s = AxisState::default();
    assert_eq!(s, AxisState::Null(None));
    s.transition(POSITIVE, PRESSED);
    assert_eq!(s, AxisState::Active(POSITIVE, false));
    s.transition(NEGATIVE, PRESSED);
    assert_eq!(s, AxisState::Active(NEGATIVE, true));
    assert_eq!(s.active(), Some(NEGATIVE));
    assert_eq!(s.active_unique(), None);
    s.transition(POSITIVE, RELEASED);
    assert_eq!(s, AxisState::Active(NEGATIVE, false));
    assert_eq!(s.active_unique(), Some(NEGATIVE));
    s.transition(POSITIVE, PRESSED);
    assert_eq!(s, AxisState::Active(POSITIVE, true));
    s.transition(POSITIVE, RELEASED);
    assert_eq!(s, AxisState::Null(Some(NEGATIVE)));
    assert_eq!(s.active(), None);
    s.transition(POSITIVE, PRESSED);
    assert_eq!(s, AxisState::Active(POSITIVE, true));
    s.transition(POSITIVE, RELEASED);
    s.transition(NEGATIVE, RELEASED);
    assert_eq!(s, AxisState::Null(None));
    // Releasing a key that is not held changes nothing.
    s.transition(NEGATIVE, RELEASED);
    assert_eq!(s, AxisState::Null(None));
    s.transition(NEGATIVE, PRESSED);
    s.transition(POSITIVE, RELEASED);
    assert_eq!(s, AxisState::Active(NEGATIVE, false));
    s.transition(NEGATIVE, RELEASED);
    assert_eq!(s, AxisState::Null(None));
}

#[test]
fn axis_state_in_dir() {
    assert_eq!(AxisState::Null(Some(POSITIVE)).state_in_dir(POSITIVE), AxisButtonState::Inactive(true));
    assert_eq!(AxisState::Null(Some(POSITIVE)).state_in_dir(NEGATIVE), AxisButtonState::Inactive(false));
    assert_eq!(AxisState::Active(POSITIVE, true).state_in_dir(POSITIVE), AxisButtonState::Active);
    assert_eq!(AxisState::Active(POSITIVE, true).state_in_dir(NEGATIVE), AxisButtonState::Inactive(true));
    assert_eq!(AxisButtonState::from_pressed(true), AxisButtonState::Active);
    assert_eq!(AxisButtonState::from_pressed(false), AxisButtonState::Inactive(false));
}

#[test]
fn dual_mode_latch_and_release() {
    let mut s = DualModeAxisState::default();
    s.transition(POSITIVE, PRESSED, false);
    assert_eq!(s.active(), Some(POSITIVE));
    // Latching the opposite keeps the held direction driving the stick.
    assert!(!s.transition(NEGATIVE, PRESSED, true));
    assert_eq!(s, DualModeAxisState::Single(POSITIVE, AxisButtonState::Active));
    assert_eq!(s.active(), Some(POSITIVE));
    assert!(s.is_latched(NEGATIVE));
    assert!(!s.transition(POSITIVE, RELEASED, false));
    assert_eq!(s.active(), None);
    assert!(s.transition(NEGATIVE, RELEASED, false));
    assert_eq!(s, DualModeAxisState::Neither(AxisState::Null(None)));
}

#[test]
fn dual_mode_both_latched() {
    let mut s = DualModeAxisState::default();
    assert!(!s.transition(POSITIVE, PRESSED, true));
    assert!(!s.transition(NEGATIVE, PRESSED, true));
    assert_eq!(s, DualModeAxisState::Both);
    assert_eq!(s.active(), None);
    assert!(s.transition(POSITIVE, RELEASED, false));
    assert!(s.is_latched(NEGATIVE));
    assert!(!s.is_latched(POSITIVE));
    assert!(s.transition(NEGATIVE, RELEASED, false));
    assert_eq!(s, DualModeAxisState::Neither(AxisState::Null(None)));
}

#[test]
fn shield_transition_table() {
    let rows: [(ShieldState, Shield, bool, ShieldState, Option<u8>); 11] = [
        (ShieldState::Null, Shield::Light, true, ShieldState::L, Some(49)),
        (ShieldState::Null, Shield::Medium, true, ShieldState::M(true), Some(94)),
        (ShieldState::M(false), Shield::Light, true, ShieldState::ML, Some(49)),
        (ShieldState::L, Shield::Medium, true, ShieldState::LM, Some(94)),
        (ShieldState::ML, Shield::Light, false, ShieldState::M(false), Some(0)),
        (ShieldState::LM, Shield::Light, false, ShieldState::M(true), None),
        (ShieldState::ML, Shield::Medium, false, ShieldState::L, None),
        (ShieldState::LM, Shield::Medium, false, ShieldState::L, Some(49)),
        (ShieldState::M(true), Shield::Medium, false, ShieldState::Null, Some(0)),
        (ShieldState::L, Shield::Light, false, ShieldState::Null, Some(0)),
        (ShieldState::M(false), Shield::Medium, false, ShieldState::Null, None),
    ];
    for (from, shield, pressed, to, emit) in rows {
        let mut s = from;
        let got = s.transition(shield, pressed);
        assert_eq!(s, to);
        assert_eq!(got.map(|t| t.get()), emit);
    }
    let mut s = ShieldState::default();
    assert_eq!(s.transition(Shield::Light, RELEASED), None);
    assert_eq!(s, ShieldState::Null);
}

#[test]
fn keymap_maps_keys() {
    let r = Remapper;
    assert_eq!(r.keyboard_to_b0xx(EV_KEY, KEY_SPACE), Some(B0xxRaw::A));
    assert_eq!(r.keyboard_to_b0xx(EV_KEY, KEY_ESC), Some(B0xxRaw::CD));
    assert_eq!(r.keyboard_to_b0xx(EV_KEY, KEY_Y), Some(B0xxRaw::Start));
    assert_eq!(r.keyboard_to_b0xx(EV_KEY, KEY_F), Some(B0xxRaw::Start));
    assert_eq!(r.keyboard_to_b0xx(EV_KEY, 39), Some(B0xxRaw::L));
    assert_eq!(r.keyboard_to_b0xx(EV_KEY, 108), Some(B0xxRaw::CU));
    assert_eq!(r.keyboard_to_b0xx(EV_KEY, 2), None);
    assert_eq!(r.keyboard_to_b0xx(2, KEY_SPACE), None);
}

#[test]
fn keymap_events() {
    let r = Remapper;
    let time = TimeVal { tv_sec: 5, tv_usec: 7 };
    let event = |value| KeyEvent { time, ev_type: EV_KEY, code: KEY_SPACE, value };
    assert_eq!(
        r.evdev_to_b0xx(event(1)),
        Some(B0xxEvent { time, btn: B0xxRaw::A, pressed: true })
    );
    assert_eq!(
        r.evdev_to_b0xx(event(0)),
        Some(B0xxEvent { time, btn: B0xxRaw::A, pressed: false })
    );
    assert_eq!(r.evdev_to_b0xx(event(2)), None);
    let unmapped = KeyEvent { time, ev_type: EV_KEY, code: 2, value: 1 };
    assert_eq!(r.evdev_to_b0xx(unmapped), None);
}

#[test]
fn pipe_text_buttons() {
    assert_eq!(DolphinPipeInput::Button(GCButton::B, true).into_input_string(), "PRESS B\n");
    assert_eq!(DolphinPipeInput::Button(GCButton::DUp, false).into_input_string(), "RELEASE D_UP\n");
    assert_eq!(DolphinPipeInput::Button(GCButton::Start, true).into_input_string(), "PRESS START\n");
    assert_eq!(DolphinPipeInput::Button(GCButton::DRight, true).into_input_string(), "PRESS D_RIGHT\n");
}

#[test]
fn pipe_text_triggers() {
    assert_eq!(DolphinPipeInput::Trigger(Trigger::new(49)).into_input_string(), "SET L 0.3828125\n");
    assert_eq!(DolphinPipeInput::Trigger(Trigger::new(94)).into_input_string(), "SET L 0.734375\n");
    assert_eq!(DolphinPipeInput::Trigger(Trigger::new(0)).into_input_string(), "SET L 0\n");
    assert_eq!(DolphinPipeInput::Trigger(Trigger::new(140)).into_input_string(), "SET L 1.09375\n");
}

#[test]
fn pipe_text_sticks() {
    assert_eq!(
        DolphinPipeInput::Stick(Stick::A, stick(53, 0)).into_input_string(),
        "SET MAIN 0.7086614173228346 0.5\n"
    );
    assert_eq!(
        DolphinPipeInput::Stick(Stick::C, stick(-80, 80)).into_input_string(),
        "SET C 0.1875 0.8149606299212598\n"
    );
    assert_eq!(
        DolphinPipeInput::Stick(Stick::C, stick(-1, 1)).into_input_string(),
        "SET C 0.49609375 0.5039370078740157\n"
    );
}

#[test]
fn composite_orders() {
    let a = stick(53, 0);
    let c = stick(0, -80);
    assert_eq!(
        Input::ModifiedPress(a, ButtonImpure::B).into_pipe_inputs(),
        vec![
            DolphinPipeInput::Stick(Stick::A, a),
            DolphinPipeInput::Button(GCButton::B, true)
        ]
    );
    assert_eq!(
        Input::ReleaseModifier(ButtonImpure::L, a).into_pipe_inputs(),
        vec![
            DolphinPipeInput::Button(GCButton::L, false),
            DolphinPipeInput::Stick(Stick::A, a)
        ]
    );
    assert_eq!(
        Input::CStickModifier { a, c }.into_pipe_inputs(),
        vec![DolphinPipeInput::Stick(Stick::C, c), DolphinPipeInput::Stick(Stick::A, a)]
    );
    assert_eq!(
        Input::Button(Button::DPad(Axis::X, NEGATIVE), true).into_pipe_inputs(),
        vec![DolphinPipeInput::Button(GCButton::DLeft, true)]
    );
    assert_eq!(
        Input::Button(Button::Pure(ButtonPure::Z), false).into_pipe_inputs(),
        vec![DolphinPipeInput::Button(GCButton::Z, false)]
    );
}

#[test]
fn modifier_cardinal_scenario() {
    let mut main = Main::default();
    assert_eq!(ev(&mut main, B0xxRaw::MX, true), None);
    assert_eq!(ev(&mut main, B0xxRaw::Right, true), Some(Input::Stick(Stick::A, stick(53, 0))));
    assert_eq!(ev(&mut main, B0xxRaw::MX, false), Some(Input::Stick(Stick::A, stick(80, 0))));
    assert_eq!(ev(&mut main, B0xxRaw::Right, false), Some(Input::Stick(Stick::A, stick(0, 0))));
}

#[test]
fn mod_x_c_cardinal_scenario() {
    let mut main = Main::default();
    let _ = ev(&mut main, B0xxRaw::MX, true);
    let _ = ev(&mut main, B0xxRaw::Right, true);
    assert_eq!(ev(&mut main, B0xxRaw::Up, true), Some(Input::Stick(Stick::A, stick(59, 25))));
    assert_eq!(
        ev(&mut main, B0xxRaw::CD, true),
        Some(Input::CStickModifier { a: stick(56, 29), c: stick(0, -80) })
    );
    let commands: Vec<String> = Input::CStickModifier { a: stick(56, 29), c: stick(0, -80) }
        .into_pipe_inputs()
        .into_iter()
        .map(|p| p.into_input_string())
        .collect();
    assert!(commands[0].starts_with("SET C "));
    assert!(commands[1].starts_with("SET MAIN "));
}

#[test]
fn dpad_latch_scenario() {
    let mut main = Main::default();
    let _ = ev(&mut main, B0xxRaw::MX, true);
    let _ = ev(&mut main, B0xxRaw::MY, true);
    assert_eq!(
        ev(&mut main, B0xxRaw::CR, true),
        Some(Input::Button(Button::DPad(Axis::X, POSITIVE), true))
    );
    assert_eq!(main.c_stick.gc_input, stick(0, 0));
    assert_eq!(ev(&mut main, B0xxRaw::MY, false), None);
    assert_eq!(
        ev(&mut main, B0xxRaw::CR, false),
        Some(Input::Button(Button::DPad(Axis::X, POSITIVE), false))
    );
    assert_eq!(main.c_stick.gc_input, stick(0, 0));
    // The key now drives the C-stick again.
    assert_eq!(ev(&mut main, B0xxRaw::CR, true), Some(Input::Stick(Stick::C, stick(80, 0))));
}

#[test]
fn dpad_latch_keeps_held_opposite() {
    let mut main = Main::default();
    assert_eq!(ev(&mut main, B0xxRaw::CR, true), Some(Input::Stick(Stick::C, stick(80, 0))));
    let _ = ev(&mut main, B0xxRaw::MX, true);
    let _ = ev(&mut main, B0xxRaw::MY, true);
    assert_eq!(
        ev(&mut main, B0xxRaw::CL, true),
        Some(Input::Button(Button::DPad(Axis::X, NEGATIVE), true))
    );
    assert_eq!(
        ev(&mut main, B0xxRaw::CL, false),
        Some(Input::Button(Button::DPad(Axis::X, NEGATIVE), false))
    );
    assert_eq!(main.c_stick.gc_input, stick(80, 0));
    let _ = ev(&mut main, B0xxRaw::MX, false);
    let _ = ev(&mut main, B0xxRaw::MY, false);
    assert_eq!(ev(&mut main, B0xxRaw::CR, false), Some(Input::Stick(Stick::C, stick(0, 0))));
}

#[test]
fn impure_button_scenario() {
    let mut main = Main::default();
    assert_eq!(ev(&mut main, B0xxRaw::Right, true), Some(Input::Stick(Stick::A, stick(80, 0))));
    assert_eq!(ev(&mut main, B0xxRaw::MY, true), Some(Input::Stick(Stick::A, stick(27, 0))));
    assert_eq!(
        ev(&mut main, B0xxRaw::B, true),
        Some(Input::ModifiedPress(stick(53, 0), ButtonImpure::B))
    );
    assert_eq!(
        Input::ModifiedPress(stick(53, 0), ButtonImpure::B)
            .into_pipe_inputs()
            .into_iter()
            .map(|p| p.into_input_string())
            .collect::<Vec<_>>(),
        vec!["SET MAIN 0.7086614173228346 0.5\n".to_string(), "PRESS B\n".to_string()]
    );
    // Releasing B puts the stick back at the tilt magnitude.
    assert_eq!(
        ev(&mut main, B0xxRaw::B, false),
        Some(Input::ReleaseModifier(ButtonImpure::B, stick(27, 0)))
    );
    assert!(!main.state.b);
    assert_eq!(main.a_stick.gc_input, stick(27, 0));
}

#[test]
fn impure_button_without_move() {
    let mut main = Main::default();
    assert_eq!(
        ev(&mut main, B0xxRaw::L, true),
        Some(Input::Button(Button::Impure(ButtonImpure::L), true))
    );
    assert_eq!(
        ev(&mut main, B0xxRaw::L, false),
        Some(Input::Button(Button::Impure(ButtonImpure::L), false))
    );
}

#[test]
fn socd_opposing_keys_never_cancel() {
    let mut main = Main::default();
    let _ = ev(&mut main, B0xxRaw::Left, true);
    assert_eq!(ev(&mut main, B0xxRaw::Right, true), Some(Input::Stick(Stick::A, stick(80, 0))));
    assert_eq!(ev(&mut main, B0xxRaw::Right, false), Some(Input::Stick(Stick::A, stick(0, 0))));
    assert_eq!(ev(&mut main, B0xxRaw::Right, true), Some(Input::Stick(Stick::A, stick(80, 0))));
    assert_eq!(ev(&mut main, B0xxRaw::Left, false), None);
    assert_eq!(main.a_stick.gc_input, stick(80, 0));
}

#[test]
fn pure_press_release_round_trip() {
    for btn in [B0xxRaw::A, B0xxRaw::X, B0xxRaw::Y, B0xxRaw::Z, B0xxRaw::Start, B0xxRaw::LS, B0xxRaw::MS] {
        let mut main = Main::default();
        let _ = ev(&mut main, btn, true);
        let last = ev(&mut main, btn, false);
        assert_eq!(main, Main::default());
        assert_eq!(main.a_stick.gc_input, stick(0, 0));
        assert_eq!(main.c_stick.gc_input, stick(0, 0));
        if let Some(Input::Trigger(t)) = last {
            assert_eq!(t.get(), 0);
        }
    }
}

#[test]
fn modifier_release_matches_direction_alone() {
    for modifier in [B0xxRaw::MX, B0xxRaw::MY] {
        for direction in [B0xxRaw::Left, B0xxRaw::Right, B0xxRaw::Up, B0xxRaw::Down] {
            let mut alone = Main::default();
            let _ = ev(&mut alone, direction, true);
            let mut main = Main::default();
            let _ = ev(&mut main, modifier, true);
            let _ = ev(&mut main, direction, true);
            let _ = ev(&mut main, modifier, false);
            assert_eq!(main.a_stick.gc_input, alone.a_stick.gc_input);
        }
    }
}

#[test]
fn last_emitted_follows_outputs() {
    let mut main = Main::default();
    let keys = [
        (B0xxRaw::Up, true),
        (B0xxRaw::MX, true),
        (B0xxRaw::CL, true),
        (B0xxRaw::Right, true),
        (B0xxRaw::L, true),
        (B0xxRaw::MX, false),
        (B0xxRaw::L, false),
    ];
    for (btn, pressed) in keys {
        let before = main.a_stick.gc_input;
        let out = ev(&mut main, btn, pressed);
        let a = match out {
            Some(Input::Stick(Stick::A, a))
            | Some(Input::ModifiedPress(a, _))
            | Some(Input::ReleaseModifier(_, a))
            | Some(Input::CStickModifier { a, .. }) => Some(a),
            _ => None,
        };
        match a {
            Some(a) => {
                assert_ne!(a, before);
                assert_eq!(main.a_stick.gc_input, a);
            }
            None => assert_eq!(main.a_stick.gc_input, before),
        }
        let (x, y) = main.a_stick.gc_input;
        assert!((-80..=80).contains(&x.get()) && (-80..=80).contains(&y.get()));
    }
    assert_eq!(main.state, B0xxState { b: false, l: false, r: false, mod_x: false, mod_y: false });
}

#[test]
fn stick_state_updates_only_on_change() {
    let mut a = hako::StickState::default();
    assert_eq!(a.update(stick(0, 0)), None);
    assert_eq!(a.update(stick(53, 0)), Some(stick(53, 0)));
    assert_eq!(a.gc_input, stick(53, 0));
    assert_eq!(a.update(stick(53, 0)), None);
    let mut c = hako::CStickState::default();
    assert_eq!(c.update(stick(0, -80)), Some(stick(0, -80)));
    assert_eq!(c.update(stick(0, -80)), None);
}

#[test]
fn c_stick_unique_cardinal() {
    let mut c = hako::CStickState::default();
    assert_eq!(c.unique_cardinal(), None);
    assert!(!c.transition(Axis::Y, NEGATIVE, PRESSED, false));
    assert_eq!(c.unique_cardinal(), Some((Axis::Y, NEGATIVE)));
    assert!(!c.transition(Axis::Y, POSITIVE, PRESSED, false));
    assert_eq!(c.unique_cardinal(), None);
    assert!(!c.transition(Axis::X, POSITIVE, PRESSED, false));
    assert_eq!(c.unique_cardinal(), Some((Axis::X, POSITIVE)));
}

#[test]
fn main_resolves_sticks() {
    let mut main = Main::default();
    main.a_stick.x.transition(NEGATIVE, PRESSED);
    main.a_stick.y.transition(NEGATIVE, PRESSED);
    assert_eq!(main.update_a_stick(true), Some(stick(-57, -55)));
    assert_eq!(main.update_a_stick(true), None);
    assert_eq!(main.update_a_stick(false), Some(stick(-56, -56)));
    main.c_stick.transition(Axis::X, NEGATIVE, PRESSED, false);
    main.c_stick.transition(Axis::Y, POSITIVE, PRESSED, false);
    assert_eq!(main.update_c_stick(), Some(stick(-42, 68)));
    assert_eq!(main.update_c_stick(), None);
}
