use keycore::action::holdtap::HoldTap;
use keycore::action::{
    gate, Act, Action, KeyAction, Layer, PressAction, PressReleaseAction, PressedAction,
    ReleaseAction, ReleasedAction,
};
use keycore::event::Event;
use keycore::report::Report;

fn kb_a() -> Action {
    Action::Report(Report::Keyboard(0x04))
}

fn kb_f() -> Action {
    Action::Report(Report::Keyboard(0x09))
}

fn kb_j() -> Action {
    Action::Report(Report::Keyboard(0x0D))
}

fn cu_volu() -> Action {
    Action::Report(Report::Consumer(0x00E9))
}

#[test]
fn test_all_macros() {
    PressedAction::new(kb_a());

    let _ = kb_a();
    let _ = cu_volu();

    PressedAction::new(kb_a());

    PressAction::new(cu_volu());
    PressedAction::new(cu_volu());

    let _ = Action::Layer(Layer::Default(0));
    let _ = Action::Layer(Layer::Current(0));
    PressReleaseAction::new(Action::Layer(Layer::Current(0)));
    PressAction::new(Action::Layer(Layer::Default(0)));

    ReleaseAction::new(kb_a());
    ReleasedAction::new(kb_a());

    // a sample of the keyboard page, as the alias table lays it out
    for code in [
        0x00u8, 0x04, 0x05, 0x06, 0x07, 0x08, 0x09, 0x0A, 0x0B, 0x0C, 0x0D, 0x0E, 0x0F, 0x10,
        0x11, 0x12, 0x13, 0x14, 0x15, 0x16, 0x17, 0x18, 0x19, 0x1A, 0x1B, 0x1C, 0x1D, 0x1E, 0x1F,
        0x20, 0x21, 0x22, 0x23, 0x24, 0x25, 0x26, 0x27, 0x28, 0x29, 0x2A, 0x2B, 0x2C, 0x2D, 0x2E,
        0x2F, 0x30, 0x31, 0x32, 0x33, 0x34, 0x35, 0x36, 0x37, 0x38, 0x39, 0x46, 0x47, 0x48, 0x49,
        0x4A, 0x4B, 0x4C, 0x4D, 0x4E, 0x4F, 0x50, 0x51, 0x52, 0x53, 0x54, 0x55, 0x56, 0x57, 0x58,
        0x59, 0x5A, 0x5B, 0x5C, 0x5D, 0x5E, 0x5F, 0x60, 0x61, 0x62, 0x63, 0x64, 0x65, 0x66, 0x67,
        0x68, 0x69, 0x6A, 0x6B, 0x6C, 0x6D, 0x6E, 0x6F, 0x70, 0x71, 0x72, 0x73, 0xE0, 0xE1, 0xE2,
        0xE3, 0xE4, 0xE5, 0xE6, 0xE7,
    ] {
        PressedAction::new(Action::Report(Report::Keyboard(code)));
    }
    // desktop page entries fire on the press edge only
    for code in [0x81u8, 0x82, 0x83] {
        PressAction::new(Action::Report(Report::Desktop(code)));
    }
    // consumer page entries
    for code in [0x00E2u16, 0x00E9, 0x00EA, 0x00B5, 0x00B6, 0x00B7, 0x00CD] {
        PressAction::new(Action::Report(Report::Consumer(code)));
    }
}

#[test]
fn test_ht_macros() {
    HoldTap::new(50, kb_f(), kb_j());
}

#[test]
fn holdtap_test_ht_macros() {
    let h = HoldTap::new(50, kb_f(), kb_j());
    assert_eq!(h.thold, 50);
    assert_eq!(h.hold, kb_f());
    assert_eq!(h.tap, kb_j());
}

#[test]
fn policies_fire_on_their_edges() {
    let p = PressAction::new(kb_a());
    assert_eq!(p.act(&Event::Press(3)), Some(kb_a()));
    assert_eq!(p.act(&Event::Pressed(3)), None);
    assert_eq!(p.act(&Event::Release(3)), None);
    assert_eq!(p.act(&Event::Released(3)), None);

    let pd = PressedAction::new(kb_a());
    assert_eq!(pd.act(&Event::Press(0)), Some(kb_a()));
    assert_eq!(pd.act(&Event::Pressed(7)), Some(kb_a()));
    assert_eq!(pd.act(&Event::Release(7)), None);

    let r = ReleaseAction::new(kb_a());
    assert_eq!(r.act(&Event::Release(1)), Some(kb_a()));
    assert_eq!(r.act(&Event::Press(1)), None);

    let rd = ReleasedAction::new(kb_a());
    assert_eq!(rd.act(&Event::Release(1)), Some(kb_a()));
    assert_eq!(rd.act(&Event::Released(9)), Some(kb_a()));
    assert_eq!(rd.act(&Event::Pressed(9)), None);

    let pr = PressReleaseAction::new(kb_a());
    assert_eq!(pr.act(&Event::Press(0)), Some(kb_a()));
    assert_eq!(pr.act(&Event::Release(4)), Some(kb_a()));
    assert_eq!(pr.act(&Event::Pressed(4)), None);
    assert_eq!(pr.act(&Event::Released(4)), None);
}

// With threshold 50: held to tick 50 fires hold exactly once, at tick 50;
// released at 49 fires tap exactly once, at the release edge; never both.
#[test]
fn tap_hold_boundary() {
    let h = HoldTap::new(50, kb_f(), kb_j());

    // a 49-tick press: no fire while held, tap at the release edge
    let mut fires = Vec::new();
    if let Some(a) = h.act(&Event::Press(100)) {
        fires.push(a);
    }
    for i in 1..=49 {
        if let Some(a) = h.act(&Event::Pressed(i)) {
            fires.push(a);
        }
    }
    if let Some(a) = h.act(&Event::Release(49)) {
        fires.push(a);
    }
    assert_eq!(fires, vec![kb_j()]);

    // a 50-tick press: hold fires at exactly tick 50, nothing at the release
    let mut fires = Vec::new();
    if let Some(a) = h.act(&Event::Press(100)) {
        fires.push(a);
    }
    for i in 1..=50 {
        if let Some(a) = h.act(&Event::Pressed(i)) {
            fires.push(a);
            assert_eq!(i, 50);
        }
    }
    if let Some(a) = h.act(&Event::Release(50)) {
        fires.push(a);
    }
    assert_eq!(fires, vec![kb_f()]);
}

// A threshold of 0 makes a hold-tap binding inert: held run counts start at
// 1, so neither arm can ever fire over a full press/release cycle.
#[test]
fn tap_hold_zero_threshold_never_fires() {
    let h = HoldTap::new(0, kb_f(), kb_j());
    assert_eq!(h.act(&Event::Press(7)), None);
    for i in 1..=10 {
        assert_eq!(h.act(&Event::Pressed(i)), None);
    }
    assert_eq!(h.act(&Event::Release(10)), None);
    assert_eq!(h.act(&Event::Release(0)), None);
}

#[test]
fn gate_ties_layer_effects_to_edges() {
    // a momentary switch applies at the press edge ...
    let cur = Action::Layer(Layer::Current(1));
    assert_eq!(gate(&Event::Press(0), cur), Some(cur));
    // ... turns into its undo at the release edge ...
    assert_eq!(
        gate(&Event::Release(9), cur),
        Some(Action::Layer(Layer::Undo(1)))
    );
    // ... and does nothing on steady ticks
    assert_eq!(gate(&Event::Pressed(3), cur), None);
    assert_eq!(gate(&Event::Released(3), cur), None);

    let def = Action::Layer(Layer::Default(2));
    assert_eq!(gate(&Event::Press(0), def), Some(def));
    assert_eq!(gate(&Event::Release(0), def), None);

    let undo = Action::Layer(Layer::Undo(2));
    assert_eq!(gate(&Event::Release(0), undo), Some(undo));
    assert_eq!(gate(&Event::Press(0), undo), None);

    // reports pass through on any tick
    assert_eq!(gate(&Event::Pressed(5), kb_a()), Some(kb_a()));
}

#[test]
fn misbound_undo_is_flagged() {
    let dead = KeyAction::Press(Action::Layer(Layer::Undo(1)));
    assert!(!dead.undo_well_bound());
    let dead_hold = KeyAction::HoldTap(HoldTap::new(50, Action::Layer(Layer::Undo(1)), kb_j()));
    assert!(!dead_hold.undo_well_bound());
    let fine = KeyAction::Release(Action::Layer(Layer::Undo(1)));
    assert!(fine.undo_well_bound());
    let fine_tap = KeyAction::PressRelease(Action::Layer(Layer::Current(1)));
    assert!(fine_tap.undo_well_bound());
}

#[test]
fn key_action_resolution_matches_policies() {
    let k = KeyAction::Pressed(kb_a());
    assert_eq!(k.act(&Event::Press(0)), Some(kb_a()));
    assert_eq!(k.act(&Event::Pressed(2)), Some(kb_a()));
    assert_eq!(k.act(&Event::Released(2)), None);

    let h = KeyAction::HoldTap(HoldTap::new(2, kb_f(), kb_j()));
    assert_eq!(h.act(&Event::Pressed(2)), Some(kb_f()));
    assert_eq!(h.act(&Event::Pressed(1)), None);
    assert_eq!(h.act(&Event::Release(1)), Some(kb_j()));
    assert_eq!(h.act(&Event::Release(2)), None);
}
