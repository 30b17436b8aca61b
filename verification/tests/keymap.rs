use keycore::action::holdtap::HoldTap;
use keycore::action::{Action, KeyAction, Layer};
use keycore::event::Event;
use keycore::handler::chord::Chord;
use keycore::handler::comb::Comb;
use keycore::keymap::BasicKeymap;
use keycore::performer::Performer;
use keycore::processor::Processor;
use keycore::report::Report;
use keycore::state::State;

fn kb(code: u8) -> KeyAction {
    KeyAction::Pressed(Action::Report(Report::Keyboard(code)))
}

fn r(code: u8) -> Report {
    Report::Keyboard(code)
}

const A: u8 = 0x04;
const B: u8 = 0x05;
const C: u8 = 0x06;
const F: u8 = 0x09;
const J: u8 = 0x0D;
const Q: u8 = 0x14;

/// The six-key, three-layer keymap the scenario suite runs on. Key layout
/// per layer, by key index:
///   layer 0: A A A ht(50,F,J) momentary(1) persistent(1)
///   layer 1: B B persistent(2) B B persistent(0)
///   layer 2: C C C C C persistent(0)
/// plus a chord on keys 1+2 bound to Q on layer 0, and a chord on keys 2+4
/// bound to a persistent switch to layer 1 on layer 0.
fn scenario_keymap() -> BasicKeymap<5> {
    let layer0 = vec![
        kb(A),
        kb(A),
        kb(A),
        KeyAction::HoldTap(HoldTap::new(
            50,
            Action::Report(r(F)),
            Action::Report(r(J)),
        )),
        KeyAction::PressRelease(Action::Layer(Layer::Current(1))),
        KeyAction::Press(Action::Layer(Layer::Default(1))),
    ];
    let layer1 = vec![
        kb(B),
        kb(B),
        KeyAction::Press(Action::Layer(Layer::Default(2))),
        kb(B),
        kb(B),
        KeyAction::Press(Action::Layer(Layer::Default(0))),
    ];
    let layer2 = vec![
        kb(C),
        kb(C),
        kb(C),
        kb(C),
        kb(C),
        KeyAction::Press(Action::Layer(Layer::Default(0))),
    ];
    let chord1 = Chord::new((1, 2), vec![Some(Action::Report(r(Q))), None, None]);
    let chord2 = Chord::new(
        (2, 4),
        vec![Some(Action::Layer(Layer::Default(1))), None, None],
    );
    BasicKeymap::new(
        vec![layer0, layer1, layer2],
        vec![Processor::Chord(chord1), Processor::Chord(chord2)],
    )
}

struct Tester {
    keymap: BasicKeymap<5>,
}

impl Tester {
    fn new(keymap: BasicKeymap<5>) -> Tester {
        Tester { keymap }
    }

    fn reset_keys(&mut self) {
        let idle = vec![false; 6];
        for _ in 0..11 {
            self.keymap.tick(&idle);
        }
    }

    fn test(&mut self, ids: &[usize], delays: &[usize], expected_outputs: &[Report]) {
        let mut switches = vec![false; 6];

        assert!(!ids.is_empty());
        assert!(delays.len() == ids.len());
        for id in ids {
            assert!(*id < 6);
        }

        self.reset_keys();
        for (id, delay) in ids.iter().zip(delays.iter()) {
            switches[*id] ^= true;
            for _ in 0..*delay {
                self.keymap.tick(&switches);
            }
        }

        self.keymap.tick(&switches);
        let reports = self.keymap.reports();
        assert!(
            reports.len() >= expected_outputs.len(),
            "inputs: {:?} {:?}, got {:?}, wanted {:?}",
            ids,
            delays,
            reports,
            expected_outputs
        );
        for (k, expected) in expected_outputs.iter().enumerate() {
            assert_eq!(
                reports[k], *expected,
                "inputs: {:?} {:?}, got {:?}",
                ids, delays, reports
            );
        }
    }
}

#[test]
fn test() {
    let mut tester = Tester::new(scenario_keymap());
    tester.test(&[0], &[5], &[r(A)]); // 1 key
    tester.test(&[0, 1], &[0, 5], &[r(A), r(A)]); // 2 keys
    tester.test(&[4, 4, 0], &[6, 6, 5], &[r(A)]); // layer 0 -> 1 -> 0
    tester.test(&[5, 5, 0], &[6, 0, 5], &[r(B)]); // layer 0 -> 1
    tester.test(&[5, 5, 0], &[6, 6, 5], &[r(A)]); // layer 1 -> 0
    tester.test(&[5, 0], &[6, 5], &[r(B)]); // layer 0 -> 1
    tester.test(&[5, 0], &[6, 5], &[r(A)]); // layer 1 -> 0

    // key 2 switches layers while key 4's momentary hold is still down, so
    // key 4's release may not revert the layer: layer 2 stays active from
    // here on, and every later press lands on the layer-2 bindings.
    tester.test(&[4, 2, 4, 0], &[6, 6, 6, 5], &[r(C)]); // layer 0 -> 1 -> 2, undo refused

    tester.test(&[3, 3], &[49, 5], &[]); // layer-2 binding of key 3: no release fire
    tester.test(&[3], &[55], &[r(C)]); // layer-2 binding of key 3: plain repeat
    tester.test(&[1, 2], &[0, 5], &[r(C), r(C)]); // chord has no layer-2 entry
    tester.test(&[1, 2, 1, 2, 1], &[0, 6, 0, 6, 5], &[r(C)]);
    tester.test(&[4, 2, 4, 2, 0], &[0, 6, 0, 6, 5], &[r(C)]);
}

/// The tap/hold key on layer 0, exercised through whole ticks: a short press
/// taps, a long press fires the hold at the threshold tick.
#[test]
fn keymap_tap_and_hold() {
    let mut tester = Tester::new(scenario_keymap());
    tester.test(&[3, 3], &[49, 4], &[r(J)]); // tap: the release edge commits on the checked tick
    tester.test(&[3], &[54], &[r(F)]); // hold: the checked tick is held tick 50
}

/// The chord on keys 1+2: pressing both together yields the chord action
/// and suppresses the keys' own bindings; after both release it re-arms.
#[test]
fn keymap_chording() {
    let mut tester = Tester::new(scenario_keymap());
    tester.test(&[1, 2], &[0, 4], &[r(Q)]); // chord fires once, at the tick both press edges commit
    tester.test(&[1, 2, 1, 2, 1], &[0, 6, 0, 6, 5], &[r(A)]); // re-armed, single key is plain again
    tester.test(&[4, 2, 4, 2, 0], &[0, 6, 0, 6, 5], &[r(B)]); // the layer-switch chord
}

/// The checked constructor takes exactly the configurations the plain one
/// requires: ragged grids, empty grids and mis-wired handlers are refused.
#[test]
fn try_new_validates_the_configuration() {
    assert!(BasicKeymap::<5>::try_new(vec![vec![kb(A), kb(B)]], vec![]).is_some());
    assert!(BasicKeymap::<5>::try_new(vec![], vec![]).is_none());
    assert!(BasicKeymap::<5>::try_new(vec![vec![kb(A), kb(B)], vec![kb(C)]], vec![]).is_none());

    let chord_out_of_range = Chord::new((0, 5), vec![Some(Action::Report(r(Q)))]);
    assert!(BasicKeymap::<5>::try_new(
        vec![vec![kb(A), kb(B)]],
        vec![Processor::Chord(chord_out_of_range)]
    )
    .is_none());

    let comb_short_table = Comb::new(0, vec![]);
    assert!(BasicKeymap::<5>::try_new(
        vec![vec![kb(A), kb(B)]],
        vec![Processor::Comb(comb_short_table)]
    )
    .is_none());

    let ok_chord = Chord::new((0, 1), vec![Some(Action::Report(r(Q)))]);
    assert!(BasicKeymap::<5>::try_new(
        vec![vec![kb(A), kb(B)]],
        vec![Processor::Chord(ok_chord)]
    )
    .is_some());
}

/// Two keys bound to different reports pressed in the same tick come out in
/// key-index order.
#[test]
fn report_ordering() {
    let layer0 = vec![kb(A), kb(B)];
    let mut keymap: BasicKeymap<0> = BasicKeymap::new(vec![layer0], vec![]);
    let both = vec![true, true];
    keymap.tick(&both);
    assert_eq!(keymap.reports(), vec![r(A), r(B)]);
}

/// The concrete end-to-end scenario: 6 keys, 2 layers, debounce 5. Pressing
/// key 0 alone gives exactly one A per tick once debounced; releasing stops
/// the reports; holding key 4 (momentary layer 1) makes key 0 produce B.
#[test]
fn six_key_two_layer_scenario() {
    let layer0 = vec![
        kb(A),
        kb(A),
        kb(A),
        kb(A),
        KeyAction::PressRelease(Action::Layer(Layer::Current(1))),
        kb(A),
    ];
    let layer1 = vec![kb(B), kb(B), kb(B), kb(B), kb(B), kb(B)];
    let mut keymap: BasicKeymap<5> = BasicKeymap::new(vec![layer0, layer1], vec![]);

    let idle = vec![false; 6];
    for _ in 0..11 {
        keymap.tick(&idle);
        assert_eq!(keymap.reports(), Vec::new());
    }

    // press key 0 alone: nothing while the debouncer is still filtering,
    // then exactly one A per tick from the fifth sample on
    let mut switches = vec![false; 6];
    switches[0] = true;
    for _ in 0..4 {
        keymap.tick(&switches);
        assert_eq!(keymap.reports(), Vec::new());
    }
    for _ in 0..21 {
        keymap.tick(&switches);
        assert_eq!(keymap.reports(), vec![r(A)]);
    }

    // release: the debouncer still reports the key held for 4 more ticks,
    // then the release edge commits and the reports stop
    switches[0] = false;
    for _ in 0..4 {
        keymap.tick(&switches);
        assert_eq!(keymap.reports(), vec![r(A)]);
    }
    for _ in 0..16 {
        keymap.tick(&switches);
        assert_eq!(keymap.reports(), Vec::new());
    }

    // hold key 4 (momentary layer 1), then key 0: B instead of A
    switches[4] = true;
    for _ in 0..11 {
        keymap.tick(&switches);
    }
    assert_eq!(keymap.current_layer(), 1);
    switches[0] = true;
    for _ in 0..4 {
        keymap.tick(&switches);
        assert_eq!(keymap.reports(), Vec::new());
    }
    for _ in 0..10 {
        keymap.tick(&switches);
        assert_eq!(keymap.reports(), vec![r(B)]);
    }
}

/// The chord protocol directly: one action at the arming tick, suppression
/// while held, re-armed after both keys come free.
#[test]
fn chord_arm_disarm_cycle() {
    let mut chord = Chord::new((0, 1), vec![Some(Action::Report(r(Q)))]);
    let mut performer = Performer::new(1);

    // both keys reach the pressed state together: fires exactly once
    let mut states = vec![State(true, Event::Press(9), 0), State(true, Event::Press(9), 0)];
    chord.handle(&mut states, &mut performer);
    assert!(chord.triggered);
    assert!(!states[0].0 && !states[1].0);
    assert_eq!(performer.reports(), vec![r(Q)]);

    // held: keeps claiming both keys, adds nothing
    performer.clear();
    let mut states = vec![
        State(true, Event::Pressed(1), 0),
        State(true, Event::Pressed(1), 0),
    ];
    chord.handle(&mut states, &mut performer);
    assert!(chord.triggered);
    assert!(!states[0].0 && !states[1].0);
    assert_eq!(performer.reports(), Vec::new());

    // one key released: still tripped
    let mut states = vec![
        State(true, Event::Release(5), 0),
        State(true, Event::Pressed(6), 0),
    ];
    chord.handle(&mut states, &mut performer);
    assert!(chord.triggered);

    // both free: re-arms without firing
    let mut states = vec![
        State(true, Event::Released(1), 0),
        State(true, Event::Release(6), 0),
    ];
    chord.handle(&mut states, &mut performer);
    assert!(!chord.triggered);
    assert_eq!(performer.reports(), Vec::new());

    // and a fresh press fires again
    let mut states = vec![State(true, Event::Press(9), 0), State(true, Event::Press(9), 0)];
    chord.handle(&mut states, &mut performer);
    assert!(chord.triggered);
    assert_eq!(performer.reports(), vec![r(Q)]);
}

/// A combo fires its whole sequence, in order, in one tick, and claims its
/// key so the ordinary binding stays quiet; a later press fires it again.
#[test]
fn comb_fires_sequence_in_order() {
    let comb = Comb::new(
        0,
        vec![Some(vec![
            Action::Report(r(A)),
            Action::Report(r(B)),
            Action::Report(r(C)),
        ])],
    );
    let mut performer = Performer::new(1);

    let mut states = vec![State(true, Event::Press(4), 0)];
    comb.handle(&mut states, &mut performer);
    assert!(!states[0].0);
    assert_eq!(performer.reports(), vec![r(A), r(B), r(C)]);

    // held ticks produce nothing further, but the key stays claimed
    performer.clear();
    let mut states = vec![State(true, Event::Pressed(1), 0)];
    comb.handle(&mut states, &mut performer);
    assert!(!states[0].0);
    assert_eq!(performer.reports(), Vec::new());

    // a fresh press re-fires
    let mut states = vec![State(true, Event::Press(9), 0)];
    comb.handle(&mut states, &mut performer);
    assert_eq!(performer.reports(), vec![r(A), r(B), r(C)]);
}

/// A combo key inside a keymap: the sequence comes out on the press tick,
/// and the key's own binding never does.
#[test]
fn keymap_with_comb() {
    let layer0 = vec![kb(A), kb(B)];
    let comb = Comb::new(
        0,
        vec![Some(vec![Action::Report(r(F)), Action::Report(r(J))])],
    );
    let mut keymap: BasicKeymap<0> = BasicKeymap::new(vec![layer0], vec![Processor::Comb(comb)]);

    let mut switches = vec![false, false];
    keymap.tick(&switches);
    assert_eq!(keymap.reports(), Vec::new());

    switches[0] = true;
    keymap.tick(&switches);
    assert_eq!(keymap.reports(), vec![r(F), r(J)]);

    // while held: the combo is quiet and key 0's own A stays suppressed
    keymap.tick(&switches);
    assert_eq!(keymap.reports(), Vec::new());

    switches[1] = true;
    keymap.tick(&switches);
    assert_eq!(keymap.reports(), vec![r(B)]);
}
