use led_watchdog::{timeline, Rgb, Sequencer, SequencerAction};

const OFF: Rgb = Rgb { r: 0, g: 0, b: 0 };
const BLUE: Rgb = Rgb { r: 0, g: 0, b: 255 };
const GREEN: Rgb = Rgb { r: 0, g: 255, b: 0 };
const WHITE: Rgb = Rgb { r: 255, g: 255, b: 255 };
const RED: Rgb = Rgb { r: 255, g: 0, b: 0 };

#[test]
fn timeline_matches_the_script() {
    let t = timeline(30);
    assert_eq!(t.len(), 30);
    assert_eq!(t[0], (BLUE, 0));
    assert_eq!(t[1], (OFF, 2000));
    for r in 0..5u64 {
        let i = 2 + 4 * r as usize;
        let base = 2500 + 2000 * r;
        assert_eq!(t[i], (GREEN, base));
        assert_eq!(t[i + 1], (OFF, base + 500));
        assert_eq!(t[i + 2], (WHITE, base + 1000));
        assert_eq!(t[i + 3], (OFF, base + 1500));
    }
    assert_eq!(t[21], (OFF, 12000));
    for b in 0..8u64 {
        let c = if b % 2 == 0 { RED } else { OFF };
        assert_eq!(t[22 + b as usize], (c, 12500 + 100 * b));
    }
}

#[test]
fn timeline_is_identical_across_runs() {
    assert_eq!(timeline(100), timeline(100));
    assert_eq!(timeline(0), Vec::new());
    assert_eq!(timeline(5)[..], timeline(40)[..5]);
}

#[test]
fn sequencer_sends_once_between_sequence_and_blink() {
    let mut s = Sequencer::new();
    let mut sends = 0;
    let mut writes = 0;
    let mut clock = 0u64;
    let mut send_at = None;
    for _ in 0..500 {
        match s.next() {
            SequencerAction::Write(_) => writes += 1,
            SequencerAction::Hold(ms) => clock += ms,
            SequencerAction::SendStop => {
                sends += 1;
                send_at = Some((clock, writes));
            }
        }
    }
    assert_eq!(sends, 1);
    assert_eq!(send_at, Some((12500, 22)));
}

#[test]
fn blink_loop_repeats_red_and_off() {
    let mut s = Sequencer::new();
    for _ in 0..45 {
        s.next();
    }
    for _ in 0..3 {
        assert_eq!(s.next(), SequencerAction::Write(RED));
        assert_eq!(s.next(), SequencerAction::Hold(100));
        assert_eq!(s.next(), SequencerAction::Write(OFF));
        assert_eq!(s.next(), SequencerAction::Hold(100));
    }
    assert_eq!(s.pos, 45);
}
