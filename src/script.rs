use vstd::prelude::*;

verus! {

/// One colour of the addressable LED.
#[derive(Clone, Copy, Debug, PartialEq, Eq, Structural)]
pub struct Rgb {
    pub r: u8,
    pub g: u8,
    pub b: u8,
}

pub open spec fn off() -> Rgb {
    Rgb { r: 0, g: 0, b: 0 }
}

pub open spec fn blue() -> Rgb {
    Rgb { r: 0, g: 0, b: 255 }
}

pub open spec fn green() -> Rgb {
    Rgb { r: 0, g: 255, b: 0 }
}

pub open spec fn white() -> Rgb {
    Rgb { r: 255, g: 255, b: 255 }
}

pub open spec fn red() -> Rgb {
    Rgb { r: 255, g: 0, b: 0 }
}

/// One step of the LED script.
#[derive(Clone, Copy, Debug, PartialEq, Eq, Structural)]
pub enum SequencerAction {
    /// Show this colour.
    Write(Rgb),
    /// Wait this many milliseconds.
    Hold(u64),
    /// Send the termination token to the feeder.
    SendStop,
}

/// Positions of the script: 0..4 the blue intro, 4..44 five rounds of
/// green/off/white/off, 44 the send, 45..49 the red/off blink that repeats.
pub open spec fn script_len() -> nat {
    49
}

/// The action at a position of the script.
pub open spec fn action_at_pos(p: nat) -> SequencerAction {
    if p == 0 {
        SequencerAction::Write(blue())
    } else if p == 1 {
        SequencerAction::Hold(2000)
    } else if p == 2 {
        SequencerAction::Write(off())
    } else if p == 3 {
        SequencerAction::Hold(500)
    } else if p < 44 {
        let j = (p - 4) % 8;
        if j % 2 == 1 {
            SequencerAction::Hold(500)
        } else if j == 0 {
            SequencerAction::Write(green())
        } else if j == 4 {
            SequencerAction::Write(white())
        } else {
            SequencerAction::Write(off())
        }
    } else if p == 44 {
        SequencerAction::SendStop
    } else {
        let j = (p - 45) % 4;
        if j % 2 == 1 {
            SequencerAction::Hold(100)
        } else if j == 0 {
            SequencerAction::Write(red())
        } else {
            SequencerAction::Write(off())
        }
    }
}

/// The position reached after `k` actions: the blink loop wraps around.
pub open spec fn pos_after(k: nat) -> nat {
    if k < 45 {
        k
    } else {
        (45 + (k - 45) % 4) as nat
    }
}

/// The `k`-th action the sequencer performs.
pub open spec fn action_at(k: nat) -> SequencerAction {
    action_at_pos(pos_after(k))
}

/// Colour of the `i`-th write to the LED.
pub open spec fn write_color(i: nat) -> Rgb {
    if i == 0 {
        blue()
    } else if i == 1 {
        off()
    } else if i < 22 {
        let j = (i - 2) % 4;
        if j == 0 {
            green()
        } else if j == 2 {
            white()
        } else {
            off()
        }
    } else if (i - 22) % 2 == 0 {
        red()
    } else {
        off()
    }
}

/// Instant, in milliseconds from the start of the script, of the `i`-th write.
pub open spec fn write_time(i: nat) -> int {
    if i == 0 {
        0
    } else if i == 1 {
        2000
    } else if i < 22 {
        2500 + 500 * (i - 2)
    } else {
        12500 + 100 * (i - 22)
    }
}

/// Instant at which the termination token is sent.
pub open spec fn send_time() -> int {
    12500
}

/// Writes performed before action `k`.
pub open spec fn writes_before(k: nat) -> nat {
    if k <= 44 {
        ((k + 1) / 2) as nat
    } else {
        (22 + (k - 44) / 2) as nat
    }
}

/// Clock when action `k` starts.
pub open spec fn clock_before(k: nat) -> int {
    if k <= 1 {
        0
    } else if k <= 3 {
        2000
    } else if k <= 44 {
        2500 + 500 * ((k - 4) / 2)
    } else {
        12500 + 100 * ((k - 45) / 2)
    }
}

/// One action advances the count of writes and the clock as that action says,
/// and each write shows the colour the script gives it at its instant.
pub proof fn lemma_action_step(k: nat)
    ensures
        action_at(k) matches SequencerAction::Write(c) ==> c == write_color(writes_before(k))
            && clock_before(k) == write_time(writes_before(k))
            && writes_before(k + 1) == writes_before(k) + 1
            && clock_before(k + 1) == clock_before(k),
        action_at(k) matches SequencerAction::Hold(ms) ==> writes_before(k + 1) == writes_before(k)
            && clock_before(k + 1) == clock_before(k) + ms,
        action_at(k) is SendStop ==> k == 44 && writes_before(k + 1) == writes_before(k)
            && clock_before(k + 1) == clock_before(k) && clock_before(k) == send_time(),
{
    if 4 <= k < 44 {
        let r = (k - 4) / 8;
        let j = (k - 4) % 8;
        assert(k == 4 + 8 * r + j);
        assert((k + 1) / 2 == 2 + 4 * r + (j + 1) / 2);
        assert((k + 2) / 2 == 2 + 4 * r + (j + 2) / 2);
        assert((k - 4) / 2 == 4 * r + j / 2);
        assert((k - 3) / 2 == 4 * r + (j + 1) / 2);
    } else if k >= 45 {
        let r = (k - 45) / 4;
        let j = (k - 45) % 4;
        assert(k == 45 + 4 * r + j);
        assert((k - 44) / 2 == 2 * r + (j + 1) / 2);
        assert((k - 43) / 2 == 2 * r + (j + 2) / 2);
        assert((k - 45) / 2 == 2 * r + j / 2);
        assert((k - 44) / 2 == 2 * r + (j + 1) / 2);
    }
}

/// The send comes once: as action 44, after the twenty-two writes of the
/// visible sequence and 500 ms after the last of them, at `send_time()`, which is
/// also the instant of the first red blink.
pub proof fn lemma_send_once(k: nat)
    ensures
        (action_at(k) is SendStop) <==> k == 44,
        k == 44 ==> writes_before(k) == 22 && clock_before(k) == send_time()
            && send_time() == write_time(21) + 500 && send_time() == write_time(22)
            && write_color(22) == red(),
{
    lemma_action_step(k);
    if k >= 45 {
        assert((45 + (k - 45) % 4) as nat >= 45);
    }
}

/// How far position `p` lies from the next write, weighted so that every
/// action brings the sequencer closer to its next write.
pub open spec fn steps_to_write(p: nat) -> int {
    if p == 43 {
        3
    } else if p == 44 {
        2
    } else if p < 44 {
        (p % 2) as int
    } else {
        ((p - 45) % 2) as int
    }
}

/// The LED sequencer: its position in the script.
pub struct Sequencer {
    pub pos: u64,
}

impl Sequencer {
    pub open spec fn wf(&self) -> bool {
        self.pos < script_len()
    }

    /// A sequencer at the start of the script.
    pub fn new() -> (r: Sequencer)
        ensures
            r.pos == 0,
            r.wf(),
    {
        Sequencer { pos: 0 }
    }

    /// Returns the action at the current position and moves past it; after
    /// the last blink step the blink loop starts over.
    pub fn next(&mut self) -> (a: SequencerAction)
        requires
            old(self).wf(),
        ensures
            final(self).wf(),
            a == action_at_pos(old(self).pos as nat),
            final(self).pos == (if old(self).pos == 48 { 45 } else { old(self).pos + 1 }),
    {
        let p = self.pos;
        let a = if p == 0 {
            SequencerAction::Write(Rgb { r: 0, g: 0, b: 255 })
        } else if p == 1 {
            SequencerAction::Hold(2000)
        } else if p == 2 {
            SequencerAction::Write(Rgb { r: 0, g: 0, b: 0 })
        } else if p == 3 {
            SequencerAction::Hold(500)
        } else if p < 44 {
            let j = (p - 4) % 8;
            if j % 2 == 1 {
                SequencerAction::Hold(500)
            } else if j == 0 {
                SequencerAction::Write(Rgb { r: 0, g: 255, b: 0 })
            } else if j == 4 {
                SequencerAction::Write(Rgb { r: 255, g: 255, b: 255 })
            } else {
                SequencerAction::Write(Rgb { r: 0, g: 0, b: 0 })
            }
        } else if p == 44 {
            SequencerAction::SendStop
        } else {
            let j = (p - 45) % 4;
            if j % 2 == 1 {
                SequencerAction::Hold(100)
            } else if j == 0 {
                SequencerAction::Write(Rgb { r: 255, g: 0, b: 0 })
            } else {
                SequencerAction::Write(Rgb { r: 0, g: 0, b: 0 })
            }
        };
        self.pos = if p == 48 { 45 } else { p + 1 };
        a
    }
}

/// Plays the script on a clock that starts at zero and records the first `n`
/// writes as (colour, instant) pairs: the same pairs on every run.
pub fn timeline(n: usize) -> (r: Vec<(Rgb, u64)>)
    requires
        n <= 1_000_000,
    ensures
        r@.len() == n,
        forall|i: int| 0 <= i < n ==> #[trigger] r@[i] == (write_color(i as nat), write_time(i as nat) as u64),
{
    let mut s = Sequencer::new();
    let mut out: Vec<(Rgb, u64)> = Vec::new();
    let mut now: u64 = 0;
    let ghost mut k: nat = 0;
    while out.len() < n
        invariant
            s.wf(),
            s.pos == pos_after(k),
            out@.len() == writes_before(k),
            out@.len() <= n,
            n <= 1_000_000,
            now == clock_before(k),
            forall|i: int| 0 <= i < out@.len() ==> #[trigger] out@[i] == (write_color(i as nat), write_time(i as nat) as u64),
        decreases 4 * (n - out@.len()) + steps_to_write(s.pos as nat),
    {
        proof {
            lemma_action_step(k);
        }
        let a = s.next();
        match a {
            SequencerAction::Write(c) => {
                out.push((c, now));
            },
            SequencerAction::Hold(ms) => {
                now = now + ms;
            },
            SequencerAction::SendStop => {},
        }
        proof {
            k = k + 1;
        }
    }
    out
}

} // verus!
