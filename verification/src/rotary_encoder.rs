use vstd::prelude::*;

use embedded_hal::digital::InputPin;

use crate::event::KeyEvent;

verus! {

/// The encoder direction is either `Clockwise`, `CounterClockwise`, or `NoChange`.
#[derive(Clone, Copy, Debug, PartialEq, Eq, Structural)]
pub enum Direction {
    /// A clockwise turn.
    Clockwise,
    /// A counterclockwise turn.
    CounterClockwise,
    /// No change.
    NoChange,
}

/// Allows customizing which quadrature phases should be considered movements,
/// and in which direction, or ignored.
pub trait Phase {
    /// The classification policy as a mathematical function of the 4-bit
    /// transition code, given the policy's current state.
    spec fn spec_direction(&self, s: u8) -> Direction;

    /// Given the current transition code `s`, return the direction.
    fn direction(&mut self, s: u8) -> (d: Direction)
        ensures
            d == old(self).spec_direction(s),
    ;
}

/// The rotation outcome the default policy assigns to a 4-bit transition code.
/// Eight of the sixteen codes are valid transitions; the other eight are
/// rejected as noise and classify as `NoChange`.
pub open spec fn default_classification(s: u8) -> Direction {
    if s == 0b0001 || s == 0b0111 || s == 0b1000 || s == 0b1110 {
        Direction::Clockwise
    } else if s == 0b0010 || s == 0b0100 || s == 0b1011 || s == 0b1101 {
        Direction::CounterClockwise
    } else {
        Direction::NoChange
    }
}

/// Default implementation of `Phase`.
pub struct DefaultPhase;

/// The useful values of `s` are:
/// - 0b0001 | 0b0111 | 0b1000 | 0b1110
/// - 0b0010 | 0b0100 | 0b1011 | 0b1101
impl Phase for DefaultPhase {
    open spec fn spec_direction(&self, s: u8) -> Direction {
        default_classification(s)
    }

    fn direction(&mut self, s: u8) -> (d: Direction) {
        match s {
            0b0001 | 0b0111 | 0b1000 | 0b1110 => Direction::Clockwise,
            0b0010 | 0b0100 | 0b1011 | 0b1101 => Direction::CounterClockwise,
            _ => Direction::NoChange,
        }
    }
}

/// The 4-bit transition code built from the stored 2-bit history (low bits)
/// and the current pin readings (bit 2: A is low, bit 3: B is low).
pub open spec fn transition_code(prev: u8, a_is_low: bool, b_is_low: bool) -> u8 {
    let with_a = if a_is_low {
        (prev & 0b11) | 0b0100
    } else {
        prev & 0b11
    };
    if b_is_low {
        with_a | 0b1000
    } else {
        with_a
    }
}

/// The raw 2-bit reading of one sampling (bit 0: A is low, bit 1: B is low);
/// this is what the decoder keeps as history for the next sampling.
pub open spec fn reading_bits(a_is_low: bool, b_is_low: bool) -> u8 {
    if a_is_low {
        if b_is_low {
            3u8
        } else {
            1u8
        }
    } else {
        if b_is_low {
            2u8
        } else {
            0u8
        }
    }
}

/// The high two bits of a transition code are exactly the raw reading that
/// produced it.
pub proof fn lemma_code_high_bits(prev: u8, a_is_low: bool, b_is_low: bool)
    ensures
        transition_code(prev, a_is_low, b_is_low) >> 2 == reading_bits(a_is_low, b_is_low),
{
    let p = prev;
    if a_is_low {
        if b_is_low {
            assert((((p & 0b11) | 0b0100) | 0b1000) >> 2 == 3u8) by (bit_vector);
        } else {
            assert(((p & 0b11) | 0b0100) >> 2 == 1u8) by (bit_vector);
        }
    } else {
        if b_is_low {
            assert(((p & 0b11) | 0b1000) >> 2 == 2u8) by (bit_vector);
        } else {
            assert((p & 0b11) >> 2 == 0u8) by (bit_vector);
        }
    }
}

/// The history register after a sequence of successful samplings, starting
/// from `init`; a failed sampling contributes nothing to this sequence.
pub open spec fn history_after(init: u8, reads: Seq<(bool, bool)>) -> u8
    decreases reads.len(),
{
    if reads.len() == 0 {
        init
    } else {
        transition_code(
            history_after(init, reads.drop_last()),
            reads.last().0,
            reads.last().1,
        ) >> 2
    }
}

/// History carry-over: for any finite sequence of successful samplings, the
/// history register after the first `k + 1` of them — the register the
/// decoder consults at sampling `k + 1` — equals the raw 2-bit reading
/// observed at sampling `k`, whatever the initial register held.
pub proof fn lemma_history_carry_over(init: u8, reads: Seq<(bool, bool)>, k: int)
    requires
        0 <= k < reads.len(),
    ensures
        history_after(init, reads.take(k + 1)) == reading_bits(reads[k].0, reads[k].1),
{
    let pre = reads.take(k + 1);
    assert(pre.last() == reads[k]);
    lemma_code_high_bits(history_after(init, pre.drop_last()), reads[k].0, reads[k].1);
}

/// Holds current/old state and both input pins of the quadrature signal.
#[derive(Debug)]
pub struct RotaryEncoder<A, B, P> {
    pin_a: A,
    pin_b: B,
    state: u8,
    phase: P,
    /// (row, col) position in the keymap emitted on a clockwise detent.
    clockwise_pos: (u8, u8),
    /// (row, col) position in the keymap emitted on a counterclockwise detent.
    counter_clockwise_pos: (u8, u8),
}

/// Relies on `embedded_hal::digital::InputPin::is_low`: reads whether the
/// pin's line is pulled low. The hardware read may fail and may leave the pin
/// resource in a new state; nothing is promised of the result.
#[verifier::external_body]
fn read_is_low<T: InputPin>(pin: &mut T) -> (r: Option<bool>) {
    pin.is_low().ok()
}

impl<A, B, P> RotaryEncoder<A, B, P> {
    /// The stored 2-bit history register.
    pub closed spec fn history(self) -> u8 {
        self.state
    }

    /// The owned phase-classification policy.
    pub closed spec fn spec_phase(self) -> P {
        self.phase
    }

    /// The keymap position emitted on a clockwise detent.
    pub closed spec fn spec_clockwise_pos(self) -> (u8, u8) {
        self.clockwise_pos
    }

    /// The keymap position emitted on a counterclockwise detent.
    pub closed spec fn spec_counter_clockwise_pos(self) -> (u8, u8) {
        self.counter_clockwise_pos
    }

    /// The owned pin A resource.
    pub closed spec fn spec_pin_a(self) -> A {
        self.pin_a
    }

    /// The owned pin B resource.
    pub closed spec fn spec_pin_b(self) -> B {
        self.pin_b
    }
}

impl<A, B> RotaryEncoder<A, B, DefaultPhase>
where
    A: InputPin,
    B: InputPin,
{
    /// Accepts two input pins; these will be read on every `update()`.
    ///
    /// `clockwise_pos` and `counter_clockwise_pos` are the (row, col)
    /// positions in the keymap.
    pub fn new(
        pin_a: A,
        pin_b: B,
        clockwise_pos: (u8, u8),
        counter_clockwise_pos: (u8, u8),
    ) -> (r: Self)
        ensures
            r.spec_pin_a() == pin_a,
            r.spec_pin_b() == pin_b,
            r.history() == 0,
            r.spec_phase() == (DefaultPhase),
            r.spec_clockwise_pos() == clockwise_pos,
            r.spec_counter_clockwise_pos() == counter_clockwise_pos,
    {
        Self {
            pin_a,
            pin_b,
            state: 0u8,
            phase: DefaultPhase,
            clockwise_pos,
            counter_clockwise_pos,
        }
    }
}

impl<A: InputPin, B: InputPin, P: Phase> RotaryEncoder<A, B, P> {
    /// Accepts two input pins; these will be read on every `update()`, while
    /// using `phase` to determine the direction.
    ///
    /// `clockwise_pos` and `counter_clockwise_pos` are the (row, col)
    /// positions in the keymap.
    pub fn with_phase(
        pin_a: A,
        pin_b: B,
        phase: P,
        clockwise_pos: (u8, u8),
        counter_clockwise_pos: (u8, u8),
    ) -> (r: Self)
        ensures
            r.spec_pin_a() == pin_a,
            r.spec_pin_b() == pin_b,
            r.history() == 0,
            r.spec_phase() == phase,
            r.spec_clockwise_pos() == clockwise_pos,
            r.spec_counter_clockwise_pos() == counter_clockwise_pos,
    {
        Self {
            pin_a,
            pin_b,
            state: 0u8,
            phase,
            clockwise_pos,
            counter_clockwise_pos,
        }
    }

    /// Relation between the decoder before and after one successful sampling
    /// that read `a_is_low` and `b_is_low`: the outcome is the policy's
    /// classification of the transition code, and the history register is
    /// advanced to the current reading. The pin resources are not constrained.
    pub open spec fn stepped(
        pre: Self,
        post: Self,
        a_is_low: bool,
        b_is_low: bool,
        d: Direction,
    ) -> bool {
        let s = transition_code(pre.history(), a_is_low, b_is_low);
        &&& d == pre.spec_phase().spec_direction(s)
        &&& post.history() == s >> 2
        &&& post.spec_clockwise_pos() == pre.spec_clockwise_pos()
        &&& post.spec_counter_clockwise_pos() == pre.spec_counter_clockwise_pos()
    }

    /// Relation between the decoder before and after a sampling in which some
    /// pin read failed: no rotation is reported, and neither the history
    /// register nor the policy is touched.
    pub open spec fn sample_failed(pre: Self, post: Self, d: Direction) -> bool {
        &&& d == Direction::NoChange
        &&& post.history() == pre.history()
        &&& post.spec_phase() == pre.spec_phase()
        &&& post.spec_clockwise_pos() == pre.spec_clockwise_pos()
        &&& post.spec_counter_clockwise_pos() == pre.spec_counter_clockwise_pos()
    }

    /// What one call of `update` does, given what the two pin reads returned
    /// (`None` standing for a failed read).
    pub open spec fn sample_post(
        pre: Self,
        post: Self,
        reads: (Option<bool>, Option<bool>),
        d: Direction,
    ) -> bool {
        match reads {
            (Option::Some(a), Option::Some(b)) => Self::stepped(pre, post, a, b, d),
            _ => Self::sample_failed(pre, post, d),
        }
    }

    /// Call `update` to evaluate the next state of the encoder. A failed pin
    /// read yields `Direction::NoChange` and leaves the history register
    /// untouched; a successful sampling classifies the transition code and
    /// advances the history to the current reading.
    pub fn update(&mut self) -> (d: Direction)
        ensures
            exists|reads: (Option<bool>, Option<bool>)|
                Self::sample_post(*old(self), *final(self), reads, d),
    {
        let ra = read_is_low(&mut self.pin_a);
        let rb = read_is_low(&mut self.pin_b);
        match (ra, rb) {
            (Option::Some(a), Option::Some(b)) => {
                let d = self.step(a, b);
                proof {
                    assert(Self::sample_post(*old(self), *self, (Option::Some(a), Option::Some(b)), d));
                }
                d
            },
            _ => {
                proof {
                    assert(Self::sample_post(*old(self), *self, (ra, rb), Direction::NoChange));
                }
                Direction::NoChange
            },
        }
    }

    /// Advance the decoder with one pair of successful pin readings: build
    /// the 4-bit transition code from the stored history and the readings,
    /// classify it, and keep the current reading as the next history.
    pub fn step(&mut self, a_is_low: bool, b_is_low: bool) -> (d: Direction)
        ensures
            Self::stepped(*old(self), *final(self), a_is_low, b_is_low, d),
            final(self).spec_pin_a() == old(self).spec_pin_a(),
            final(self).spec_pin_b() == old(self).spec_pin_b(),
    {
        // use mask to get previous state value
        let mut s = self.state & 0b11;

        // move in the new state
        if a_is_low {
            s |= 0b0100;
        }
        if b_is_low {
            s |= 0b1000;
        }

        // move new state in
        self.state = s >> 2;
        self.phase.direction(s)
    }

    /// History carry-over for a single sampling: after a successful sampling
    /// the history register holds exactly the raw 2-bit reading just observed.
    pub proof fn lemma_step_sets_history(
        pre: Self,
        post: Self,
        a_is_low: bool,
        b_is_low: bool,
        d: Direction,
    )
        requires
            Self::stepped(pre, post, a_is_low, b_is_low, d),
        ensures
            post.history() == reading_bits(a_is_low, b_is_low),
    {
        lemma_code_high_bits(pre.history(), a_is_low, b_is_low);
    }

    /// A failed sampling leaves the history register untouched and reports no
    /// rotation.
    pub proof fn lemma_failure_leaves_history(
        pre: Self,
        post: Self,
        reads: (Option<bool>, Option<bool>),
        d: Direction,
    )
        requires
            Self::sample_post(pre, post, reads, d),
            reads.0 is None || reads.1 is None,
        ensures
            post.history() == pre.history(),
            d == Direction::NoChange,
    {
    }

    /// Returns a reference to the first pin. Can be used to clear interrupt.
    pub fn pin_a(&mut self) -> (r: &mut A)
        ensures
            *r == old(self).spec_pin_a(),
            final(self).spec_pin_a() == *final(r),
            final(self).spec_pin_b() == old(self).spec_pin_b(),
            final(self).history() == old(self).history(),
            final(self).spec_phase() == old(self).spec_phase(),
            final(self).spec_clockwise_pos() == old(self).spec_clockwise_pos(),
            final(self).spec_counter_clockwise_pos() == old(self).spec_counter_clockwise_pos(),
    {
        &mut self.pin_a
    }

    /// Returns a reference to the second pin. Can be used to clear interrupt.
    pub fn pin_b(&mut self) -> (r: &mut B)
        ensures
            *r == old(self).spec_pin_b(),
            final(self).spec_pin_b() == *final(r),
            final(self).spec_pin_a() == old(self).spec_pin_a(),
            final(self).history() == old(self).history(),
            final(self).spec_phase() == old(self).spec_phase(),
            final(self).spec_clockwise_pos() == old(self).spec_clockwise_pos(),
            final(self).spec_counter_clockwise_pos() == old(self).spec_counter_clockwise_pos(),
    {
        &mut self.pin_b
    }

    /// Returns a reference to both pins. Can be used to clear interrupt.
    pub fn pins(&mut self) -> (r: (&mut A, &mut B))
        ensures
            *r.0 == old(self).spec_pin_a(),
            *r.1 == old(self).spec_pin_b(),
            final(self).spec_pin_a() == *final(r.0),
            final(self).spec_pin_b() == *final(r.1),
            final(self).history() == old(self).history(),
            final(self).spec_phase() == old(self).spec_phase(),
            final(self).spec_clockwise_pos() == old(self).spec_clockwise_pos(),
            final(self).spec_counter_clockwise_pos() == old(self).spec_counter_clockwise_pos(),
    {
        (&mut self.pin_a, &mut self.pin_b)
    }

    /// Consumes this encoder, returning the underlying pins `A` and `B`.
    pub fn into_inner(self) -> (r: (A, B))
        ensures
            r.0 == self.spec_pin_a(),
            r.1 == self.spec_pin_b(),
    {
        (self.pin_a, self.pin_b)
    }

    /// The synthetic key events one classified outcome produces: exactly one
    /// press followed by one release at the configured position for a
    /// clockwise or counterclockwise detent, and nothing for `None`.
    pub fn events_for(&self, d: Direction) -> (es: Vec<KeyEvent>)
        ensures
            d == Direction::Clockwise ==> {
                &&& es@.len() == 2
                &&& es@[0] == (KeyEvent {
                    row: self.spec_clockwise_pos().0,
                    col: self.spec_clockwise_pos().1,
                    pressed: true,
                })
                &&& es@[1] == (KeyEvent {
                    row: self.spec_clockwise_pos().0,
                    col: self.spec_clockwise_pos().1,
                    pressed: false,
                })
            },
            d == Direction::CounterClockwise ==> {
                &&& es@.len() == 2
                &&& es@[0] == (KeyEvent {
                    row: self.spec_counter_clockwise_pos().0,
                    col: self.spec_counter_clockwise_pos().1,
                    pressed: true,
                })
                &&& es@[1] == (KeyEvent {
                    row: self.spec_counter_clockwise_pos().0,
                    col: self.spec_counter_clockwise_pos().1,
                    pressed: false,
                })
            },
            d == Direction::NoChange ==> es@.len() == 0,
    {
        let mut es: Vec<KeyEvent> = Vec::new();
        let (row, col) = match d {
            Direction::Clockwise => self.clockwise_pos,
            Direction::CounterClockwise => self.counter_clockwise_pos,
            Direction::NoChange => {
                return es;
            },
        };
        es.push(KeyEvent { row, col, pressed: true });
        es.push(KeyEvent { row, col, pressed: false });
        es
    }
}

} // verus!
