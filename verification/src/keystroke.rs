use vstd::prelude::*;

verus! {

/// One low-level input event. A line feed becomes a press and release of the
/// dedicated Enter virtual key; every other code unit becomes a Unicode
/// key-down carrying the unit as scan data, followed by the matching key-up.
/// The explicit key-up for ordinary units is deliberate: mixed behaviour
/// caused visible duplication in receiving applications.
#[derive(Clone, Copy, Debug, PartialEq, Eq, Structural)]
pub enum KeyEvent {
    EnterDown,
    EnterUp,
    UnicodeDown(u16),
    UnicodeUp(u16),
}

/// The events one code unit synthesizes to.
pub open spec fn spec_events_for_unit(u: u16) -> Seq<KeyEvent> {
    if u == 10 {
        seq![KeyEvent::EnterDown, KeyEvent::EnterUp]
    } else {
        seq![KeyEvent::UnicodeDown(u), KeyEvent::UnicodeUp(u)]
    }
}

/// The events a whole unit sequence synthesizes to, in order.
pub open spec fn spec_events_for_units(units: Seq<u16>) -> Seq<KeyEvent>
    decreases units.len(),
{
    if units.len() == 0 {
        Seq::<KeyEvent>::empty()
    } else {
        spec_events_for_unit(units[0]) + spec_events_for_units(units.skip(1))
    }
}

/// Synthesize the events for one code unit.
pub fn synthesize_unit(u: u16) -> (events: Vec<KeyEvent>)
    ensures
        events@ == spec_events_for_unit(u),
{
    let mut events: Vec<KeyEvent> = Vec::new();
    if u == 10 {
        events.push(KeyEvent::EnterDown);
        events.push(KeyEvent::EnterUp);
    } else {
        events.push(KeyEvent::UnicodeDown(u));
        events.push(KeyEvent::UnicodeUp(u));
    }
    proof {
        assert(events@ =~= spec_events_for_unit(u));
    }
    events
}

/// Each unit synthesizes to exactly two events.
pub proof fn lemma_events_len(units: Seq<u16>)
    ensures
        spec_events_for_units(units).len() == 2 * units.len(),
    decreases units.len(),
{
    if units.len() > 0 {
        lemma_events_len(units.skip(1));
    }
}

/// Synthesis distributes over concatenation of unit sequences.
pub proof fn lemma_events_concat(a: Seq<u16>, b: Seq<u16>)
    ensures
        spec_events_for_units(a + b) == spec_events_for_units(a) + spec_events_for_units(b),
    decreases a.len(),
{
    if a.len() == 0 {
        assert(a + b =~= b);
        assert(spec_events_for_units(a) + spec_events_for_units(b)
            =~= spec_events_for_units(b));
    } else {
        assert((a + b).skip(1) =~= a.skip(1) + b);
        lemma_events_concat(a.skip(1), b);
        assert(spec_events_for_units(a + b)
            =~= spec_events_for_units(a) + spec_events_for_units(b));
    }
}

/// A unit sequence free of carriage returns — as every decoded clipboard
/// sequence is — synthesizes no event that carries one.
pub proof fn lemma_no_carriage_return_events(units: Seq<u16>)
    requires
        forall|i: int| 0 <= i < units.len() ==> units[i] != 13,
    ensures
        forall|j: int| 0 <= j < spec_events_for_units(units).len()
            ==> spec_events_for_units(units)[j] != KeyEvent::UnicodeDown(13)
                && spec_events_for_units(units)[j] != KeyEvent::UnicodeUp(13),
    decreases units.len(),
{
    if units.len() > 0 {
        lemma_no_carriage_return_events(units.skip(1));
        assert forall|j: int| 0 <= j < spec_events_for_units(units).len()
            implies spec_events_for_units(units)[j] != KeyEvent::UnicodeDown(13)
                && spec_events_for_units(units)[j] != KeyEvent::UnicodeUp(13) by {
            if j >= 2 {
                assert(spec_events_for_units(units)[j]
                    == spec_events_for_units(units.skip(1))[j - 2]);
            }
        }
    }
}

/// Stopping playback after any number of units emits a prefix of the full
/// event sequence, and stopping strictly early emits a strict prefix: a
/// cancelled playback never emits an event the full playback would not, and
/// never all of them.
pub proof fn lemma_partial_playback_is_prefix(units: Seq<u16>, k: int)
    requires
        0 <= k <= units.len(),
    ensures
        spec_events_for_units(units.take(k)).is_prefix_of(spec_events_for_units(units)),
        k < units.len() ==> spec_events_for_units(units.take(k)).len()
            < spec_events_for_units(units).len(),
{
    assert(units.take(k) + units.skip(k) =~= units);
    lemma_events_concat(units.take(k), units.skip(k));
    lemma_events_len(units.take(k));
    lemma_events_len(units);
}

/// One playback pass over a decoded unit sequence. The driver asks for the
/// events of one unit at a time, so a cancellation observed between units
/// stops the pass after a whole number of units.
pub struct Playback {
    pub units: Vec<u16>,
    pub pos: usize,
}

impl Playback {
    /// The position never passes the end of the unit sequence.
    pub open spec fn wf(&self) -> bool {
        self.pos <= self.units@.len()
    }

    /// The events emitted so far: those of every unit before the position.
    pub open spec fn spec_emitted(&self) -> Seq<KeyEvent> {
        spec_events_for_units(self.units@.take(self.pos as int))
    }

    pub fn new(units: Vec<u16>) -> (p: Playback)
        ensures
            p.wf(),
            p.units@ == units@,
            p.pos == 0,
    {
        Playback { units, pos: 0 }
    }

    /// Whether every unit has been played.
    pub fn done(&self) -> (b: bool)
        ensures
            b == (self.pos == self.units@.len()),
    {
        self.pos == self.units.len()
    }

    /// Synthesize the events of the next unit and advance past it.
    pub fn next_unit(&mut self) -> (events: Vec<KeyEvent>)
        requires
            old(self).wf(),
            old(self).pos < old(self).units@.len(),
        ensures
            final(self).wf(),
            final(self).units@ == old(self).units@,
            final(self).pos == old(self).pos + 1,
            events@ == spec_events_for_unit(old(self).units@[old(self).pos as int]),
            final(self).spec_emitted() == old(self).spec_emitted() + events@,
    {
        let n = self.units.len();
        let u = self.units[self.pos];
        let events = synthesize_unit(u);
        self.pos = self.pos + 1;
        proof {
            let single = seq![u];
            let t = self.units@.take(self.pos as int);
            lemma_events_concat(old(self).units@.take(old(self).pos as int), single);
            assert(t =~= old(self).units@.take(old(self).pos as int) + single);
            assert(single.skip(1) =~= Seq::<u16>::empty());
            assert(spec_events_for_units(single)
                == spec_events_for_unit(u) + spec_events_for_units(single.skip(1)));
            assert(spec_events_for_units(single.skip(1)) == Seq::<KeyEvent>::empty());
            assert(spec_events_for_unit(u) + Seq::<KeyEvent>::empty() =~= spec_events_for_unit(u));
        }
        events
    }
}

} // verus!
