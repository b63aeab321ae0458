//! The owner of the device state: it takes whole envelopes in, one at a
//! time, and hands out copies of the state as it stands between two of them.

use vstd::prelude::*;
use crate::ingest::channel_record;
use crate::ingest::intake_of;
use crate::ingest::lemma_intake_agrees;
use crate::ingest::state_after_arrivals;
use crate::ingest::state_after_intake;
use crate::ingest::store_intake;
use crate::ingest::Arrival;
use crate::ingest::Intake;
use crate::ingest::IntakeView;
use crate::state::lemma_upsert_keeps_distinct;
use crate::state::DeviceState;
use crate::state::DeviceStateView;

verus! {

/// What was read from one envelope, together with the time at which the
/// envelope was received.
pub struct Taken {
    pub intake: IntakeView,
    pub at: u64,
}

/// The device state after a sequence of envelopes has been stored, each as
/// a whole and in the order of their arrival.
pub open spec fn state_after_intakes(s: DeviceStateView, taken: Seq<Taken>) -> DeviceStateView
    decreases taken.len(),
{
    if taken.len() == 0 {
        s
    } else {
        state_after_intake(
            state_after_intakes(s, taken.drop_last()),
            taken.last().intake,
            taken.last().at,
        )
    }
}

/// The device state and the envelopes that made it what it is.
pub struct StateStore {
    state: DeviceState,
    taken_in: Ghost<Seq<Taken>>,
}

impl View for StateStore {
    type V = DeviceStateView;

    closed spec fn view(&self) -> DeviceStateView {
        self.state@
    }
}

impl StateStore {
    /// The state is that of a fresh connection after the envelopes that the
    /// store has taken in, each stored as a whole.
    #[verifier::type_invariant]
    closed spec fn consistent(self) -> bool {
        self.state@ == state_after_intakes(DeviceStateView::empty(), self.taken_in@)
    }

    /// The envelopes that the store has taken in so far.
    pub closed spec fn history(&self) -> Seq<Taken> {
        self.taken_in@
    }

    /// The store of a fresh connection.
    pub fn new() -> (r: Self)
        ensures
            r@ == DeviceStateView::empty(),
            r.history() == Seq::<Taken>::empty(),
    {
        StateStore { state: DeviceState::new(), taken_in: Ghost(Seq::empty()) }
    }

    /// Stores what was read from one envelope, as received at the time
    /// `now`. The store is taken and handed back: while the envelope is
    /// being stored there is no store to read from.
    pub fn apply(self, intake: Intake, now: u64) -> (r: Self)
        ensures
            r@ == state_after_intake(self@, intake@, now),
            r.history() == self.history().push(Taken { intake: intake@, at: now }),
    {
        proof {
            use_type_invariant(&self);
        }
        let ghost next = self.taken_in@.push(Taken { intake: intake@, at: now });
        proof {
            assert(next.drop_last() =~= self.taken_in@);
        }
        let mut state = self.state;
        store_intake(&mut state, intake, now);
        StateStore { state, taken_in: Ghost(next) }
    }

    /// The state as it stands, to read from.
    pub fn state(&self) -> (r: &DeviceState)
        ensures
            r@ == self@,
            r@ == state_after_intakes(DeviceStateView::empty(), self.history()),
    {
        proof {
            use_type_invariant(self);
        }
        &self.state
    }

    /// A copy of the state as it stands: the state after a whole number of
    /// envelopes, never one of which only a part has been stored.
    pub fn snapshot(&self) -> (r: DeviceState)
        ensures
            r@ == self@,
            r@ == state_after_intakes(DeviceStateView::empty(), self.history()),
            r@.well_formed(),
    {
        proof {
            use_type_invariant(self);
            lemma_stored_channels_stay_distinct(self.history());
        }
        self.state.clone()
    }
}

/// What the store takes in of an envelope that arrived.
pub open spec fn taken_of(arrival: Arrival) -> Taken {
    Taken { intake: intake_of(arrival.envelope), at: arrival.at }
}

/// Storing what was read from each envelope of a sequence does to the state
/// what the envelopes ask for.
pub proof fn lemma_store_follows_arrivals(s: DeviceStateView, arrivals: Seq<Arrival>)
    ensures
        state_after_intakes(s, arrivals.map_values(|a: Arrival| taken_of(a)))
            == state_after_arrivals(s, arrivals),
    decreases arrivals.len(),
{
    let taken = arrivals.map_values(|a: Arrival| taken_of(a));
    if arrivals.len() > 0 {
        let before = arrivals.drop_last();
        assert(taken.drop_last() =~= before.map_values(|a: Arrival| taken_of(a)));
        lemma_store_follows_arrivals(s, before);
        lemma_intake_agrees::<int, int>(
            state_after_arrivals(s, before),
            Map::empty(),
            Map::empty(),
            arrivals.last().envelope,
            arrivals.last().at,
        );
    }
}

/// Whatever the store of a fresh connection has taken in, no two of its
/// channels share an index.
pub proof fn lemma_stored_channels_stay_distinct(taken: Seq<Taken>)
    ensures
        state_after_intakes(DeviceStateView::empty(), taken).well_formed(),
    decreases taken.len(),
{
    if taken.len() > 0 {
        lemma_stored_channels_stay_distinct(taken.drop_last());
        let before = state_after_intakes(DeviceStateView::empty(), taken.drop_last());
        match taken.last().intake {
            IntakeView::Channel(update) => {
                lemma_upsert_keeps_distinct(before.channels, channel_record(update));
            },
            _ => {},
        }
    }
}

} // verus!
