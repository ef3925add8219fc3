//! What the notebook shows: the events of a day, and how many events each
//! day of the summer has.

use vstd::prelude::*;
use crate::screenwriter::gamedata::{Day, Event, EventView, State, ids_view};

verus! {

/// Number of days of the summer.
pub open spec fn summer_days() -> nat {
    92
}

/// Days with events are numbered within the summer.
pub open spec fn days_in_summer(days: Seq<Day>) -> bool {
    forall|k: int| 0 <= k < days.len() ==> (#[trigger] days[k]).events@.len() > 0 ==> 1 <= days[k].id <= 92
}

/// The number of events of each day of the summer, from the first: for each
/// day with events, the count of the last entry for it.
pub open spec fn summer_counts(days: Seq<Day>) -> Seq<i32>
    decreases days.len(),
{
    if days.len() == 0 {
        Seq::new(summer_days(), |i: int| 0i32)
    } else {
        let prev = summer_counts(days.drop_last());
        let d = days.last();
        if d.events@.len() == 0 || !(1 <= d.id <= 92) {
            prev
        } else {
            prev.update(d.id - 1, d.events@.len() as i32)
        }
    }
}

proof fn lemma_summer_counts_len(days: Seq<Day>)
    ensures
        summer_counts(days).len() == summer_days(),
    decreases days.len(),
{
    if days.len() > 0 {
        lemma_summer_counts_len(days.drop_last());
    }
}

/// The number of events of each of the 92 days of the summer.
pub fn get_summer_data(state: &State) -> (r: Vec<i32>)
    requires
        days_in_summer(state.days@),
    ensures
        r@ == summer_counts(state.days@),
{
    let mut data: Vec<i32> = Vec::new();
    let mut k: usize = 0;
    while k < 92
        invariant
            k <= 92,
            data@ == Seq::new(k as nat, |i: int| 0i32),
        decreases 92 - k,
    {
        data.push(0);
        assert(data@ =~= Seq::new((k + 1) as nat, |i: int| 0i32));
        k = k + 1;
    }
    assert(state.days@.subrange(0, 0) =~= Seq::<Day>::empty());
    let mut i: usize = 0;
    while i < state.days.len()
        invariant
            i <= state.days@.len(),
            days_in_summer(state.days@),
            data@ == summer_counts(state.days@.subrange(0, i as int)),
        decreases state.days@.len() - i,
    {
        let day = &state.days[i];
        proof {
            assert(state.days@.subrange(0, i + 1).drop_last() =~= state.days@.subrange(0, i as int));
            lemma_summer_counts_len(state.days@.subrange(0, i as int));
        }
        let cnt = day.events.len();
        if cnt != 0 {
            let id = day.id as usize;
            data.set(id - 1, cnt as i32);
        }
        i = i + 1;
    }
    assert(state.days@.subrange(0, state.days@.len() as int) =~= state.days@);
    data
}

/// The events listed under a day, in the order of the story.
pub open spec fn events_of(events: Seq<Event>, ids: Seq<Seq<char>>) -> Seq<EventView>
    decreases events.len(),
{
    if events.len() == 0 {
        Seq::empty()
    } else {
        let prev = events_of(events.drop_last(), ids);
        if ids.contains(events.last().id@) {
            prev.push(events.last()@)
        } else {
            prev
        }
    }
}

fn lists(ids: &Vec<String>, id: &String) -> (r: bool)
    ensures
        r == ids_view(ids@).contains(id@),
{
    let mut i: usize = 0;
    while i < ids.len()
        invariant
            i <= ids@.len(),
            forall|k: int| 0 <= k < i ==> (#[trigger] ids@[k])@ != id@,
        decreases ids@.len() - i,
    {
        if ids[i] == *id {
            assert(ids_view(ids@)[i as int] == id@);
            return true;
        }
        i = i + 1;
    }
    proof {
        if ids_view(ids@).contains(id@) {
            let k = choose|k: int| 0 <= k < ids_view(ids@).len() && ids_view(ids@)[k] == id@;
            assert(ids@[k]@ == id@);
        }
    }
    false
}

/// The events of the day `day` (counted from one), in the order of the story.
pub fn get_day_events(state: &State, day: i32) -> (r: Vec<Event>)
    requires
        1 <= day,
        day as int <= state.days@.len(),
    ensures
        r@.map_values(|e: Event| e@) == events_of(state.events@, ids_view(state.days@[day - 1].events@)),
{
    let d = (day - 1) as usize;
    let ids = &state.days[d].events;
    let mut out: Vec<Event> = Vec::new();
    let mut i: usize = 0;
    while i < state.events.len()
        invariant
            i <= state.events@.len(),
            ids == &state.days@[day - 1].events,
            out@.map_values(|e: Event| e@) == events_of(state.events@.subrange(0, i as int), ids_view(ids@)),
        decreases state.events@.len() - i,
    {
        let e = &state.events[i];
        proof {
            assert(state.events@.subrange(0, i + 1).drop_last() =~= state.events@.subrange(0, i as int));
        }
        if lists(ids, &e.id) {
            out.push(e.duplicate());
            assert(out@.map_values(|e: Event| e@) =~= events_of(state.events@.subrange(0, i + 1), ids_view(ids@)));
        }
        i = i + 1;
    }
    assert(state.events@.subrange(0, state.events@.len() as int) =~= state.events@);
    out
}


/// An event added to the story and listed under a day is the last of that
/// day's events.
pub proof fn lemma_new_event_listed(events: Seq<Event>, e: Event, ids: Seq<Seq<char>>)
    ensures
        events_of(events.push(e), ids.push(e.id@)).last() == e@,
        events_of(events.push(e), ids.push(e.id@)).len() > 0,
{
    assert(events.push(e).drop_last() =~= events);
    assert(ids.push(e.id@).contains(e.id@)) by {
        assert(ids.push(e.id@)[ids.len() as int] == e.id@);
    }
}

} // verus!
