//! Events and days of the notebook, and the generation of event ids.

use vstd::prelude::*;
use crate::text::{char_to_string, decimal, usize_to_string};

verus! {

/// The data files of the notebook.
#[derive(Debug, Clone, Copy, PartialEq, Eq, Structural)]
pub enum Files {
    Events,
    Days,
}

/// The characters of generated ids.
pub open spec fn id_chars() -> Seq<char> {
    "0123456789QWERTYUIOPASDFGHJKLZXCVBNMqwertyuiopasdfghjklzxcvbnm_-="@
}

/// An event of the story: its id, title, paragraphs and characters.
#[derive(Debug, Clone)]
pub struct Event {
    pub id: String,
    pub title: String,
    pub text: Vec<String>,
    pub chars: Vec<String>,
}

/// A day of the summer (`1..=92`) and the ids of its events.
#[derive(Debug, Clone)]
pub struct Day {
    pub id: i32,
    pub events: Vec<String>,
}

/// The notebook.
#[derive(Debug, Clone)]
pub struct State {
    pub events: Vec<Event>,
    pub days: Vec<Day>,
}

/// `fastrand::usize(0..n)`: a random index below `n`. Which one is chance.
#[verifier::external_body]
fn random_index(n: usize) -> (r: usize)
    requires
        n > 0,
    ensures
        r < n,
{
    fastrand::usize(0..n)
}

/// Every character of `s` is one of `charset`.
pub open spec fn drawn_from(s: Seq<char>, charset: Seq<char>) -> bool {
    forall|i: int| 0 <= i < s.len() ==> charset.contains(#[trigger] s[i])
}

/// Ids of the events of a day as mathematical values.
pub open spec fn ids_view(ids: Seq<String>) -> Seq<Seq<char>> {
    ids.map_values(|s: String| s@)
}


/// An event as mathematical values.
pub struct EventView {
    pub id: Seq<char>,
    pub title: Seq<char>,
    pub text: Seq<Seq<char>>,
    pub chars: Seq<Seq<char>>,
}

impl View for Event {
    type V = EventView;

    open spec fn view(&self) -> EventView {
        EventView { id: self.id@, title: self.title@, text: ids_view(self.text@), chars: ids_view(self.chars@) }
    }
}

fn copy_strings(v: &Vec<String>) -> (r: Vec<String>)
    ensures
        ids_view(r@) == ids_view(v@),
{
    let mut out: Vec<String> = Vec::new();
    let mut i: usize = 0;
    while i < v.len()
        invariant
            i <= v@.len(),
            out@.len() == i,
            forall|k: int| 0 <= k < i ==> (#[trigger] out@[k])@ == v@[k]@,
        decreases v@.len() - i,
    {
        out.push(v[i].clone());
        i = i + 1;
    }
    assert(ids_view(out@) =~= ids_view(v@));
    out
}

impl Event {
    /// A copy of the event.
    pub fn duplicate(&self) -> (r: Event)
        ensures
            r@ == self@,
    {
        Event {
            id: self.id.clone(),
            title: self.title.clone(),
            text: copy_strings(&self.text),
            chars: copy_strings(&self.chars),
        }
    }
}

impl State {
    /// A random text of `length` characters taken from `charset`.
    pub fn generate(&self, length: usize, charset: &str) -> (r: String)
        requires
            charset@.len() > 0,
        ensures
            r@.len() == length,
            drawn_from(r@, charset@),
    {
        let n = charset.unicode_len();
        let mut result = String::new();
        let mut i: usize = 0;
        while i < length
            invariant
                i <= length,
                n == charset@.len(),
                n > 0,
                result@.len() == i,
                drawn_from(result@, charset@),
            decreases length - i,
        {
            let k = random_index(n);
            let c = charset.get_char(k);
            let piece = char_to_string(c);
            let ghost before = result@;
            result.append(piece.as_str());
            proof {
                assert(result@ == before.push(c));
                assert forall|j: int| 0 <= j < result@.len() implies charset@.contains(#[trigger] result@[j]) by {
                    if j < before.len() {
                        assert(result@[j] == before[j]);
                    } else {
                        assert(charset@[k as int] == c);
                    }
                }
            }
            i = i + 1;
        }
        result
    }

    /// Adds an event with this title and first paragraph to the story, under
    /// a new id `lok-` and twelve random id characters, and lists it under
    /// each day numbered `day`. Returns the new id.
    pub fn new_event(&mut self, title: String, text: String, day: i32) -> (r: String)
        ensures
            r@.len() == 16,
            r@.subrange(0, 4) == "lok-"@,
            drawn_from(r@.subrange(4, 16), id_chars()),
            final(self).events@.len() == old(self).events@.len() + 1,
            final(self).events@.subrange(0, old(self).events@.len() as int) == old(self).events@,
            final(self).events@.last().id@ == r@,
            final(self).events@.last().title@ == title@,
            final(self).events@.last().text@.len() == 1,
            final(self).events@.last().text@[0]@ == text@,
            final(self).events@.last().chars@.len() == 0,
            final(self).days@.len() == old(self).days@.len(),
            forall|k: int| 0 <= k < final(self).days@.len() ==> (#[trigger] final(self).days@[k]).id == old(self).days@[k].id
                && ids_view(final(self).days@[k].events@) == if old(self).days@[k].id == day {
                    ids_view(old(self).days@[k].events@).push(r@)
                } else {
                    ids_view(old(self).days@[k].events@)
                },
    {
        proof {
            reveal_strlit("0123456789QWERTYUIOPASDFGHJKLZXCVBNMqwertyuiopasdfghjklzxcvbnm_-=");
            reveal_strlit("lok-");
        }
        let suffix = self.generate(12, "0123456789QWERTYUIOPASDFGHJKLZXCVBNMqwertyuiopasdfghjklzxcvbnm_-=");
        let mut event_id = String::from_str("lok-");
        event_id.append(suffix.as_str());
        proof {
            assert(event_id@.subrange(0, 4) =~= "lok-"@);
            assert(event_id@.subrange(4, 16) =~= suffix@);
        }
        let mut texts: Vec<String> = Vec::new();
        texts.push(text);
        self.events.push(Event { title, text: texts, id: event_id.clone(), chars: Vec::new() });
        let ghost events = self.events@;
        let mut i: usize = 0;
        while i < self.days.len()
            invariant
                i <= self.days@.len(),
                self.days@.len() == old(self).days@.len(),
                self.events@ == events,
                forall|k: int| 0 <= k < i ==> (#[trigger] self.days@[k]).id == old(self).days@[k].id
                    && ids_view(self.days@[k].events@) == if old(self).days@[k].id == day {
                        ids_view(old(self).days@[k].events@).push(event_id@)
                    } else {
                        ids_view(old(self).days@[k].events@)
                    },
                forall|k: int| i <= k < self.days@.len() ==> #[trigger] self.days@[k] == old(self).days@[k],
            decreases self.days@.len() - i,
        {
            if self.days[i].id == day {
                let ghost before = self.days@[i as int].events@;
                self.days[i].events.push(event_id.clone());
                assert(ids_view(self.days@[i as int].events@) =~= ids_view(before).push(event_id@));
            }
            i = i + 1;
        }
        event_id
    }
}


/// The name of the data file that holds the events or the days.
pub open spec fn data_file_name(f: Files) -> Seq<char> {
    match f {
        Files::Events => "events.json"@,
        Files::Days => "days.json"@,
    }
}

/// The data file that holds the events or the days.
pub fn data_file(f: Files) -> (r: String)
    ensures
        r@ == data_file_name(f),
{
    match f {
        Files::Events => String::from_str("events.json"),
        Files::Days => String::from_str("days.json"),
    }
}

/// The name of the `i`-th backup copy of the data file `data`.
pub open spec fn backup_name(i: nat, data: Seq<char>) -> Seq<char> {
    decimal(i) + "."@ + data
}

fn backup_file(i: usize, data: &str) -> (r: String)
    ensures
        r@ == backup_name(i as nat, data@),
{
    let mut r = usize_to_string(i);
    r.append(".");
    r.append(data);
    r
}

/// The copies that back up the data file `data` before it is written, in
/// the order they are made. The first six rotate the copies in the backup
/// folder, each made only where its source exists: each older copy moves one
/// place up (copy 6 to copy 7 first, copy 1 to copy 2 last). The last one
/// copies the data file itself, from the data folder, to copy 1.
pub fn backup_rotation(data: &str) -> (r: Vec<(String, String)>)
    ensures
        r@.len() == 7,
        forall|k: int| 0 <= k < 6 ==> (#[trigger] r@[k]).0@ == backup_name((6 - k) as nat, data@)
            && r@[k].1@ == backup_name((7 - k) as nat, data@),
        r@[6].0@ == data@,
        r@[6].1@ == backup_name(1, data@),
{
    let mut r: Vec<(String, String)> = Vec::new();
    let mut i: usize = 6;
    while i >= 1
        invariant
            0 <= i <= 6,
            r@.len() == 6 - i,
            forall|k: int| 0 <= k < r@.len() ==> (#[trigger] r@[k]).0@ == backup_name((6 - k) as nat, data@)
                && r@[k].1@ == backup_name((7 - k) as nat, data@),
        decreases i,
    {
        let from = backup_file(i, data);
        let to = backup_file(i + 1, data);
        r.push((from, to));
        i = i - 1;
    }
    let first = backup_file(1, data);
    r.push((data.to_owned(), first));
    r
}

} // verus!
