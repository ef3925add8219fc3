use borovylo::screenwriter::day::{get_day_events, get_summer_data};
use borovylo::screenwriter::gamedata::{backup_rotation, data_file, Day, Event, Files, State};

fn event(id: &str) -> Event {
    Event { id: id.to_string(), title: format!("title {id}"), text: vec!["t".to_string()], chars: vec![] }
}

fn notebook() -> State {
    State {
        events: vec![event("e1"), event("e2"), event("e3")],
        days: vec![
            Day { id: 1, events: vec!["e3".to_string(), "e1".to_string()] },
            Day { id: 2, events: vec![] },
            Day { id: 92, events: vec!["e2".to_string()] },
        ],
    }
}

#[test]
fn ids_are_generated_from_the_charset() {
    let s = notebook();
    let id = s.generate(20, "ab");
    assert_eq!(id.chars().count(), 20);
    assert!(id.chars().all(|c| c == 'a' || c == 'b'));
    assert_eq!(s.generate(0, "xyz"), "");
}

#[test]
fn new_event_is_listed_under_its_day() {
    let mut s = notebook();
    let id = s.new_event("Storm".to_string(), "rain".to_string(), 2);
    assert!(id.starts_with("lok-"));
    assert_eq!(id.chars().count(), 16);
    assert_eq!(s.events.len(), 4);
    assert_eq!(s.events[3].id, id);
    assert_eq!(s.events[3].text, vec!["rain".to_string()]);
    assert_eq!(s.days[1].events, vec![id.clone()]);
    let day2 = get_day_events(&s, 2);
    assert_eq!(day2.len(), 1);
    assert_eq!(day2[0].title, "Storm");
}

#[test]
fn events_of_a_day_keep_story_order() {
    let s = notebook();
    let d1 = get_day_events(&s, 1);
    assert_eq!(d1.iter().map(|e| e.id.as_str()).collect::<Vec<_>>(), vec!["e1", "e3"]);
    assert!(get_day_events(&s, 2).is_empty());
}

#[test]
fn summer_counts() {
    let s = notebook();
    let data = get_summer_data(&s);
    assert_eq!(data.len(), 92);
    assert_eq!(data[0], 2);
    assert_eq!(data[1], 0);
    assert_eq!(data[91], 1);
    assert_eq!(data.iter().sum::<i32>(), 3);
}

#[test]
fn backups_rotate_upwards() {
    assert_eq!(data_file(Files::Events), "events.json");
    assert_eq!(data_file(Files::Days), "days.json");
    let r = backup_rotation("days.json");
    assert_eq!(r.len(), 7);
    assert_eq!(r[0], ("6.days.json".to_string(), "7.days.json".to_string()));
    assert_eq!(r[5], ("1.days.json".to_string(), "2.days.json".to_string()));
    assert_eq!(r[6], ("days.json".to_string(), "1.days.json".to_string()));
}
