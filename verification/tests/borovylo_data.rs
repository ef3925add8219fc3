use borovylo::borovylo::action::Action;
use borovylo::borovylo::schema::button::{self, Button};
use borovylo::borovylo::schema::gui;
use borovylo::borovylo::schema::layout::{self, Layout};
use borovylo::borovylo::schema::midi::{MidiAction, OnMidiAction};
use borovylo::borovylo::schema::param::{self, Param};
use borovylo::borovylo::schema::roots::{MutationRoot, QueryRoot};
use borovylo::borovylo::schema::{Data, DataError};

fn sample() -> Data {
    let root = Layout::new(
        "A".to_string(),
        vec![
            Button::new(vec![1], Action::LoadLayout),
            Button::new(vec![0], Action::EditParam),
            Button::new(vec![2], Action::SelectChan),
            Button::default(),
            Button::new(vec![9], Action::LoadLayout),
        ],
    );
    let second = Layout::new("B".to_string(), vec![Button::new(vec![0], Action::LoadLayout)]);
    let params = vec![Param::new(12, "LEVEL".to_string()), Param::new(30, "PITCH".to_string())];
    Data::new(vec![root, second], params)
}

#[test]
fn start_shows_first_layout() {
    let db = sample();
    assert_eq!(db.lid(), 0);
    assert_eq!(db.pid(), None);
    assert_eq!(db.tid(), 0);
    let buttons = db.get_buttons();
    assert_eq!(buttons.len(), 5);
    assert_eq!(buttons[0].action, Action::LoadLayout);
    assert_eq!(buttons[3].action, Action::NoAction);
    assert_eq!(buttons[3].color, "0.5");
    assert!(db.get_button_by_id(5).is_none());
    assert_eq!(db.get_param_by_id(1).unwrap().label, "PITCH");
    assert!(db.get_param_by_id(2).is_none());
    assert_eq!(db.get_layout_by_id(1).unwrap().label, "B");
    assert_eq!(db.get_layout_by_id(0).unwrap().color, "#343c46");
}

#[test]
fn update_changes_one_button() {
    let mut db = sample();
    let m = db.update(3, Action::SelectChan).unwrap();
    assert_eq!(m, button::Mutation::new(3, button::Event::Updated));
    assert_eq!(db.get_button_by_id(3).unwrap().action, Action::SelectChan);
    assert_eq!(db.get_button_by_id(0).unwrap().action, Action::LoadLayout);
    assert_eq!(db.update(7, Action::SelectChan).unwrap_err(), DataError::ButtonNotFound);
    assert_eq!(DataError::ButtonNotFound.message(), "Button not found");
}

#[test]
fn pressing_buttons() {
    let mut db = sample();
    // edit parameter 0
    let p = db.action(1).unwrap();
    assert_eq!(p.result, Some(12));
    assert_eq!(p.button, Some(button::Mutation::new(1, button::Event::Updated)));
    assert_eq!(db.pid(), Some(12));
    // select channel 2
    let p = db.action(2).unwrap();
    assert_eq!(p.result, Some(2));
    assert_eq!(db.tid(), 2);
    // a button without action
    let p = db.action(3).unwrap();
    assert_eq!(p.result, None);
    // a layout that does not exist
    assert_eq!(db.action(4).unwrap_err(), DataError::UnknownAction);
    assert_eq!(DataError::UnknownAction.message(), "Unknown button action");
    // load layout 1
    let p = db.action(0).unwrap();
    assert_eq!(p.result, Some(1));
    assert_eq!(p.layout, Some(layout::Mutation::new(1, layout::Event::Updated)));
    let g = p.gui.unwrap();
    assert_eq!(g.mutation, gui::Event::PageUpdate);
    assert_eq!(g.id(), 1);
    assert_eq!(g.data.len(), 1);
    assert_eq!(g.data[0].id, 1);
    assert_eq!(g.data[0].label.as_deref(), Some("B"));
    assert_eq!(g.data[0].bg.as_deref(), Some("#343c46"));
    assert_eq!(g.data[0].opacity, Some(50));
    assert_eq!(db.lid(), 1);
    assert_eq!(db.pid(), None);
    assert_eq!(db.get_buttons().len(), 1);
    assert_eq!(db.action(1).unwrap_err(), DataError::ButtonNotFound);
}

#[test]
fn layouts_and_params() {
    let mut db = sample();
    let m = db.set_layout_by_id(1);
    assert_eq!(m, layout::Mutation::new(1, layout::Event::Updated));
    assert_eq!(db.lid(), 1);
    assert_eq!(db.get_buttons().len(), 1);
    // an unknown layout keeps the buttons
    db.set_layout_by_id(7);
    assert_eq!(db.lid(), 7);
    assert_eq!(db.get_buttons().len(), 1);

    let (id, notice) = db.set_edit_param_by_id(1);
    assert_eq!(id, 1);
    assert_eq!(notice, Some(param::Mutation { mutation: param::Event::Select, id: 1 }));
    let (_, again) = db.set_edit_param_by_id(1);
    assert_eq!(again, None);
    let (_, missing) = db.set_edit_param_by_id(5);
    assert_eq!(missing, None);
    assert_eq!(db.pid(), Some(1));

    let (id, stop) = db.set_speed(4, 0);
    assert_eq!(id, 4);
    assert_eq!(stop.mutation, MidiAction::ParamWaiting);
    assert_eq!(stop.midi, None);
    let (_, go) = db.set_speed(4, 7);
    assert_eq!(go.mutation, MidiAction::ParamUpdate);
    assert_eq!(go.midi, Some([0xB0, 5, 7]));
    assert_eq!(go.id(), 3);
}

#[test]
fn roots_delegate() {
    let mut db = sample();
    let q = QueryRoot;
    assert_eq!(q.get_all_buttons(&db).len(), 5);
    assert_eq!(q.get_button(&db, 2).unwrap().action, Action::SelectChan);
    assert_eq!(q.get_param(&db, 0).unwrap().id, 12);
    let m = MutationRoot;
    assert_eq!(m.set_layout(&mut db, 0), (0, None));
    assert_eq!(m.set_layout(&mut db, 1), (1, Some(layout::Mutation::new(1, layout::Event::Updated))));
    assert_eq!(m.set_layout_local(&mut db, 1), (1, None));
}

#[test]
fn labels_and_targets() {
    let db = sample();
    let buttons = db.get_buttons();
    assert_eq!(buttons[0].label(&db), "B");
    assert_eq!(buttons[1].label(&db), "LEVEL");
    assert_eq!(buttons[2].label(&db), "CHAN 3");
    assert_eq!(buttons[3].label(&db), "");
    assert_eq!(Button::new(vec![10], Action::SelectChan).label(&db), "CHAN 11");
    assert_eq!(buttons[2].id(), Some(2));
    assert_eq!(Button::new(vec![4, 6], Action::EditParam).id(), Some(6));
    assert_eq!(buttons[3].id(), None);
    let m = button::Mutation::new(2, button::Event::Created);
    assert_eq!(m.item(&db).unwrap().action, Action::SelectChan);
    let lm = layout::Mutation::new(1, layout::Event::Updated);
    assert_eq!(lm.layout(&db).unwrap().label, "B");
    let pm = param::Mutation { mutation: param::Event::Select, id: 1 };
    assert_eq!(pm.item(&db).unwrap().label, "PITCH");
    let pu = param::Mutation { mutation: param::Event::Updated, id: 1 };
    assert!(pu.item(&db).is_none());
    let d = Layout::default();
    assert_eq!(d.label, "New layout");
    assert!(d.buttons.is_empty());
}

#[test]
fn filters_and_codes() {
    assert!(button::passes(None, button::Event::Created));
    assert!(!button::passes(Some(button::Event::Updated), button::Event::Created));
    assert!(layout::passes(Some(layout::Event::Updated), layout::Event::Updated));
    assert!(param::passes(Some(param::Event::Select), param::Event::Select));
    assert!(!gui::passes(Some(gui::Event::LogUpdate), gui::Event::PageUpdate));
    assert!(borovylo::borovylo::schema::midi::passes(None, MidiAction::LoadLayout));
    assert_eq!(MidiAction::LoadLayout.code(), 1);
    assert_eq!(MidiAction::LoadLayoutLocal.code(), 5);
    assert_eq!(gui::Event::LogUpdate.code(), 3);
    let a = OnMidiAction::new(MidiAction::ActivateParam, Some([0x90, 2, 1]));
    assert_eq!(a.id(), 2);
}
