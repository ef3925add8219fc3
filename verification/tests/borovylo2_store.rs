use borovylo::borovylo2::models::{create, find_param, Item, ItemICP, ItemState, ParamContext, UpdateGUI};
use borovylo::borovylo2::view::controls_of_update;
use borovylo::borovylo2::store::{
    init_layouts, is_ignored, Action, ButtonOutcome, ControlMap, Db, DenyEvent, EditAxis, EncoderStep, PadButton,
    PlayInstr,
};

#[test]
fn names_of_items() {
    let t = create();
    assert_eq!(t.len(), 10);
    assert_eq!(find_param(&t, Item::Lenght).unwrap().name, "RANGE");
    assert_eq!(find_param(&t, Item::Empty).unwrap().name, "");
    assert_eq!(find_param(&t, Item::SecondLayout).unwrap().name, "SECOND");
    assert!(find_param(&vec![], Item::Level).is_none());
    assert_eq!(Item::Attack.code(), 19);
    assert_eq!(Item::SecondLayout.code(), 103);
    assert!(Item::RootLayout.is_layout());
    assert!(!Item::Pitch.is_layout());
    assert_eq!(ItemState::Active.code(), 2);
    let p = ParamContext::new("X".to_string(), Item::Pitch);
    assert_eq!((p.name.as_str(), p.id), ("X", Item::Pitch));
    assert_eq!(ItemICP::new(Item::Level, ItemState::Ready, 3), ItemICP { id: Item::Level, status: ItemState::Ready, value: 3 });
}

#[test]
fn gui_update_marks_pressed_button() {
    let layouts = init_layouts();
    let root = layouts[1].1;
    let u = root.update_gui(PadButton::South);
    assert_eq!(u.0.len(), 8);
    // window order: North, East, West, South, DPadDown, DPadLeft, DPadRight, DPadUp
    assert_eq!(u.0[0], ItemICP::new(Item::SecondLayout, ItemState::Ready, 0));
    assert_eq!(u.0[1], ItemICP::new(Item::Attack, ItemState::Ready, 0));
    assert_eq!(u.0[3], ItemICP::new(Item::Level, ItemState::Active, 0));
    assert_eq!(u.0[5], ItemICP::new(Item::Empty, ItemState::Disabled, 0));
    let empty = ControlMap::default().update_gui(PadButton::North);
    assert!(empty.0.iter().all(|i| i.status == ItemState::Disabled));
}

#[test]
fn events_are_filtered() {
    assert!(is_ignored(PadButton::LeftTrigger));
    assert!(is_ignored(PadButton::Unknown));
    assert!(!is_ignored(PadButton::DPadUp));
    let f = DenyEvent::new(PadButton::South);
    assert!(f.drops(PadButton::South));
    assert!(f.drops(PadButton::Start));
    assert!(!f.drops(PadButton::East));
    assert!(!DenyEvent::default().drops(PadButton::South));
}

#[test]
fn pressing_buttons_edits_and_loads() {
    let mut db = Db::default();
    assert_eq!(db.control_map(), Item::RootLayout);
    assert!(db.on_axis().is_none());
    match db.on_button_pressed(PadButton::East) {
        ButtonOutcome::Edit => {}
        _ => panic!("expected an edit"),
    }
    assert_eq!(db.right_y(), Some(EditAxis::new(Item::Attack)));
    assert!(db.control_filter().drops(PadButton::East));
    assert!(db.on_axis().is_none());
    db.set_axis_speed(Some(EncoderStep::Add));
    assert!(matches!(db.on_axis(), Some(PlayInstr::AddParamStep(Item::Attack))));
    db.set_axis_speed(Some(EncoderStep::SubMax));
    assert!(matches!(db.on_axis(), Some(PlayInstr::SubParamStep(Item::Attack))));
    match db.on_button_pressed(PadButton::North) {
        ButtonOutcome::Layout(u) => {
            assert_eq!(u.0[0], ItemICP::new(Item::RootLayout, ItemState::Ready, 0));
            assert_eq!(u.0[3], ItemICP::new(Item::StartPosition, ItemState::Ready, 0));
        }
        _ => panic!("expected a layout"),
    }
    assert_eq!(db.control_map(), Item::SecondLayout);
    assert_eq!(db.right_y(), None);
    assert!(!db.control_filter().drops(PadButton::East));
    match db.on_button_pressed(PadButton::DPadRight) {
        ButtonOutcome::Unknown => {}
        _ => panic!("expected nothing"),
    }
    assert_eq!(db.params().len(), 10);
    assert_eq!(ControlMap::default().action(PadButton::C), None);
    assert_eq!(init_layouts()[2].1.action(PadButton::DPadLeft), Some(Action::EditParam(Item::Level)));
}

#[test]
fn window_controls_named_from_table() {
    let update = UpdateGUI(vec![
        ItemICP::new(Item::RootLayout, ItemState::Ready, 40),
        ItemICP::new(Item::Pitch, ItemState::Active, 70),
        ItemICP::new(Item::Empty, ItemState::Disabled, 0),
    ]);
    let c = controls_of_update(&update, &create());
    assert_eq!(c.len(), 3);
    assert_eq!((c[0].name.as_str(), c[0].status, c[0].action, c[0].value), ("ROOT", 1, 1, 0));
    assert_eq!((c[1].name.as_str(), c[1].status, c[1].action, c[1].value), ("PITCH", 2, 0, 0));
    assert_eq!((c[2].name.as_str(), c[2].status, c[2].action, c[2].value), ("", 0, 0, 0));
}
