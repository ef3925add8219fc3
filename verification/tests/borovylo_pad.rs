use borovylo::borovylo::action::Action;
use borovylo::borovylo::edit_param::EditParam;
use borovylo::borovylo::gamepad::{accepts_controller, follow_up_request, PadEvent, PadReaction, Run8Error, Run8Plan, State};

#[test]
fn delay_follows_speed() {
    assert_eq!(EditParam::delay_millis(2), 190);
    assert_eq!(EditParam::delay_millis(7), 190);
    assert_eq!(EditParam::delay_millis(3), 140);
    assert_eq!(EditParam::delay_millis(9), 60);
    assert_eq!(EditParam::delay_millis(10), 30);
    assert_eq!(EditParam::delay_millis(1), 100);
    assert_eq!(EditParam::delay_millis(0), 100);
}

#[test]
fn speed_table() {
    let mut p = EditParam::new(1);
    assert_eq!(p.get_speed(1, 0), 1);
    assert_eq!(p.get_speed(4, 4), 5);
    assert_eq!(p.get_speed(6, 0), 6);
    assert_eq!(p.get_speed(10, 3), 9);
    assert_eq!(p.get_speed(5, 0), 0);
    assert_eq!(p.get_speed(1, 5), 0);
    assert_eq!(p.get_speed(0, 0), 0);
}

#[test]
fn cc_by_direction() {
    assert_eq!(EditParam::get_cc(0), 127);
    assert_eq!(EditParam::get_cc(5), 127);
    assert_eq!(EditParam::get_cc(6), 0);
    assert_eq!(EditParam::get_cc(255), 0);
}

#[test]
fn sticks_choose_modifier_and_direction() {
    let mut p = EditParam::new(1);
    assert_eq!(p.get_speed_mod(-100), 4);
    assert_eq!(p.get_speed_mod(100), 1);
    assert_eq!(p.get_speed_mod(-30), 3);
    assert_eq!(p.get_speed_mod(30), 2);
    assert_eq!(p.get_speed_mod(0), 0);
    assert_eq!(p.get_speed_direction(-1), 6);
    assert_eq!(p.get_speed_direction(1), 1);
    assert_eq!(p.get_speed_direction(0), 0);
}

#[test]
fn next_ignores_jitter() {
    let mut p = EditParam::new(1);
    // a stick let go resets
    assert_eq!(p.get_next(0, 50, 3, 0), 0);
    // first move from rest
    assert_eq!(p.get_next(-40, 0, 0, 3), 3);
    // a small move is ignored
    assert_eq!(p.get_next(-44, 40, 3, 4), 3);
    // a large enough move is taken
    assert_eq!(p.get_next(-46, 40, 3, 4), 4);
    // moving back is ignored
    assert_eq!(p.get_next(-20, 40, 3, 2), 3);
}

#[test]
fn action_names_round_trip() {
    for a in [Action::LoadLayout, Action::EditParam, Action::SelectChan, Action::NoAction] {
        assert_eq!(Action::from_name(&a.name()), Some(a));
    }
    assert_eq!(Action::LoadLayout.name(), "LOAD_LAYOUT");
    assert_eq!(Action::NoAction.name(), "NONE");
    assert_eq!(Action::from_name("load_layout"), None);
    assert_eq!(Action::from_name("EDIT_PARAM"), Some(Action::EditParam));
}

#[test]
fn only_the_wireless_controller_is_taken() {
    assert!(accepts_controller("Sony Interactive Entertainment Wireless Controller"));
    assert!(!accepts_controller("Xbox Controller"));
}

#[test]
fn buttons_press_layout_buttons() {
    let mut s = State::new();
    assert_eq!(s.on_event(0, PadEvent::ActionA(true)), PadReaction::PressButton(0));
    assert_eq!(s.on_event(0, PadEvent::PovUp(true)), PadReaction::PressButton(7));
    assert_eq!(s.on_event(0, PadEvent::Exit(true)), PadReaction::PressButton(10));
    assert_eq!(s.on_event(0, PadEvent::ActionA(false)), PadReaction::Nothing);
    assert_eq!(s.on_event(2, PadEvent::Disconnect), PadReaction::RemoveController(2));
    assert_eq!(s.on_event(1, PadEvent::MenuR(true)), PadReaction::Quit(1));
    assert_eq!(s, State::new());
}

#[test]
fn sticks_change_speed_of_edited_param() {
    let mut s = State { pid: Some(EditParam::new(3)), lid: 0 };
    // left stick fully up: modifier 4, nothing moves yet
    assert_eq!(s.on_event(0, PadEvent::JoyY(-100)), PadReaction::Nothing);
    assert_eq!(s.pid.unwrap().delay, 4);
    // right stick half up: raising at the fastest speed
    let r = s.on_event(0, PadEvent::CamY(-50));
    let expected = EditParam { pid: 3, speed: 10, delay: 4, prev_l: 100, prev_r: 50 };
    assert_eq!(r, PadReaction::SendSpeed(expected));
    assert_eq!(s.pid, Some(expected));
    // without a parameter the sticks do nothing
    let mut idle = State::new();
    assert_eq!(idle.on_event(0, PadEvent::CamY(-50)), PadReaction::Nothing);
}

#[test]
fn run8_plans_and_applies() {
    let mut s = State::new();
    assert_eq!(s.plan_run8("EDIT_PARAM", Some(4)), Run8Plan::EditParam(4));
    assert_eq!(s.plan_run8("LOAD_LAYOUT", Some(0)), Run8Plan::Unknown);
    assert_eq!(s.plan_run8("LOAD_LAYOUT", Some(2)), Run8Plan::LoadLayout(2));
    assert_eq!(s.plan_run8("NONE", None), Run8Plan::Idle);
    assert_eq!(s.plan_run8("SELECT_CHAN", None), Run8Plan::Unknown);
    assert!(Run8Plan::SelectChan(1).needs_request());
    assert!(!Run8Plan::Idle.needs_request());

    assert_eq!(s.run8(5, Run8Plan::EditParam(4), Some(7)), Ok(Some(5)));
    assert_eq!(s.pid, Some(EditParam::new(7)));
    assert_eq!(s.run8(8, Run8Plan::LoadLayout(2), Some(2)), Ok(Some(2)));
    assert_eq!(s, State { pid: None, lid: 2 });
    assert_eq!(s.run8(8, Run8Plan::LoadLayout(3), None), Err(Run8Error::LayoutNotFound));
    assert_eq!(s.run8(1, Run8Plan::Unknown, Some(1)), Err(Run8Error::ActionNotFound));
    assert_eq!(s.run8(1, Run8Plan::Idle, None), Ok(None));
    assert_eq!(Run8Error::LayoutNotFound.message(), "Layout id not found");
    assert_eq!(Run8Error::ActionNotFound.message(), "Action not found");
}

#[test]
fn channel_selection_is_followed_by_ps_press() {
    let mut s = State::new();
    let plan = s.plan_run8("SELECT_CHAN", Some(3));
    let r = s.run8(2, plan, Some(1));
    assert_eq!(r, Ok(Some(3)));
    assert_eq!(follow_up_request(plan, &r), Some(10));
    let failed = s.run8(2, plan, None);
    assert_eq!(follow_up_request(plan, &failed), None);
    let edit = s.plan_run8("EDIT_PARAM", Some(1));
    let r = s.run8(0, edit, Some(4));
    assert_eq!(follow_up_request(edit, &r), None);
}
