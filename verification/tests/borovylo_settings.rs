use borovylo::borovylo::action::Action;
use borovylo::borovylo::settings::{
    csound_layouts, layouts_from_rows, layouts_table, param_label_line, params_table, rust_layouts, rust_params, rust_prelude, LayoutRow,
    ParamLabel,
};

fn row(lid: u8, pid: u8, position: u8, action: &str) -> LayoutRow {
    LayoutRow { lid, pid, position, action: action.to_string(), row: None }
}

#[test]
fn csound_tables() {
    let t = params_table(2);
    assert!(t.starts_with("\n/*\nданные инициализации параметров Borovylo\n"));
    assert!(t.ends_with(";               |\ngiP ftgen 0, 0, 12, -7, 0\n\n; ДАННЫЕ ПАРАМЕТРОВ"));
    let l = layouts_table(3);
    assert!(l.contains("giB ftgen 1, 0, 9, -7, 0\n\n; раскладка A"));
    assert_eq!(param_label_line(&ParamLabel { cc: 5, label: "PITCH".to_string() }), "strset  5, \"PITCH\"");
    assert_eq!(param_label_line(&ParamLabel { cc: 12, label: "LEVEL".to_string() }), "strset 12, \"LEVEL\"");
}

#[test]
fn csound_layout_rows() {
    let mut rows = vec![row(0, 1, 1, "EDIT_PARAM"), row(0, 12, 2, "EDIT_PARAM"), row(1, 3, 1, "LOAD_LAYOUT")];
    let lines = csound_layouts(&mut rows);
    assert_eq!(
        lines,
        vec![
            "vtabwi  0, giB,  1, 0, 1".to_string(),
            "vtabwi  1, giB, 12, 0, 2".to_string(),
            "\n; раскладка B".to_string(),
            "vtabwi  2, giB,  3, 1, 1".to_string(),
            "\n; всего раскладок\ngiL_len init 2".to_string(),
        ]
    );
    assert_eq!(rows[2].row, Some(2));
    assert_eq!(rows[0].row, Some(0));
}

#[test]
fn rust_layout_init() {
    let rows = vec![row(0, 1, 1, "EditParam"), row(1, 3, 8, "LoadLayout")];
    let lines = rust_layouts(&rows);
    assert_eq!(
        lines,
        vec![
            "        layout[0] = ButtonUpdate::new(Some(0), Action::EditParam);".to_string(),
            "\n        init.insert(Layout::new(\"A\", layout.to_owned()));\n".to_string(),
            "        layout = vec![ButtonUpdate::new(None, Action::None); 8];".to_string(),
            "        layout[7] = ButtonUpdate::new(Some(2), Action::LoadLayout);".to_string(),
            "\n        init.insert(Layout::new(\"B\", layout.to_owned()));\n\n        return init;\n    }\n}".to_string(),
        ]
    );
    assert_eq!(rust_prelude().len(), 4);
    let p = rust_params(&vec![ParamLabel { cc: 7, label: "LEVEL".to_string() }]);
    assert_eq!(p[1], "        init.insert(Param::new(7, \"LEVEL\"));");
    assert_eq!(p.len(), 3);
}

#[test]
fn layouts_built_from_settings() {
    let rows = vec![row(0, 2, 1, "EditParam"), row(0, 1, 8, "SelectChan"), row(2, 3, 2, "LoadLayout")];
    let layouts = layouts_from_rows(&rows);
    assert_eq!(layouts.len(), 2);
    assert_eq!(layouts[0].label, "A");
    assert_eq!(layouts[0].buttons.len(), 8);
    assert_eq!(layouts[0].buttons[0].action, Action::EditParam);
    assert_eq!(layouts[0].buttons[0].data, vec![1]);
    assert_eq!(layouts[0].buttons[7].action, Action::SelectChan);
    assert_eq!(layouts[0].buttons[3].action, Action::NoAction);
    assert!(layouts[0].buttons[3].data.is_empty());
    assert_eq!(layouts[1].label, "C");
    assert_eq!(layouts[1].buttons[1].data, vec![2]);
    assert_eq!(Action::from_variant("None"), Some(Action::NoAction));
    assert_eq!(Action::from_variant("NONE"), None);
}
