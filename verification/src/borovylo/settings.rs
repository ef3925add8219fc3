//! Generation of the data files that the synthesizer and the data service
//! start from, out of the settings: the Csound tables of parameters and
//! layout buttons, and the Rust code that fills the data service's slabs.
//!
//! Each function returns the lines to write, in order; a line may hold line
//! breaks of its own. The parameters' numeric attributes are formatted by the
//! caller.

use vstd::prelude::*;
use crate::text::{decimal, pad2, pad2_usize, usize_to_string, char_to_string};
use crate::borovylo::action::{Action, action_from_variant};
use crate::borovylo::schema::button::{Button, ButtonView, default_color};
use crate::borovylo::schema::layout::{Layout, LayoutView, layout_color};

verus! {

/// A layout button of the settings.
pub struct LayoutRow {
    /// layout index
    pub lid: u8,
    /// parameter index, counted from one
    pub pid: u8,
    /// position of the button in the layout, counted from one
    pub position: u8,
    /// name of the action
    pub action: String,
    /// row of the button in the Csound table, once numbered
    pub row: Option<usize>,
}

pub struct LayoutRowView {
    pub lid: u8,
    pub pid: u8,
    pub position: u8,
    pub action: Seq<char>,
    pub row: Option<usize>,
}

impl View for LayoutRow {
    type V = LayoutRowView;

    open spec fn view(&self) -> LayoutRowView {
        LayoutRowView { lid: self.lid, pid: self.pid, position: self.position, action: self.action@, row: self.row }
    }
}

/// A parameter of the settings: its MIDI controller number and label.
pub struct ParamLabel {
    pub cc: u8,
    pub label: String,
}

pub open spec fn rows_view(rows: Seq<LayoutRow>) -> Seq<LayoutRowView> {
    rows.map_values(|l: LayoutRow| l@)
}

pub open spec fn lines_view(lines: Seq<String>) -> Seq<Seq<char>> {
    lines.map_values(|s: String| s@)
}

/// Every layout index can be shown as a letter counted from `A`.
pub open spec fn lids_lettered(rows: Seq<LayoutRowView>) -> bool {
    forall|k: int| 0 <= k < rows.len() ==> (#[trigger] rows[k]).lid <= 190
}

/// The letter that names the layout `lid`: `A` for `0`, `B` for `1`, ...
pub open spec fn layout_letter(lid: u8) -> char {
    (65 + lid) as char
}

fn letter(lid: u8) -> (r: String)
    requires
        lid <= 190,
    ensures
        r@ == seq![layout_letter(lid)],
{
    char_to_string((65 + lid) as char)
}

/// Number of cells of the Csound table of parameters: four attributes for each
/// parameter, and a first empty block.
pub open spec fn params_table_size(n: nat) -> nat {
    4 * (n + 1)
}

/// Declaration of the Csound table of parameters, with its commentary.
pub open spec fn params_table_text(n: nat) -> Seq<char> {
    "\n/*\nданные инициализации параметров Borovylo\nдля инициализации синтезатора параметра необходимо 4 атрибута\n\nvtabwi <MIDI CC>, giP, <increment>, <min>, <max>, <value>\nгде:\n  increment - величина изменения параметра\n  min       - допустимый минимум\n  max       - допустимый максимум\n  value     - значение по умолчанию\n*/\n\n;               кол-во параметров * 4 атрибута\n;               |\ngiP ftgen 0, 0, "@ + decimal(params_table_size(n)) + ", -7, 0\n\n; ДАННЫЕ ПАРАМЕТРОВ"@
}

/// Declaration of the Csound table of layout buttons, with its commentary.
pub open spec fn layouts_table_text(n: nat) -> Seq<char> {
    "\n\n/*\nданные инициализации кнопок раскладок по 8 на раскладку\nдля инициализации синтезатора параметра необходимо 3 атрибута\n\nvtabwi <row id>, giB, <pid>, <lid>, <position>\nгде:\n  lid      - индекс раскладки\n  pid      - индекс параметра в таблице giP\n  position - индекс одной из 8ми позиций кнопки в раскладке\n             где индекс позиции:\n               1 2  3 4\n               5 6  7 8\n*/\n\n;               кол-во записей * 3 атрибута\n;               |\ngiB ftgen 1, 0, "@ + decimal(3 * n) + ", -7, 0\n\n; раскладка A"@
}

/// Csound line that gives a parameter its label.
pub open spec fn param_label_text(cc: u8, label: Seq<char>) -> Seq<char> {
    "strset "@ + pad2(decimal(cc as nat)) + ", \""@ + label + "\""@
}

/// Csound line of a layout button in row `row`.
pub open spec fn csound_layout_text(row: nat, l: LayoutRowView) -> Seq<char> {
    "vtabwi "@ + pad2(decimal(row)) + ", giB, "@ + pad2(decimal(l.pid as nat)) + ", "@
        + decimal(l.lid as nat) + ", "@ + decimal(l.position as nat)
}

/// Comment line that opens the buttons of the layout `lid`.
pub open spec fn csound_layout_header(lid: u8) -> Seq<char> {
    "\n; раскладка "@ + seq![layout_letter(lid)]
}

/// Closing lines: the number of layouts, `last + 1` for the last index.
pub open spec fn csound_footer(last: u8) -> Seq<char> {
    "\n; всего раскладок\ngiL_len init "@ + decimal(last as nat + 1)
}

/// Csound lines of the layout buttons from row `i` on, after a button of the
/// layout `curr`: a header whenever the layout changes, a line per button, and
/// the closing lines.
pub open spec fn csound_layout_lines(rows: Seq<LayoutRowView>, i: int, curr: u8) -> Seq<Seq<char>>
    decreases rows.len() - i,
{
    if i >= rows.len() || i < 0 {
        seq![csound_footer(curr)]
    } else {
        let l = rows[i];
        (if curr != l.lid { seq![csound_layout_header(l.lid)] } else { Seq::empty() })
            + seq![csound_layout_text(i as nat, l)]
            + csound_layout_lines(rows, i + 1, l.lid)
    }
}

/// Declaration of the Csound table of parameters for `n` parameters.
pub fn params_table(n: usize) -> (r: String)
    requires
        params_table_size(n as nat) <= usize::MAX,
    ensures
        r@ == params_table_text(n as nat),
{
    let size = usize_to_string(4 * (n + 1));
    let mut r = String::from_str("\n/*\nданные инициализации параметров Borovylo\nдля инициализации синтезатора параметра необходимо 4 атрибута\n\nvtabwi <MIDI CC>, giP, <increment>, <min>, <max>, <value>\nгде:\n  increment - величина изменения параметра\n  min       - допустимый минимум\n  max       - допустимый максимум\n  value     - значение по умолчанию\n*/\n\n;               кол-во параметров * 4 атрибута\n;               |\ngiP ftgen 0, 0, ");
    r.append(size.as_str());
    r.append(", -7, 0\n\n; ДАННЫЕ ПАРАМЕТРОВ");
    r
}

/// Declaration of the Csound table of layout buttons for `n` buttons.
pub fn layouts_table(n: usize) -> (r: String)
    requires
        3 * n <= usize::MAX,
    ensures
        r@ == layouts_table_text(n as nat),
{
    let size = usize_to_string(3 * n);
    let mut r = String::from_str("\n\n/*\nданные инициализации кнопок раскладок по 8 на раскладку\nдля инициализации синтезатора параметра необходимо 3 атрибута\n\nvtabwi <row id>, giB, <pid>, <lid>, <position>\nгде:\n  lid      - индекс раскладки\n  pid      - индекс параметра в таблице giP\n  position - индекс одной из 8ми позиций кнопки в раскладке\n             где индекс позиции:\n               1 2  3 4\n               5 6  7 8\n*/\n\n;               кол-во записей * 3 атрибута\n;               |\ngiB ftgen 1, 0, ");
    r.append(size.as_str());
    r.append(", -7, 0\n\n; раскладка A");
    r
}

/// Csound line that gives the parameter its label.
pub fn param_label_line(p: &ParamLabel) -> (r: String)
    ensures
        r@ == param_label_text(p.cc, p.label@),
{
    let id = pad2_usize(p.cc as usize);
    let mut r = String::from_str("strset ");
    r.append(id.as_str());
    r.append(", \"");
    r.append(p.label.as_str());
    r.append("\"");
    r
}

fn csound_layout_line(row: usize, l: &LayoutRow) -> (r: String)
    ensures
        r@ == csound_layout_text(row as nat, l@),
{
    let row_text = pad2_usize(row);
    let pid_text = pad2_usize(l.pid as usize);
    let lid_text = usize_to_string(l.lid as usize);
    let pos_text = usize_to_string(l.position as usize);
    let mut r = String::from_str("vtabwi ");
    r.append(row_text.as_str());
    r.append(", giB, ");
    r.append(pid_text.as_str());
    r.append(", ");
    r.append(lid_text.as_str());
    r.append(", ");
    r.append(pos_text.as_str());
    proof {
        assert(r@ =~= csound_layout_text(row as nat, l@));
    }
    r
}

/// Numbers the layout buttons by their order (the Csound table row) and gives
/// their Csound lines: a header before the buttons of each new layout, a line
/// per button, and the number of layouts.
pub fn csound_layouts(layouts: &mut Vec<LayoutRow>) -> (r: Vec<String>)
    requires
        lids_lettered(rows_view(old(layouts)@)),
    ensures
        lines_view(r@) == csound_layout_lines(rows_view(old(layouts)@), 0, 0),
        final(layouts)@.len() == old(layouts)@.len(),
        forall|k: int| 0 <= k < final(layouts)@.len() ==> (#[trigger] final(layouts)@[k])@
            == (LayoutRowView { row: Some(k as usize), ..old(layouts)@[k]@ }),
{
    let ghost rows = rows_view(old(layouts)@);
    let mut out: Vec<String> = Vec::new();
    let mut curr: u8 = 0;
    let mut i: usize = 0;
    while i < layouts.len()
        invariant
            i <= layouts@.len(),
            layouts@.len() == old(layouts)@.len(),
            rows == rows_view(old(layouts)@),
            lids_lettered(rows),
            curr <= 190,
            forall|k: int| 0 <= k < i ==> (#[trigger] layouts@[k])@ == (LayoutRowView { row: Some(k as usize), ..rows[k] }),
            forall|k: int| i <= k < layouts@.len() ==> (#[trigger] layouts@[k])@ == rows[k],
            lines_view(out@) + csound_layout_lines(rows, i as int, curr) == csound_layout_lines(rows, 0, 0),
        decreases layouts@.len() - i,
    {
        let ghost before = out@;
        let ghost curr0 = curr;
        let lid = layouts[i].lid;
        assert(rows[i as int].lid == lid);
        if curr != lid {
            curr = lid;
            let mut header = String::from_str("\n; раскладка ");
            let l = letter(curr);
            header.append(l.as_str());
            out.push(header);
        }
        let line = csound_layout_line(i, &layouts[i]);
        out.push(line);
        let row = LayoutRow {
            lid: layouts[i].lid,
            pid: layouts[i].pid,
            position: layouts[i].position,
            action: layouts[i].action.clone(),
            row: Some(i),
        };
        layouts.set(i, row);
        proof {
            assert(curr == rows[i as int].lid);
            assert(lines_view(out@) + csound_layout_lines(rows, i + 1, curr)
                =~= lines_view(before) + csound_layout_lines(rows, i as int, curr0));
        }
        i = i + 1;
    }
    let mut footer = String::from_str("\n; всего раскладок\ngiL_len init ");
    let len = usize_to_string(curr as usize + 1);
    footer.append(len.as_str());
    out.push(footer);
    proof {
        assert(lines_view(out@) =~= csound_layout_lines(rows, 0, 0));
    }
    out
}


/// Rust line that declares a fresh layout of eight empty buttons.
pub open spec fn fresh_layout_text() -> Seq<char> {
    "        layout = vec![ButtonUpdate::new(None, Action::None); 8];"@
}

/// Rust line that stores the finished layout named by the letter of `lid`.
pub open spec fn insert_layout_text(lid: u8) -> Seq<char> {
    "\n        init.insert(Layout::new(\""@ + seq![layout_letter(lid)] + "\", layout.to_owned()));\n"@
}

/// Rust line that sets a button of the layout being built.
pub open spec fn set_button_text(l: LayoutRowView) -> Seq<char> {
    "        layout["@ + decimal((l.position - 1) as nat) + "] = ButtonUpdate::new(Some("@
        + decimal((l.pid - 1) as nat) + "), Action::"@ + l.action + ");"@
}

/// Closing lines of the layouts' initializer, storing the last layout `curr`.
pub open spec fn layouts_init_end_text(curr: u8) -> Seq<char> {
    "\n        init.insert(Layout::new(\""@ + seq![layout_letter(curr)]
        + "\", layout.to_owned()));\n\n        return init;\n    }\n}"@
}

/// Rust lines for the layout buttons from row `i` on, while the layout `curr`
/// is being built: a finished layout is stored whenever the layout index
/// changes, then each button is set.
pub open spec fn rust_layout_lines(rows: Seq<LayoutRowView>, i: int, curr: u8) -> Seq<Seq<char>>
    decreases rows.len() - i,
{
    if i >= rows.len() || i < 0 {
        seq![layouts_init_end_text(curr)]
    } else {
        let l = rows[i];
        (if curr != l.lid { seq![insert_layout_text(curr), fresh_layout_text()] } else { Seq::empty() })
            + seq![set_button_text(l)]
            + rust_layout_lines(rows, i + 1, l.lid)
    }
}

/// Every button names its parameter and position counted from one.
pub open spec fn counted_from_one(rows: Seq<LayoutRowView>) -> bool {
    forall|k: int| 0 <= k < rows.len() ==> (#[trigger] rows[k]).pid >= 1 && rows[k].position >= 1
}

/// First lines of the generated Rust file, up to the first layout.
pub open spec fn rust_prelude_lines() -> Seq<Seq<char>> {
    seq![
        "// this file was auto-generated from settings.toml\n"@,
        "use super::{layout::{ButtonUpdate, Layout}, param::Param, Action};"@,
        "use slab::Slab;"@,
        "\nimpl Layout {\n    pub fn init() -> Slab<Layout> {\n        let mut init = Slab::new();\n\n        let mut layout = vec![ButtonUpdate::new(None, Action::None); 8];"@,
    ]
}

/// First lines of the generated Rust file, up to the first layout.
pub fn rust_prelude() -> (r: Vec<String>)
    ensures
        lines_view(r@) == rust_prelude_lines(),
{
    let mut r: Vec<String> = Vec::new();
    r.push(String::from_str("// this file was auto-generated from settings.toml\n"));
    r.push(String::from_str("use super::{layout::{ButtonUpdate, Layout}, param::Param, Action};"));
    r.push(String::from_str("use slab::Slab;"));
    r.push(String::from_str("\nimpl Layout {\n    pub fn init() -> Slab<Layout> {\n        let mut init = Slab::new();\n\n        let mut layout = vec![ButtonUpdate::new(None, Action::None); 8];"));
    assert(lines_view(r@) =~= rust_prelude_lines());
    r
}

fn set_button_line(l: &LayoutRow) -> (r: String)
    requires
        l.pid >= 1,
        l.position >= 1,
    ensures
        r@ == set_button_text(l@),
{
    let btn = usize_to_string((l.position - 1) as usize);
    let id = usize_to_string((l.pid - 1) as usize);
    let mut r = String::from_str("        layout[");
    r.append(btn.as_str());
    r.append("] = ButtonUpdate::new(Some(");
    r.append(id.as_str());
    r.append("), Action::");
    r.append(l.action.as_str());
    r.append(");");
    proof {
        assert(r@ =~= set_button_text(l@));
    }
    r
}

/// Rust lines that fill the layouts' slab from the layout buttons: the
/// buttons of consecutive rows with one layout index make one layout.
pub fn rust_layouts(layouts: &Vec<LayoutRow>) -> (r: Vec<String>)
    requires
        lids_lettered(rows_view(layouts@)),
        counted_from_one(rows_view(layouts@)),
    ensures
        lines_view(r@) == rust_layout_lines(rows_view(layouts@), 0, 0),
{
    let ghost rows = rows_view(layouts@);
    let mut out: Vec<String> = Vec::new();
    let mut curr: u8 = 0;
    let mut i: usize = 0;
    while i < layouts.len()
        invariant
            i <= layouts@.len(),
            rows == rows_view(layouts@),
            lids_lettered(rows),
            counted_from_one(rows),
            curr <= 190,
            lines_view(out@) + rust_layout_lines(rows, i as int, curr) == rust_layout_lines(rows, 0, 0),
        decreases layouts@.len() - i,
    {
        let ghost before = out@;
        let ghost curr0 = curr;
        let l = &layouts[i];
        assert(rows[i as int] == l@);
        if curr != l.lid {
            let label = letter(curr);
            curr = l.lid;
            let mut insert = String::from_str("\n        init.insert(Layout::new(\"");
            insert.append(label.as_str());
            insert.append("\", layout.to_owned()));\n");
            out.push(insert);
            out.push(String::from_str("        layout = vec![ButtonUpdate::new(None, Action::None); 8];"));
        }
        out.push(set_button_line(l));
        proof {
            assert(lines_view(out@) + rust_layout_lines(rows, i + 1, curr)
                =~= lines_view(before) + rust_layout_lines(rows, i as int, curr0));
        }
        i = i + 1;
    }
    let label = letter(curr);
    let mut end = String::from_str("\n        init.insert(Layout::new(\"");
    end.append(label.as_str());
    end.append("\", layout.to_owned()));\n\n        return init;\n    }\n}");
    out.push(end);
    proof {
        assert(lines_view(out@) =~= rust_layout_lines(rows, 0, 0));
    }
    out
}

/// Rust line that stores a parameter.
pub open spec fn rust_param_text(cc: u8, label: Seq<char>) -> Seq<char> {
    "        init.insert(Param::new("@ + decimal(cc as nat) + ", \""@ + label + "\"));"@
}

/// Rust lines of the parameters' initializer.
pub open spec fn rust_param_lines(params: Seq<ParamLabel>) -> Seq<Seq<char>> {
    seq!["\nimpl Param {\n    pub fn init() -> Slab<Param> {\n        let mut init = Slab::new();\n"@]
        + params.map_values(|p: ParamLabel| rust_param_text(p.cc, p.label@))
        + seq!["\n        return init;\n    }\n}"@]
}

/// Rust lines that fill the parameters' slab, in order.
pub fn rust_params(params: &Vec<ParamLabel>) -> (r: Vec<String>)
    ensures
        lines_view(r@) == rust_param_lines(params@),
{
    let mut out: Vec<String> = Vec::new();
    out.push(String::from_str("\nimpl Param {\n    pub fn init() -> Slab<Param> {\n        let mut init = Slab::new();\n"));
    let mut i: usize = 0;
    while i < params.len()
        invariant
            i <= params@.len(),
            lines_view(out@) == seq!["\nimpl Param {\n    pub fn init() -> Slab<Param> {\n        let mut init = Slab::new();\n"@]
                + params@.subrange(0, i as int).map_values(|p: ParamLabel| rust_param_text(p.cc, p.label@)),
        decreases params@.len() - i,
    {
        let id = usize_to_string(params[i].cc as usize);
        let mut line = String::from_str("        init.insert(Param::new(");
        line.append(id.as_str());
        line.append(", \"");
        line.append(params[i].label.as_str());
        line.append("\"));");
        assert(line@ =~= rust_param_text(params@[i as int].cc, params@[i as int].label@));
        let ghost before = out@;
        out.push(line);
        assert(lines_view(out@) =~= lines_view(before).push(line@));
        proof {
            assert(params@.subrange(0, i + 1).map_values(|p: ParamLabel| rust_param_text(p.cc, p.label@))
                =~= params@.subrange(0, i as int).map_values(|p: ParamLabel| rust_param_text(p.cc, p.label@))
                    .push(rust_param_text(params@[i as int].cc, params@[i as int].label@)));
            assert(lines_view(out@) =~= seq!["\nimpl Param {\n    pub fn init() -> Slab<Param> {\n        let mut init = Slab::new();\n"@]
                + params@.subrange(0, i + 1).map_values(|p: ParamLabel| rust_param_text(p.cc, p.label@)));
        }
        i = i + 1;
    }
    out.push(String::from_str("\n        return init;\n    }\n}"));
    proof {
        assert(params@.subrange(0, params@.len() as int) =~= params@);
        assert(lines_view(out@) =~= rust_param_lines(params@));
    }
    out
}


/// The button that a row of the settings puts in its layout.
pub open spec fn row_button(l: LayoutRowView) -> ButtonView {
    ButtonView {
        action: action_from_variant(l.action)->Some_0,
        data: seq![(l.pid - 1) as usize],
        color: default_color(),
    }
}

/// Eight buttons without action.
pub open spec fn empty_slots() -> Seq<ButtonView> {
    Seq::new(8, |i: int| ButtonView { action: Action::NoAction, data: Seq::empty(), color: default_color() })
}

/// The layout named by the letter of `lid` with these buttons.
pub open spec fn lettered_layout(lid: u8, slots: Seq<ButtonView>) -> LayoutView {
    LayoutView { buttons: slots, color: layout_color(), label: seq![layout_letter(lid)] }
}

/// The layouts built from the rows from `i` on, while the layout `curr` with
/// the buttons `slots` is being built and the layouts `done` are finished: a
/// change of layout index finishes the layout being built and starts one of
/// eight empty buttons; each row sets one button.
pub open spec fn built_layouts(rows: Seq<LayoutRowView>, i: int, curr: u8, slots: Seq<ButtonView>, done: Seq<LayoutView>) -> Seq<LayoutView>
    decreases rows.len() - i,
{
    if i >= rows.len() || i < 0 {
        done.push(lettered_layout(curr, slots))
    } else {
        let l = rows[i];
        let done2 = if curr != l.lid { done.push(lettered_layout(curr, slots)) } else { done };
        let slots2 = if curr != l.lid { empty_slots() } else { slots };
        built_layouts(rows, i + 1, l.lid, slots2.update(l.position - 1, row_button(l)), done2)
    }
}

/// Every row sets one of the eight buttons with a known action.
pub open spec fn rows_buildable(rows: Seq<LayoutRowView>) -> bool {
    forall|k: int| 0 <= k < rows.len() ==> {
        &&& (#[trigger] rows[k]).lid <= 190
        &&& rows[k].pid >= 1
        &&& 1 <= rows[k].position <= 8
        &&& action_from_variant(rows[k].action) is Some
    }
}

pub open spec fn layouts_view(ls: Seq<Layout>) -> Seq<LayoutView> {
    ls.map_values(|l: Layout| l@)
}

fn fresh_slots() -> (r: Vec<Button>)
    ensures
        r@.len() == 8,
        r@.map_values(|b: Button| b@) == empty_slots(),
{
    let mut r: Vec<Button> = Vec::new();
    let mut i: usize = 0;
    while i < 8
        invariant
            i <= 8,
            r@.len() == i,
            forall|k: int| 0 <= k < i ==> (#[trigger] r@[k])@ == empty_slots()[k],
        decreases 8 - i,
    {
        r.push(Button::default());
        i = i + 1;
    }
    assert(r@.map_values(|b: Button| b@) =~= empty_slots());
    r
}

/// The layouts that the settings describe, as the generated initializer
/// builds them.
pub fn layouts_from_rows(rows: &Vec<LayoutRow>) -> (r: Vec<Layout>)
    requires
        rows_buildable(rows_view(rows@)),
    ensures
        layouts_view(r@) == built_layouts(rows_view(rows@), 0, 0, empty_slots(), Seq::empty()),
        r@.len() > 0,
        r@.len() == lid_changes(rows_view(rows@), rows@.len() as int) + 1,
        forall|j: int| 0 <= j < r@.len() ==> (#[trigger] r@[j])@.buttons == own_buttons(rows_view(rows@), j as nat, rows@.len() as int),
{
    let ghost rv = rows_view(rows@);
    let mut done: Vec<Layout> = Vec::new();
    let mut slots = fresh_slots();
    let mut curr: u8 = 0;
    let mut i: usize = 0;
    assert(layouts_view(done@) =~= Seq::<LayoutView>::empty());
    while i < rows.len()
        invariant
            i <= rows@.len(),
            rv == rows_view(rows@),
            rows_buildable(rv),
            curr <= 190,
            slots@.len() == 8,
            built_layouts(rv, i as int, curr, slots@.map_values(|b: Button| b@), layouts_view(done@))
                == built_layouts(rv, 0, 0, empty_slots(), Seq::empty()),
        decreases rows@.len() - i,
    {
        let l = &rows[i];
        assert(rv[i as int] == l@);
        let ghost done0 = layouts_view(done@);
        let ghost slots0 = slots@.map_values(|b: Button| b@);
        let ghost curr0 = curr;
        if curr != l.lid {
            let label = letter(curr);
            let finished = Layout::new(label, slots);
            assert(finished@ == lettered_layout(curr0, slots0));
            done.push(finished);
            assert(layouts_view(done@) =~= done0.push(lettered_layout(curr0, slots0)));
            slots = fresh_slots();
            curr = l.lid;
        }
        let ghost slots1 = slots@.map_values(|b: Button| b@);
        let action = Action::from_variant(l.action.as_str()).unwrap();
        let pos = (l.position - 1) as usize;
        let mut target: Vec<usize> = Vec::new();
        target.push((l.pid - 1) as usize);
        let b = Button::new(target, action);
        assert(b@ == row_button(l@)) by {
            assert(target@ =~= seq![(l@.pid - 1) as usize]);
        }
        slots.set(pos, b);
        assert(slots@.map_values(|b: Button| b@) =~= slots1.update(l.position - 1, row_button(l@)));
        assert(built_layouts(rv, i + 1, curr, slots@.map_values(|b: Button| b@), layouts_view(done@))
            == built_layouts(rv, i as int, curr0, slots0, done0));
        i = i + 1;
    }
    let ghost done0 = layouts_view(done@);
    let ghost slots0 = slots@.map_values(|b: Button| b@);
    let label = letter(curr);
    let last = Layout::new(label, slots);
    done.push(last);
    assert(layouts_view(done@) =~= done0.push(lettered_layout(curr, slots0)));
    proof {
        lemma_layouts_from_own_rows(rv);
        assert forall|j: int| 0 <= j < done@.len() implies (#[trigger] done@[j])@.buttons == own_buttons(rv, j as nat, rows@.len() as int) by {
            assert(layouts_view(done@)[j] == done@[j]@);
        }
    }
    done
}


/// Whether every layout index can be shown as a letter.
pub fn lids_ready(rows: &Vec<LayoutRow>) -> (r: bool)
    ensures
        r == lids_lettered(rows_view(rows@)),
{
    let mut i: usize = 0;
    while i < rows.len()
        invariant
            i <= rows@.len(),
            forall|k: int| 0 <= k < i ==> (#[trigger] rows_view(rows@)[k]).lid <= 190,
        decreases rows@.len() - i,
    {
        if rows[i].lid > 190 {
            assert(rows_view(rows@)[i as int].lid > 190);
            return false;
        }
        i = i + 1;
    }
    true
}

/// Whether every row names its parameter and position counted from one.
pub fn counted_ready(rows: &Vec<LayoutRow>) -> (r: bool)
    ensures
        r == counted_from_one(rows_view(rows@)),
{
    let mut i: usize = 0;
    while i < rows.len()
        invariant
            i <= rows@.len(),
            forall|k: int| 0 <= k < i ==> (#[trigger] rows_view(rows@)[k]).pid >= 1 && rows_view(rows@)[k].position >= 1,
        decreases rows@.len() - i,
    {
        if rows[i].pid < 1 || rows[i].position < 1 {
            assert(!(rows_view(rows@)[i as int].pid >= 1 && rows_view(rows@)[i as int].position >= 1));
            return false;
        }
        i = i + 1;
    }
    true
}

/// Whether the layouts can be built from the rows.
pub fn rows_ready(rows: &Vec<LayoutRow>) -> (r: bool)
    ensures
        r == rows_buildable(rows_view(rows@)),
{
    let mut i: usize = 0;
    while i < rows.len()
        invariant
            i <= rows@.len(),
            forall|k: int| 0 <= k < i ==> {
                &&& (#[trigger] rows_view(rows@)[k]).lid <= 190
                &&& rows_view(rows@)[k].pid >= 1
                &&& 1 <= rows_view(rows@)[k].position <= 8
                &&& action_from_variant(rows_view(rows@)[k].action) is Some
            },
        decreases rows@.len() - i,
    {
        let l = &rows[i];
        assert(rows_view(rows@)[i as int] == l@);
        if l.lid > 190 || l.pid < 1 || l.position < 1 || l.position > 8 || Action::from_variant(l.action.as_str()).is_none() {
            return false;
        }
        i = i + 1;
    }
    true
}


/// The layout index in force before row `k`: that of the row before it, or
/// `0` before the first row.
pub open spec fn lid_before(rows: Seq<LayoutRowView>, k: int) -> u8 {
    if k <= 0 { 0 } else { rows[k - 1].lid }
}

/// How many times the layout index changes among the first `n` rows.
pub open spec fn lid_changes(rows: Seq<LayoutRowView>, n: int) -> nat
    decreases n,
{
    if n <= 0 {
        0
    } else {
        lid_changes(rows, n - 1) + if rows[n - 1].lid != lid_before(rows, n - 1) { 1nat } else { 0nat }
    }
}

/// The layout that row `k` belongs to, counted from `0` for the layout the
/// rows start in.
pub open spec fn layout_index(rows: Seq<LayoutRowView>, k: int) -> nat {
    lid_changes(rows, k + 1)
}

/// The buttons of layout `j` from the first `n` rows alone: eight empty
/// buttons, set by the rows of that layout, each in its position.
pub open spec fn own_buttons(rows: Seq<LayoutRowView>, j: nat, n: int) -> Seq<ButtonView>
    decreases n,
{
    if n <= 0 {
        empty_slots()
    } else if layout_index(rows, n - 1) == j {
        own_buttons(rows, j, n - 1).update(rows[n - 1].position - 1, row_button(rows[n - 1]))
    } else {
        own_buttons(rows, j, n - 1)
    }
}

proof fn lemma_later_layouts_empty(rows: Seq<LayoutRowView>, j: nat, n: int)
    requires
        j > lid_changes(rows, n),
    ensures
        own_buttons(rows, j, n) == empty_slots(),
    decreases n,
{
    if n > 0 {
        lemma_later_layouts_empty(rows, j, n - 1);
    }
}

proof fn lemma_own_buttons_len(rows: Seq<LayoutRowView>, j: nat, n: int)
    requires
        rows_buildable(rows),
        n <= rows.len(),
    ensures
        own_buttons(rows, j, n).len() == 8,
    decreases n,
{
    if n > 0 {
        lemma_own_buttons_len(rows, j, n - 1);
        assert(1 <= rows[n - 1].position <= 8);
    } else {
        assert(own_buttons(rows, j, n) == empty_slots());
        assert(empty_slots().len() == 8);
    }
}

proof fn lemma_built_from_own_rows(rows: Seq<LayoutRowView>, i: int, curr: u8, slots: Seq<ButtonView>, done: Seq<LayoutView>)
    requires
        0 <= i <= rows.len(),
        curr == lid_before(rows, i),
        done.len() == lid_changes(rows, i),
        forall|j: int| 0 <= j < done.len() ==> (#[trigger] done[j]).buttons == own_buttons(rows, j as nat, i),
        slots == own_buttons(rows, lid_changes(rows, i), i),
    ensures
        built_layouts(rows, i, curr, slots, done).len() == lid_changes(rows, rows.len() as int) + 1,
        forall|j: int| 0 <= j < built_layouts(rows, i, curr, slots, done).len()
            ==> (#[trigger] built_layouts(rows, i, curr, slots, done)[j]).buttons == own_buttons(rows, j as nat, rows.len() as int),
    decreases rows.len() - i,
{
    if i < rows.len() {
        let l = rows[i];
        let jj = lid_changes(rows, i);
        let done2 = if curr != l.lid { done.push(lettered_layout(curr, slots)) } else { done };
        let slots2 = if curr != l.lid { empty_slots() } else { slots };
        let slots3 = slots2.update(l.position - 1, row_button(l));
        assert(lid_before(rows, i + 1) == l.lid);
        if curr != l.lid {
            assert(lid_changes(rows, i + 1) == jj + 1);
            assert forall|j: int| 0 <= j < done2.len() implies (#[trigger] done2[j]).buttons == own_buttons(rows, j as nat, i + 1) by {
                if j < done.len() {
                    assert(done2[j] == done[j]);
                }
            }
            lemma_later_layouts_empty(rows, jj + 1, i);
        } else {
            assert(lid_changes(rows, i + 1) == jj);
            assert forall|j: int| 0 <= j < done2.len() implies (#[trigger] done2[j]).buttons == own_buttons(rows, j as nat, i + 1) by {}
        }
        lemma_built_from_own_rows(rows, i + 1, l.lid, slots3, done2);
    } else {
        let r = done.push(lettered_layout(curr, slots));
        assert forall|j: int| 0 <= j < r.len() implies (#[trigger] r[j]).buttons == own_buttons(rows, j as nat, rows.len() as int) by {
            if j < done.len() {
                assert(r[j] == done[j]);
            }
        }
    }
}

proof fn lemma_unset_position_empty(rows: Seq<LayoutRowView>, j: nat, n: int, q: int)
    requires
        rows_buildable(rows),
        0 <= q < 8,
        n <= rows.len(),
        forall|k: int| 0 <= k < n && layout_index(rows, k) == j ==> (#[trigger] rows[k]).position - 1 != q,
    ensures
        own_buttons(rows, j, n)[q] == (ButtonView { action: Action::NoAction, data: Seq::empty(), color: default_color() }),
    decreases n,
{
    if n > 0 {
        lemma_unset_position_empty(rows, j, n - 1, q);
        lemma_own_buttons_len(rows, j, n - 1);
        assert(1 <= rows[n - 1].position <= 8);
        if layout_index(rows, n - 1) == j {
            assert(rows[n - 1].position - 1 != q);
        }
    } else {
        assert(empty_slots()[q] == (ButtonView { action: Action::NoAction, data: Seq::empty(), color: default_color() }));
    }
}

/// Law: the layouts built from the settings are one for the layout the rows
/// start in and one more for each change of layout index; the buttons of each
/// depend only on its own rows: eight empty buttons, each set by the rows of
/// that layout in its position (the later row winning), and every position
/// that no row of that layout sets is an empty button.
pub proof fn lemma_layouts_from_own_rows(rows: Seq<LayoutRowView>)
    requires
        rows_buildable(rows),
    ensures
        built_layouts(rows, 0, 0, empty_slots(), Seq::empty()).len() == lid_changes(rows, rows.len() as int) + 1,
        forall|j: int| 0 <= j < built_layouts(rows, 0, 0, empty_slots(), Seq::empty()).len()
            ==> (#[trigger] built_layouts(rows, 0, 0, empty_slots(), Seq::empty())[j]).buttons
                == own_buttons(rows, j as nat, rows.len() as int),
        forall|j: int, q: int| 0 <= j < built_layouts(rows, 0, 0, empty_slots(), Seq::empty()).len() && 0 <= q < 8
            && (forall|k: int| 0 <= k < rows.len() && layout_index(rows, k) == j ==> (#[trigger] rows[k]).position - 1 != q)
            ==> #[trigger] built_layouts(rows, 0, 0, empty_slots(), Seq::empty())[j].buttons[q]
                == (ButtonView { action: Action::NoAction, data: Seq::empty(), color: default_color() }),
{
    assert(own_buttons(rows, 0, 0) == empty_slots());
    lemma_built_from_own_rows(rows, 0, 0, empty_slots(), Seq::empty());
    let out = built_layouts(rows, 0, 0, empty_slots(), Seq::empty());
    assert forall|j: int, q: int| 0 <= j < out.len() && 0 <= q < 8
        && (forall|k: int| 0 <= k < rows.len() && layout_index(rows, k) == j ==> (#[trigger] rows[k]).position - 1 != q)
        implies #[trigger] out[j].buttons[q]
            == (ButtonView { action: Action::NoAction, data: Seq::empty(), color: default_color() }) by {
        lemma_unset_position_empty(rows, j as nat, rows.len() as int, q);
    }
}

} // verus!
