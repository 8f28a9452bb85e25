use puppet::{
    Component, ComponentType, PuppetAlignment, PuppetColor, PuppetColumn, PuppetLength,
    PuppetRow, PuppetStyle, PuppetUnit, RenderOp, RenderSession,
};

fn property_names(ops: &[RenderOp]) -> Vec<&'static str> {
    let mut names = Vec::new();
    for op in ops {
        if let RenderOp::SetCssProperty(name, _) = op {
            names.push(*name);
        }
    }
    names
}

fn property_value(ops: &[RenderOp], wanted: &str) -> String {
    for op in ops {
        if let RenderOp::SetCssProperty(name, value) = op {
            if *name == wanted {
                return value.clone();
            }
        }
    }
    panic!("property {} was not assigned", wanted);
}

fn element_ids(ops: &[RenderOp]) -> Vec<&'static str> {
    let mut ids = Vec::new();
    for op in ops {
        if let RenderOp::SetElementId(id) = op {
            ids.push(*id);
        }
    }
    ids
}

#[test]
fn default_style_serializes_as_specified() {
    let style = PuppetStyle::default();
    assert_eq!(style.padding, PuppetUnit::Percentage(2));
    assert_eq!(style.margin, PuppetUnit::Pixels(0));
    assert_eq!(style.width, PuppetLength::Full);
    assert_eq!(style.height, PuppetLength::Normal);
    assert_eq!(style.min_width, PuppetUnit::Pixels(0));
    assert_eq!(style.min_height, PuppetUnit::Pixels(0));
    assert_eq!(style.max_width, PuppetUnit::Pixels(0));
    assert_eq!(style.max_height, PuppetUnit::Pixels(0));
    assert_eq!(style.alignment, PuppetAlignment::default());
    assert_eq!(style.background_color, PuppetColor::Hex("FFFFFF"));

    let ops = style.to_html();
    assert_eq!(property_value(&ops, "padding"), "2%");
    assert_eq!(property_value(&ops, "margin"), "auto");
    assert_eq!(property_value(&ops, "width"), "100%");
    assert_eq!(property_value(&ops, "height"), "auto");
    assert_eq!(property_value(&ops, "min-width"), "auto");
    assert_eq!(property_value(&ops, "min-height"), "auto");
    assert_eq!(property_value(&ops, "max-width"), "auto");
    assert_eq!(property_value(&ops, "max-height"), "auto");
    assert_eq!(property_value(&ops, "background-color"), "#FFFFFF");
}

#[test]
fn style_application_orders_the_nine_properties() {
    let ops = PuppetStyle::default().to_html();
    assert_eq!(ops.len(), 9);
    assert_eq!(
        property_names(&ops),
        vec![
            "margin",
            "padding",
            "width",
            "height",
            "min-width",
            "min-height",
            "max-width",
            "max-height",
            "background-color",
        ]
    );
}

#[test]
fn setters_round_trip_each_field() {
    let mut style = PuppetStyle::default();
    style.padding(PuppetUnit::Pixels(7));
    style.margin(PuppetUnit::Percentage(8));
    style.width(PuppetLength::Half);
    style.height(PuppetLength::ViewPortHeight);
    style.min_width(PuppetUnit::Pixels(50));
    style.min_height(PuppetUnit::Pixels(60));
    style.max_width(PuppetUnit::Pixels(70));
    style.max_height(PuppetUnit::Pixels(80));
    style.align_items(PuppetAlignment::Grid);
    style.background_color(PuppetColor::Rgb(0, 0, 0));

    assert_eq!(style.padding, PuppetUnit::Pixels(7));
    assert_eq!(style.margin, PuppetUnit::Percentage(8));
    assert_eq!(style.width, PuppetLength::Half);
    assert_eq!(style.height, PuppetLength::ViewPortHeight);
    assert_eq!(style.min_width, PuppetUnit::Pixels(50));
    assert_eq!(style.min_height, PuppetUnit::Pixels(60));
    assert_eq!(style.max_width, PuppetUnit::Pixels(70));
    assert_eq!(style.max_height, PuppetUnit::Pixels(80));
    assert_eq!(style.alignment, PuppetAlignment::Grid);
    assert_eq!(style.background_color, PuppetColor::Rgb(0, 0, 0));
}

#[test]
fn setters_of_distinct_fields_commute() {
    let mut one = PuppetStyle::default();
    one.padding(PuppetUnit::Pixels(7));
    one.background_color(PuppetColor::Rgb(1, 2, 3));

    let mut other = PuppetStyle::default();
    other.background_color(PuppetColor::Rgb(1, 2, 3));
    other.padding(PuppetUnit::Pixels(7));

    assert_eq!(one, other);
}

#[test]
fn empty_id_clears_the_identifier() {
    let mut column = PuppetColumn::new();
    column.column_id("foo");
    let ops = column.to_html();
    assert_eq!(element_ids(&ops), vec!["foo"]);

    column.column_id("");
    let ops = column.to_html();
    assert!(element_ids(&ops).is_empty());
}

#[test]
fn empty_column_renders_its_own_element_alone() {
    let column = PuppetColumn::new();
    let ops = column.to_html();
    // create + nine properties + final append
    assert_eq!(ops.len(), 11);
    assert_eq!(ops[0], RenderOp::CreateElement);
    assert_eq!(ops[10], RenderOp::AppendToParent);
}

#[test]
fn rows_render_in_insertion_order() {
    let mut row_a = PuppetRow::new();
    row_a.column_id("a");
    let mut row_b = PuppetRow::new();
    row_b.column_id("b");
    let mut row_c = PuppetRow::new();
    row_c.column_id("c");

    let mut column = PuppetColumn::new();
    column.column_id("root");
    column.add_row(row_a);
    column.add_row(row_b);
    column.add_row(row_c);

    let ops = column.to_html();
    assert_eq!(element_ids(&ops), vec!["root", "a", "b", "c"]);

    // Each row contributes one balanced create/append pair inside the
    // column's own pair, in document order.
    let mut depth = 0usize;
    let mut max_depth = 0usize;
    for op in &ops {
        match op {
            RenderOp::CreateElement => {
                depth += 1;
                max_depth = max_depth.max(depth);
            }
            RenderOp::AppendToParent => {
                depth -= 1;
            }
            _ => (),
        }
    }
    assert_eq!(depth, 0);
    assert_eq!(max_depth, 2);
}

#[test]
fn components_render_in_insertion_order() {
    let mut row = PuppetRow::new();
    row.add_component(Component::new(ComponentType::Button, "first"));
    row.add_component(Component::new(ComponentType::Paragraph, "second"));
    row.add_component(Component::new(ComponentType::Link, "third"));

    let ops = row.to_html();
    let mut texts = Vec::new();
    for op in &ops {
        if let RenderOp::AppendComponent(component) = op {
            texts.push(component.text);
        }
    }
    assert_eq!(texts, vec!["first", "second", "third"]);
}

#[test]
fn a_session_hands_out_the_whole_stream_in_order() {
    let mut column = PuppetColumn::new();
    column.add_row(PuppetRow::new());

    let expected = column.to_html();
    let mut session = RenderSession::new(&column);
    let mut seen = Vec::new();
    while let Some(op) = session.next_op() {
        seen.push(op);
    }
    assert!(session.succeeded());
    assert_eq!(seen, expected);
}

#[test]
fn a_failure_stops_the_render_before_any_append() {
    let mut column = PuppetColumn::new();
    column.add_row(PuppetRow::new());
    column.add_row(PuppetRow::new());

    let mut session = RenderSession::new(&column);
    // The environment fails at the very first step: element creation.
    let first = session.next_op();
    assert_eq!(first, Some(RenderOp::CreateElement));
    session.report_failure();

    // The session reports the failure and withholds everything else: no
    // child is appended.
    assert_eq!(session.next_op(), None);
    assert_eq!(session.next_op(), None);
    assert!(!session.succeeded());
}

#[test]
fn a_component_keeps_its_kind_style_and_text() {
    let mut component = Component::new(ComponentType::Image, "a caption");
    assert_eq!(component.component_type, ComponentType::Image);
    assert_eq!(component.style, PuppetStyle::default());
    assert_eq!(component.text, "a caption");

    let mut style = PuppetStyle::default();
    style.width(PuppetLength::Quarter);
    component.set_style(&style);
    assert_eq!(component.style.width, PuppetLength::Quarter);
}

#[test]
fn row_styles_reach_their_own_element() {
    let mut style = PuppetStyle::default();
    style.background_color(PuppetColor::Rgb(10, 20, 30));
    let mut row = PuppetRow::new();
    row.set_style(&style);

    let ops = row.to_html();
    assert_eq!(property_value(&ops, "background-color"), "rgb(10,20,30)");
}
