use kagu::{
    compose, lay_out, render, Alignment, App, Area, Color, Draw, Pane, Panes, Style, Title, Widget,
};

fn app() -> App {
    App {
        realms: vec![(4, String::from("home")), (2, String::from("work"))],
        current_pane: Pane::OtherPane,
        is_voice_connected: false,
        current_time: String::from("12:34"),
    }
}

fn area(x: u16, y: u16, width: u16, height: u16) -> Area {
    Area { x, y, width, height }
}

/// Panes that no layout gives, each of its own width.
fn numbered_panes() -> Panes {
    let pane = |width: u16| area(0, 0, width, 1);
    Panes {
        bar: pane(1),
        body: pane(2),
        logo: pane(3),
        voice: pane(4),
        blank: pane(5),
        time: pane(6),
        left: pane(7),
        middle: pane(8),
        right: pane(9),
        above_realms: pane(10),
        realms: pane(11),
        friends: pane(12),
        direct_messages: pane(13),
        conversation_title: pane(14),
        conversation: pane(15),
    }
}

fn leaves(panes: &Panes) -> Vec<Area> {
    vec![
        panes.logo,
        panes.voice,
        panes.blank,
        panes.time,
        panes.above_realms,
        panes.realms,
        panes.friends,
        panes.direct_messages,
        panes.conversation_title,
        panes.conversation,
    ]
}

fn has_cell(pane: &Area, x: u16, y: u16) -> bool {
    pane.x <= x && x < pane.x + pane.width && pane.y <= y && y < pane.y + pane.height
}

fn label(text: &str, fg: Option<Color>, alignment: Alignment) -> Widget {
    Widget::Label { text: String::from(text), style: Style { fg, bold: false }, alignment }
}

fn panel(text: &str, title: Title) -> Widget {
    Widget::Panel { text: String::from(text), title }
}

fn realms(focused: bool) -> Widget {
    Widget::List {
        items: vec![String::from("home"), String::from("work")],
        item_style: Style { fg: Some(Color::LightBlue), bold: false },
        title: Title::Pane { pane: Pane::RealmsPane, focused },
        highlight_style: Style { fg: None, bold: true },
        highlight_symbol: String::from(">"),
    }
}

#[test]
fn panes_are_filled_in_order() {
    let pane = |width: u16| area(0, 0, width, 1);
    assert_eq!(
        compose(&app(), &numbered_panes()),
        vec![
            Draw { area: pane(3), widget: label("Kagu", None, Alignment::Left) },
            Draw { area: pane(4), widget: label("Voice off", None, Alignment::Left) },
            Draw { area: pane(6), widget: label("12:34", None, Alignment::Right) },
            Draw { area: pane(11), widget: realms(false) },
            Draw { area: pane(14), widget: panel("Friends or friend_name", Title::Untitled) },
            Draw { area: pane(15), widget: panel("DM history here", Title::Untitled) },
            Draw { area: pane(12), widget: panel("Friends btn", Title::Untitled) },
            Draw {
                area: pane(13),
                widget: panel("DMs go here", Title::Text(String::from("Direct Messages")))
            },
        ]
    );
}

#[test]
fn voice_and_focus_show() {
    let mut shown = app();
    shown.is_voice_connected = true;
    shown.current_pane = Pane::RealmsPane;
    let draws = compose(&shown, &numbered_panes());
    assert_eq!(
        draws[1].widget,
        label("Voice connected", Some(Color::LightGreen), Alignment::Left)
    );
    assert_eq!(draws[3].widget, realms(true));
}

#[test]
fn no_realms_make_an_empty_list() {
    let mut shown = app();
    shown.realms.clear();
    let draws = compose(&shown, &numbered_panes());
    match &draws[3].widget {
        Widget::List { items, .. } => assert!(items.is_empty()),
        other => panic!("{:?}", other),
    }
}

#[test]
fn columns_are_exact() {
    for (x, width) in [(0, 80), (3, 45), (0, 200)] {
        let panes = lay_out(area(x, 2, width, 24));
        let columns = |pane: Area| (pane.x, pane.width);
        assert_eq!(columns(panes.logo), (x, 10));
        assert_eq!(columns(panes.voice), (x + 10, 20));
        assert_eq!(columns(panes.blank), (x + 30, width - 45));
        assert_eq!(columns(panes.time), (x + width - 15, 15));
        assert_eq!(columns(panes.realms), (x, 10));
        assert_eq!(columns(panes.direct_messages), (x + 10, 20));
        assert_eq!(columns(panes.conversation), (x + 30, width - 30));
    }
}

#[test]
fn panes_fill_the_screen_without_overlap() {
    for (width, height) in [(80, 24), (45, 4), (45, 100), (120, 40), (60, 60)] {
        let screen = area(1, 2, width, height);
        let panes = leaves(&lay_out(screen));
        for x in 0..width + 3 {
            for y in 0..height + 4 {
                let owners = panes.iter().filter(|pane| has_cell(pane, x, y)).count();
                let expected: usize = if has_cell(&screen, x, y) { 1 } else { 0 };
                assert_eq!(owners, expected);
            }
        }
    }
}

#[test]
fn rows_are_exact() {
    for (y, width, height) in [(0, 80, 24), (5, 45, 4), (0, 120, 40), (0, 60, 60), (7, 45, 100)] {
        let panes = lay_out(area(0, y, width, height));
        let rows = |pane: Area| (pane.y, pane.height);
        for pane in [panes.bar, panes.logo, panes.voice, panes.blank, panes.time] {
            assert_eq!(rows(pane), (y, 1));
        }
        for pane in [panes.body, panes.left, panes.middle, panes.right] {
            assert_eq!(rows(pane), (y + 1, height - 1));
        }
        for pane in [panes.above_realms, panes.friends, panes.conversation_title] {
            assert_eq!(rows(pane), (y + 1, 3));
        }
        for pane in [panes.realms, panes.direct_messages, panes.conversation] {
            assert_eq!(rows(pane), (y + 4, height - 4));
        }
    }
}

#[test]
fn layout_moves_with_the_screen() {
    let before = leaves(&lay_out(area(0, 0, 80, 24)));
    let after = leaves(&lay_out(area(9, 4, 80, 24)));
    for (one, other) in before.iter().zip(after.iter()) {
        assert_eq!(*other, area(one.x + 9, one.y + 4, one.width, one.height));
    }
}

#[test]
fn rendering_composes_a_layout() {
    let draws = render(&app(), area(0, 0, 80, 24));
    let contents = compose(&app(), &numbered_panes());
    assert_eq!(draws.len(), contents.len());
    for (draw, content) in draws.iter().zip(contents.iter()) {
        assert_eq!(draw.widget, content.widget);
    }
    let areas: Vec<Area> = draws.iter().map(|draw| draw.area).collect();
    assert_eq!(
        areas,
        vec![
            area(0, 0, 10, 1),
            area(10, 0, 20, 1),
            area(65, 0, 15, 1),
            area(0, 4, 10, 20),
            area(30, 1, 50, 3),
            area(30, 4, 50, 20),
            area(10, 1, 20, 3),
            area(10, 4, 20, 20),
        ]
    );
}

#[test]
fn far_edge_is_not_crossed() {
    let panes = lay_out(area(65500, 65530, 45, 20));
    assert_eq!(panes.bar, area(65500, 65530, 45, 1));
    assert_eq!(panes.logo, area(65500, 65530, 10, 1));
    assert_eq!(panes.voice, area(65510, 65530, 20, 1));
    assert_eq!(panes.blank, area(65530, 65530, 0, 1));
    assert_eq!(panes.time, area(65530, 65530, 5, 1));
    assert_eq!(panes.body, area(65500, 65531, 45, 4));
    assert_eq!(panes.realms, area(65500, 65534, 10, 1));
}
