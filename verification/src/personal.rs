//! The personal screen: a bar with the state of the client, the realms, the
//! direct messages and the conversation.

use crate::layout::{split, split_panes, Area, Direction};
use crate::message::RealmIdSize;
use vstd::prelude::*;

verus! {

/// The panes of the program that can have the focus.
#[derive(Debug, Clone, Copy, PartialEq, Eq, Structural)]
pub enum Pane {
    RealmsPane,
    /// Any of the panes that this screen does not show.
    OtherPane,
}

/// What the screen shows of the program.
#[derive(Debug)]
pub struct App {
    /// The realms, each with its name.
    pub realms: Vec<(RealmIdSize, String)>,
    pub current_pane: Pane,
    pub is_voice_connected: bool,
    /// The current time, in words.
    pub current_time: String,
}

/// The model of an `App`.
pub struct AppModel {
    pub realms: Seq<(RealmIdSize, Seq<char>)>,
    pub current_pane: Pane,
    pub is_voice_connected: bool,
    pub current_time: Seq<char>,
}

impl View for App {
    type V = AppModel;

    open spec fn view(&self) -> AppModel {
        AppModel {
            realms: self.realms@.map_values(|realm: (RealmIdSize, String)| (realm.0, realm.1@)),
            current_pane: self.current_pane,
            is_voice_connected: self.is_voice_connected,
            current_time: self.current_time@,
        }
    }
}

/// The colours that the screen uses.
#[derive(Debug, Clone, Copy, PartialEq, Eq, Structural)]
pub enum Color {
    LightGreen,
    LightBlue,
}

/// How text looks; without a colour it has that of the terminal.
#[derive(Debug, Clone, Copy, PartialEq, Eq, Structural)]
pub struct Style {
    pub fg: Option<Color>,
    pub bold: bool,
}

/// Where a line of text stands.
#[derive(Debug, Clone, Copy, PartialEq, Eq, Structural)]
pub enum Alignment {
    Left,
    Right,
}

/// The title of a frame.
#[derive(Debug, PartialEq, Eq)]
pub enum Title {
    Untitled,
    Text(String),
    /// The label of a pane, marked if the pane has the focus.
    Pane { pane: Pane, focused: bool },
}

/// The model of a `Title`.
pub enum TitleModel {
    Untitled,
    Text(Seq<char>),
    Pane { pane: Pane, focused: bool },
}

impl View for Title {
    type V = TitleModel;

    open spec fn view(&self) -> TitleModel {
        match *self {
            Title::Untitled => TitleModel::Untitled,
            Title::Text(text) => TitleModel::Text(text@),
            Title::Pane { pane, focused } => TitleModel::Pane { pane, focused },
        }
    }
}

/// What stands in a pane.
#[derive(Debug, PartialEq, Eq)]
pub enum Widget {
    /// Text without a frame.
    Label { text: String, style: Style, alignment: Alignment },
    /// Text in a frame.
    Panel { text: String, title: Title },
    /// A list in a frame, one of whose items can be selected.
    List {
        items: Vec<String>,
        item_style: Style,
        title: Title,
        highlight_style: Style,
        highlight_symbol: String,
    },
}

/// The model of a `Widget`.
pub enum WidgetModel {
    Label { text: Seq<char>, style: Style, alignment: Alignment },
    Panel { text: Seq<char>, title: TitleModel },
    List {
        items: Seq<Seq<char>>,
        item_style: Style,
        title: TitleModel,
        highlight_style: Style,
        highlight_symbol: Seq<char>,
    },
}

impl View for Widget {
    type V = WidgetModel;

    open spec fn view(&self) -> WidgetModel {
        match *self {
            Widget::Label { text, style, alignment } => WidgetModel::Label {
                text: text@,
                style,
                alignment,
            },
            Widget::Panel { text, title } => WidgetModel::Panel { text: text@, title: title@ },
            Widget::List { items, item_style, title, highlight_style, highlight_symbol } =>
                WidgetModel::List {
                items: items@.map_values(|item: String| item@),
                item_style,
                title: title@,
                highlight_style,
                highlight_symbol: highlight_symbol@,
            },
        }
    }
}

/// Something to draw, and where.
#[derive(Debug, PartialEq, Eq)]
pub struct Draw {
    pub area: Area,
    pub widget: Widget,
}

/// The model of a `Draw`.
pub struct DrawModel {
    pub area: Area,
    pub widget: WidgetModel,
}

impl View for Draw {
    type V = DrawModel;

    open spec fn view(&self) -> DrawModel {
        DrawModel { area: self.area, widget: self.widget@ }
    }
}

/// The models of a sequence of things to draw.
pub open spec fn draws_model(draws: Seq<Draw>) -> Seq<DrawModel> {
    draws.map_values(|draw: Draw| draw@)
}

/// The panes of the screen.
#[derive(Debug, Clone, Copy, PartialEq, Eq, Structural)]
pub struct Panes {
    /// The bar, and all that is below it.
    pub bar: Area,
    pub body: Area,
    /// The panes of the bar, from left to right.
    pub logo: Area,
    pub voice: Area,
    pub blank: Area,
    pub time: Area,
    /// The three columns of the body.
    pub left: Area,
    pub middle: Area,
    pub right: Area,
    /// The upper and the lower pane of each column.
    pub above_realms: Area,
    pub realms: Area,
    pub friends: Area,
    pub direct_messages: Area,
    pub conversation_title: Area,
    pub conversation: Area,
}

/// The limits of the bar and of the body. Both follow from the width.
pub open spec fn screen_limits(area: Area) -> Seq<u16> {
    seq![1u16, (area.width - 1) as u16]
}

/// The limits of the panes of the bar.
pub open spec fn bar_limits(area: Area) -> Seq<u16> {
    seq![10u16, 20u16, (area.width - 45) as u16, 15u16]
}

/// The limits of the columns of the body.
pub open spec fn body_limits(area: Area) -> Seq<u16> {
    seq![10u16, 20u16, (area.width - 30) as u16]
}

/// The limits of the two panes of the left column.
pub open spec fn left_limits(area: Area) -> Seq<u16> {
    seq![3u16, (area.height - 4) as u16]
}

/// The limits of the two panes of the middle and of the right column.
pub open spec fn column_limits(area: Area) -> Seq<u16> {
    seq![3u16, (area.height - 3) as u16]
}

/// The screen is large enough for every limit to be a number of cells.
pub open spec fn is_large_enough(area: Area) -> bool {
    area.width >= 45 && area.height >= 4
}

/// The panes of a screen that fills `area`.
pub open spec fn layout_of(area: Area) -> Panes {
    let screen = split_panes(Direction::Vertical, screen_limits(area), area);
    let bar = split_panes(Direction::Horizontal, bar_limits(area), screen[0]);
    let body = split_panes(Direction::Horizontal, body_limits(area), screen[1]);
    let left = split_panes(Direction::Vertical, left_limits(area), body[0]);
    let middle = split_panes(Direction::Vertical, column_limits(area), body[1]);
    let right = split_panes(Direction::Vertical, column_limits(area), body[2]);
    Panes {
        bar: screen[0],
        body: screen[1],
        logo: bar[0],
        voice: bar[1],
        blank: bar[2],
        time: bar[3],
        left: body[0],
        middle: body[1],
        right: body[2],
        above_realms: left[0],
        realms: left[1],
        friends: middle[0],
        direct_messages: middle[1],
        conversation_title: right[0],
        conversation: right[1],
    }
}

impl Panes {
    /// The panes that are not split any further.
    pub open spec fn leaves(self) -> Seq<Area> {
        seq![
            self.logo,
            self.voice,
            self.blank,
            self.time,
            self.above_realms,
            self.realms,
            self.friends,
            self.direct_messages,
            self.conversation_title,
            self.conversation,
        ]
    }
}

/// The look of plain text.
pub open spec fn plain() -> Style {
    Style { fg: None, bold: false }
}

/// The label that shows whether voice is connected.
pub open spec fn voice_label(is_voice_connected: bool) -> WidgetModel {
    if is_voice_connected {
        WidgetModel::Label {
            text: "Voice connected"@,
            style: Style { fg: Some(Color::LightGreen), bold: false },
            alignment: Alignment::Left,
        }
    } else {
        WidgetModel::Label { text: "Voice off"@, style: plain(), alignment: Alignment::Left }
    }
}

/// The list of realms by name. Its title is marked while it has the focus.
pub open spec fn realms_list(app: AppModel) -> WidgetModel {
    WidgetModel::List {
        items: app.realms.map_values(|realm: (RealmIdSize, Seq<char>)| realm.1),
        item_style: Style { fg: Some(Color::LightBlue), bold: false },
        title: TitleModel::Pane {
            pane: Pane::RealmsPane,
            focused: app.current_pane == Pane::RealmsPane,
        },
        highlight_style: Style { fg: None, bold: true },
        highlight_symbol: ">"@,
    }
}

/// What the screen shows of the program in given panes, in the order in which it
/// is drawn.
pub open spec fn scene(app: AppModel, panes: Panes) -> Seq<DrawModel> {
    seq![
        DrawModel {
            area: panes.logo,
            widget: WidgetModel::Label {
                text: "Kagu"@,
                style: plain(),
                alignment: Alignment::Left,
            },
        },
        DrawModel { area: panes.voice, widget: voice_label(app.is_voice_connected) },
        DrawModel {
            area: panes.time,
            widget: WidgetModel::Label {
                text: app.current_time,
                style: plain(),
                alignment: Alignment::Right,
            },
        },
        DrawModel { area: panes.realms, widget: realms_list(app) },
        DrawModel {
            area: panes.conversation_title,
            widget: WidgetModel::Panel {
                text: "Friends or friend_name"@,
                title: TitleModel::Untitled,
            },
        },
        DrawModel {
            area: panes.conversation,
            widget: WidgetModel::Panel { text: "DM history here"@, title: TitleModel::Untitled },
        },
        DrawModel {
            area: panes.friends,
            widget: WidgetModel::Panel { text: "Friends btn"@, title: TitleModel::Untitled },
        },
        DrawModel {
            area: panes.direct_messages,
            widget: WidgetModel::Panel {
                text: "DMs go here"@,
                title: TitleModel::Text("Direct Messages"@),
            },
        },
    ]
}

/// Divides a screen into its panes.
pub fn lay_out(area: Area) -> (panes: Panes)
    requires
        is_large_enough(area),
    ensures
        panes == layout_of(area),
{
    let screen_limits: Vec<u16> = vec![1, area.width - 1];
    let bar_limits: Vec<u16> = vec![10, 20, area.width - 10 - 20 - 15, 15];
    let body_limits: Vec<u16> = vec![10, 20, area.width - 10 - 20];
    let left_limits: Vec<u16> = vec![3, area.height - 4];
    let column_limits: Vec<u16> = vec![3, area.height - 3];

    let screen = split(Direction::Vertical, &screen_limits, area);
    let bar = split(Direction::Horizontal, &bar_limits, screen[0]);
    let body = split(Direction::Horizontal, &body_limits, screen[1]);
    let left = split(Direction::Vertical, &left_limits, body[0]);
    let middle = split(Direction::Vertical, &column_limits, body[1]);
    let right = split(Direction::Vertical, &column_limits, body[2]);

    proof {
        assert(screen_limits@ =~= self::screen_limits(area));
        assert(bar_limits@ =~= self::bar_limits(area));
        assert(body_limits@ =~= self::body_limits(area));
        assert(left_limits@ =~= self::left_limits(area));
        assert(column_limits@ =~= self::column_limits(area));
    }
    Panes {
        bar: screen[0],
        body: screen[1],
        logo: bar[0],
        voice: bar[1],
        blank: bar[2],
        time: bar[3],
        left: body[0],
        middle: body[1],
        right: body[2],
        above_realms: left[0],
        realms: left[1],
        friends: middle[0],
        direct_messages: middle[1],
        conversation_title: right[0],
        conversation: right[1],
    }
}

/// Text in a frame, without a title.
fn untitled_panel(area: Area, text: &str) -> (draw: Draw)
    ensures
        draw@ == (DrawModel {
            area,
            widget: WidgetModel::Panel { text: text@, title: TitleModel::Untitled },
        }),
{
    Draw { area, widget: Widget::Panel { text: String::from_str(text), title: Title::Untitled } }
}

/// Text in a colour, or in none, without a frame.
fn label(area: Area, text: &str, fg: Option<Color>, alignment: Alignment) -> (draw: Draw)
    ensures
        draw@ == (DrawModel {
            area,
            widget: WidgetModel::Label { text: text@, style: Style { fg, bold: false }, alignment },
        }),
{
    Draw {
        area,
        widget: Widget::Label {
            text: String::from_str(text),
            style: Style { fg, bold: false },
            alignment,
        },
    }
}

/// The names of the realms, in their order.
fn realm_names(realms: &Vec<(RealmIdSize, String)>) -> (names: Vec<String>)
    ensures
        names@.map_values(|name: String| name@) == realms@.map_values(
            |realm: (RealmIdSize, String)| realm.1@,
        ),
{
    let mut names: Vec<String> = Vec::new();
    let mut i: usize = 0;
    while i < realms.len()
        invariant
            i <= realms.len(),
            names.len() == i,
            forall|j: int| 0 <= j < i ==> (#[trigger] names[j])@ == realms[j].1@,
        decreases realms.len() - i,
    {
        names.push(realms[i].1.clone());
        i = i + 1;
    }
    assert(names@.map_values(|name: String| name@) =~= realms@.map_values(
        |realm: (RealmIdSize, String)| realm.1@,
    ));
    names
}

/// Fills given panes with what the screen shows of the program.
pub fn compose(app: &App, panes: &Panes) -> (draws: Vec<Draw>)
    ensures
        draws_model(draws@) == scene(app@, *panes),
{
    let realms = Widget::List {
        items: realm_names(&app.realms),
        item_style: Style { fg: Some(Color::LightBlue), bold: false },
        title: Title::Pane {
            pane: Pane::RealmsPane,
            focused: match app.current_pane {
                Pane::RealmsPane => true,
                Pane::OtherPane => false,
            },
        },
        highlight_style: Style { fg: None, bold: true },
        highlight_symbol: String::from_str(">"),
    };
    assert(app@.realms.map_values(|realm: (RealmIdSize, Seq<char>)| realm.1)
        =~= app.realms@.map_values(|realm: (RealmIdSize, String)| realm.1@));
    assert(realms@ == realms_list(app@));

    let mut draws: Vec<Draw> = Vec::new();
    draws.push(label(panes.logo, "Kagu", None, Alignment::Left));
    if app.is_voice_connected {
        draws.push(
            label(panes.voice, "Voice connected", Some(Color::LightGreen), Alignment::Left),
        );
    } else {
        draws.push(label(panes.voice, "Voice off", None, Alignment::Left));
    }
    draws.push(label(panes.time, app.current_time.as_str(), None, Alignment::Right));
    draws.push(Draw { area: panes.realms, widget: realms });
    draws.push(untitled_panel(panes.conversation_title, "Friends or friend_name"));
    draws.push(untitled_panel(panes.conversation, "DM history here"));
    draws.push(untitled_panel(panes.friends, "Friends btn"));
    draws.push(
        Draw {
            area: panes.direct_messages,
            widget: Widget::Panel {
                text: String::from_str("DMs go here"),
                title: Title::Text(String::from_str("Direct Messages")),
            },
        },
    );
    assert(draws_model(draws@) =~= scene(app@, *panes));
    draws
}

/// What is to be drawn on a screen that fills `area`, in order.
pub fn render(app: &App, area: Area) -> (draws: Vec<Draw>)
    requires
        is_large_enough(area),
    ensures
        draws_model(draws@) == scene(app@, layout_of(area)),
{
    let panes = lay_out(area);
    compose(app, &panes)
}

} // verus!
