//! What holds of the panes of every screen.

use crate::layout::{split_panes, total, Area, Direction};
use crate::message::RealmIdSize;
use crate::personal::{
    column_limits, is_large_enough, layout_of, left_limits, scene, screen_limits, Alignment,
    AppModel, Color, DrawModel, Pane, Panes, Style, TitleModel, WidgetModel,
};
use vstd::prelude::*;

verus! {

/// The panes stand one below the other and fill the area, down to the last row that
/// can be counted.
pub open spec fn fills_down(area: Area, upper: Area, lower: Area) -> bool {
    &&& upper.x == area.x && upper.width == area.width
    &&& lower.x == area.x && lower.width == area.width
    &&& upper.y == area.y
    &&& lower.y == upper.y + upper.height
    &&& lower.y + lower.height == area.end(Direction::Vertical)
}

/// The pane has the rows of the area.
pub open spec fn has_rows_of(area: Area, pane: Area) -> bool {
    pane.y == area.y && pane.height == area.height
}

/// The panes of a screen stand side by side: the bar above the body, and in each the
/// panes from one side to the other, up to the last column and row that can be
/// counted.
pub open spec fn panes_fit(panes: Panes, area: Area) -> bool {
    &&& fills_down(area, panes.bar, panes.body)
    &&& has_rows_of(panes.bar, panes.logo) && has_rows_of(panes.bar, panes.voice)
    &&& has_rows_of(panes.bar, panes.blank) && has_rows_of(panes.bar, panes.time)
    &&& panes.logo.x == area.x
    &&& panes.voice.x == panes.logo.x + panes.logo.width
    &&& panes.blank.x == panes.voice.x + panes.voice.width
    &&& panes.time.x == panes.blank.x + panes.blank.width
    &&& panes.time.x + panes.time.width == area.end(Direction::Horizontal)
    &&& has_rows_of(panes.body, panes.left) && has_rows_of(panes.body, panes.middle)
    &&& has_rows_of(panes.body, panes.right)
    &&& panes.left.x == area.x
    &&& panes.middle.x == panes.left.x + panes.left.width
    &&& panes.right.x == panes.middle.x + panes.middle.width
    &&& panes.right.x + panes.right.width == area.end(Direction::Horizontal)
    &&& fills_down(panes.left, panes.above_realms, panes.realms)
    &&& fills_down(panes.middle, panes.friends, panes.direct_messages)
    &&& fills_down(panes.right, panes.conversation_title, panes.conversation)
}

// The upper of two panes has its limit, or all there is; the lower has the rest.
proof fn lemma_split_down(limits: Seq<u16>, area: Area)
    requires
        limits.len() == 2,
    ensures
        ({
            let panes = split_panes(Direction::Vertical, limits, area);
            let extent = area.end(Direction::Vertical) - area.y;
            &&& fills_down(area, panes[0], panes[1])
            &&& panes[0].height == if limits[0] < extent { limits[0] as int } else { extent }
        }),
{
    reveal_with_fuel(total, 2);
}

/// The panes of the screen stand side by side, whatever its size.
pub proof fn law_panes_fit(area: Area)
    ensures
        panes_fit(layout_of(area), area),
{
    reveal_with_fuel(total, 4);
    let panes = layout_of(area);
    lemma_split_down(screen_limits(area), area);
    lemma_split_down(left_limits(area), panes.left);
    lemma_split_down(column_limits(area), panes.middle);
    lemma_split_down(column_limits(area), panes.right);
}

/// Every pane has exactly the columns and rows that are meant for it, on a screen
/// whose last column and row can be counted: the bar has one row, the head of each
/// column three, and the columns are as wide below the bar as they are in it.
pub proof fn law_panes_are_exact(area: Area)
    requires
        is_large_enough(area),
        area.x + area.width <= u16::MAX,
        area.y + area.height <= u16::MAX,
    ensures
        ({
            let Area { x, y, width, height } = area;
            let pane = |dx: int, dy: int, w: int, h: int|
                Area { x: (x + dx) as u16, y: (y + dy) as u16, width: w as u16, height: h as u16 };
            layout_of(area) == (Panes {
                bar: pane(0, 0, width as int, 1),
                body: pane(0, 1, width as int, height - 1),
                logo: pane(0, 0, 10, 1),
                voice: pane(10, 0, 20, 1),
                blank: pane(30, 0, width - 45, 1),
                time: pane(width - 15, 0, 15, 1),
                left: pane(0, 1, 10, height - 1),
                middle: pane(10, 1, 20, height - 1),
                right: pane(30, 1, width - 30, height - 1),
                above_realms: pane(0, 1, 10, 3),
                realms: pane(0, 4, 10, height - 4),
                friends: pane(10, 1, 20, 3),
                direct_messages: pane(10, 4, 20, height - 4),
                conversation_title: pane(30, 1, width - 30, 3),
                conversation: pane(30, 4, width - 30, height - 4),
            })
        }),
{
    law_panes_fit(area);
    let panes = layout_of(area);
    lemma_split_down(screen_limits(area), area);
    assert(panes.bar.height == 1);
    assert(panes.body.height == area.height - 1);
    lemma_columns_are_exact(area);
    lemma_split_down(left_limits(area), panes.left);
    lemma_split_down(column_limits(area), panes.middle);
    lemma_split_down(column_limits(area), panes.right);
}

proof fn lemma_columns_are_exact(area: Area)
    requires
        is_large_enough(area),
        area.x + area.width <= u16::MAX,
    ensures
        layout_of(area).logo.width == 10,
        layout_of(area).voice.width == 20,
        layout_of(area).blank.width == area.width - 45,
        layout_of(area).time.width == 15,
        layout_of(area).left.width == 10,
        layout_of(area).middle.width == 20,
        layout_of(area).right.width == area.width - 30,
{
    reveal_with_fuel(total, 4);
}

/// A screen can be laid out exactly when it has forty-five columns and four rows.
pub proof fn law_small_screens_are_left_out(area: Area)
    ensures
        is_large_enough(area) <==> area.width >= 45 && area.height >= 4,
{
}

/// Where the screen reaches beyond the last column or row that can be counted, the
/// panes are cut off there: each ends where it would otherwise end, or at the last
/// column or row if that comes first.
pub proof fn law_panes_are_cut_off_at_the_edge(area: Area)
    requires
        area.width >= 45,
        area.height >= 4,
    ensures
        ({
            let panes = layout_of(area);
            let right = if area.x + area.width < 65535 { area.x + area.width } else { 65535int };
            let bottom = if area.y + area.height < 65535 { area.y + area.height } else { 65535int };
            let column = |c: int| if area.x + c < right { area.x + c } else { right };
            let row = |r: int| if area.y + r < bottom { area.y + r } else { bottom };
            let is_pane = |pane: Area, left: int, top: int, end: int, below: int|
                {
                    &&& pane.x == left && pane.x + pane.width == end
                    &&& pane.y == top && pane.y + pane.height == below
                };
            &&& panes.bar.x == area.x && panes.bar.width == area.width
            &&& panes.bar.y == area.y && panes.bar.y + panes.bar.height == row(1)
            &&& panes.body.x == area.x && panes.body.width == area.width
            &&& panes.body.y == row(1) && panes.body.y + panes.body.height == bottom
            &&& is_pane(panes.logo, area.x as int, area.y as int, column(10), row(1))
            &&& is_pane(panes.voice, column(10), area.y as int, column(30), row(1))
            &&& is_pane(panes.blank, column(30), area.y as int, column(area.width - 15), row(1))
            &&& is_pane(panes.time, column(area.width - 15), area.y as int, right, row(1))
            &&& is_pane(panes.left, area.x as int, row(1), column(10), bottom)
            &&& is_pane(panes.middle, column(10), row(1), column(30), bottom)
            &&& is_pane(panes.right, column(30), row(1), right, bottom)
            &&& is_pane(panes.above_realms, area.x as int, row(1), column(10), row(4))
            &&& is_pane(panes.realms, area.x as int, row(4), column(10), bottom)
            &&& is_pane(panes.friends, column(10), row(1), column(30), row(4))
            &&& is_pane(panes.direct_messages, column(10), row(4), column(30), bottom)
            &&& is_pane(panes.conversation_title, column(30), row(1), right, row(4))
            &&& is_pane(panes.conversation, column(30), row(4), right, bottom)
        }),
{
    reveal_with_fuel(total, 4);
    law_panes_fit(area);
    let panes = layout_of(area);
    lemma_split_down(screen_limits(area), area);
    lemma_split_down(left_limits(area), panes.left);
    lemma_split_down(column_limits(area), panes.middle);
    lemma_split_down(column_limits(area), panes.right);
}

/// Screens of one size have the same panes, moved as the screen is.
pub proof fn law_layout_moves_with_the_screen(area: Area, moved: Area, i: int)
    requires
        is_large_enough(area),
        area.width == moved.width,
        area.height == moved.height,
        area.x + area.width <= u16::MAX,
        area.y + area.height <= u16::MAX,
        moved.x + moved.width <= u16::MAX,
        moved.y + moved.height <= u16::MAX,
        0 <= i < layout_of(area).leaves().len(),
    ensures
        ({
            let before = layout_of(area).leaves()[i];
            let after = layout_of(moved).leaves()[i];
            &&& after.x - moved.x == before.x - area.x
            &&& after.y - moved.y == before.y - area.y
            &&& after.width == before.width
            &&& after.height == before.height
        }),
{
    law_panes_are_exact(area);
    law_panes_are_exact(moved);
}

/// No pane reaches beyond the screen.
pub proof fn law_panes_are_inside(area: Area)
    ensures
        forall|i: int|
            0 <= i < layout_of(area).leaves().len() ==> (
            #[trigger] layout_of(area).leaves()[i]).is_inside(area),
{
    law_panes_fit(area);
}

/// No two panes overlap.
pub proof fn law_panes_are_apart(area: Area)
    ensures
        forall|i: int, j: int|
            0 <= i < j < layout_of(area).leaves().len() ==> (
            #[trigger] layout_of(area).leaves()[i]).is_apart_from(
                #[trigger] layout_of(area).leaves()[j],
            ),
{
    law_panes_fit(area);
}

/// Every cell of the screen is part of a pane, on a screen whose last column and
/// row can be counted.
pub proof fn law_panes_fill_the_screen(area: Area, column: int, row: int)
    requires
        area.x + area.width <= u16::MAX,
        area.y + area.height <= u16::MAX,
        area.has_cell(column, row),
    ensures
        exists|i: int|
            0 <= i < layout_of(area).leaves().len() && (
            #[trigger] layout_of(area).leaves()[i]).has_cell(column, row),
{
    law_panes_fit(area);
    let panes = layout_of(area);
    let leaves = panes.leaves();
    if panes.bar.has_cell(column, row) {
        assert(leaves[0].has_cell(column, row) || leaves[1].has_cell(column, row)
            || leaves[2].has_cell(column, row) || leaves[3].has_cell(column, row));
    } else if panes.left.has_cell(column, row) {
        assert(leaves[4].has_cell(column, row) || leaves[5].has_cell(column, row));
    } else if panes.middle.has_cell(column, row) {
        assert(leaves[6].has_cell(column, row) || leaves[7].has_cell(column, row));
    } else {
        assert(panes.right.has_cell(column, row));
        assert(leaves[8].has_cell(column, row) || leaves[9].has_cell(column, row));
    }
}

/// What is drawn stays on the screen, and nothing is drawn over anything else.
pub proof fn law_nothing_is_drawn_over(app: AppModel, area: Area)
    ensures
        ({
            let drawn = scene(app, layout_of(area));
            &&& forall|i: int|
                0 <= i < drawn.len() ==> (#[trigger] drawn[i]).area.is_inside(area)
            &&& forall|i: int, j: int|
                0 <= i < j < drawn.len() ==> (#[trigger] drawn[i]).area.is_apart_from(
                    (#[trigger] drawn[j]).area,
                )
        }),
{
    law_panes_fit(area);
}

/// Eight things are drawn, each in a pane of its own.
pub proof fn law_every_pane_is_drawn_once(app: AppModel, panes: Panes)
    ensures
        scene(app, panes).map_values(|draw: DrawModel| draw.area) == seq![
            panes.logo,
            panes.voice,
            panes.time,
            panes.realms,
            panes.conversation_title,
            panes.conversation,
            panes.friends,
            panes.direct_messages,
        ],
{
    assert(scene(app, panes).map_values(|draw: DrawModel| draw.area) =~= seq![
        panes.logo,
        panes.voice,
        panes.time,
        panes.realms,
        panes.conversation_title,
        panes.conversation,
        panes.friends,
        panes.direct_messages,
    ]);
}

/// The bar shows the logo on the left and the time on the right, both in plain text,
/// whatever else the program holds.
pub proof fn law_bar_shows_logo_and_time(app: AppModel, panes: Panes)
    ensures
        scene(app, panes)[0] == (DrawModel {
            area: panes.logo,
            widget: WidgetModel::Label {
                text: "Kagu"@,
                style: Style { fg: None, bold: false },
                alignment: Alignment::Left,
            },
        }),
        scene(app, panes)[2] == (DrawModel {
            area: panes.time,
            widget: WidgetModel::Label {
                text: app.current_time,
                style: Style { fg: None, bold: false },
                alignment: Alignment::Right,
            },
        }),
{
}

/// The voice pane says "Voice connected", in light green, exactly while voice is
/// connected, and "Voice off" in plain text otherwise.
pub proof fn law_voice_pane_shows_the_voice_connection(app: AppModel, panes: Panes)
    ensures
        scene(app, panes)[1].area == panes.voice,
        app.is_voice_connected ==> scene(app, panes)[1].widget == (WidgetModel::Label {
            text: "Voice connected"@,
            style: Style { fg: Some(Color::LightGreen), bold: false },
            alignment: Alignment::Left,
        }),
        !app.is_voice_connected ==> scene(app, panes)[1].widget == (WidgetModel::Label {
            text: "Voice off"@,
            style: Style { fg: None, bold: false },
            alignment: Alignment::Left,
        }),
{
}

/// The realms stand in their pane by name, each in its place and in light blue, in a
/// frame whose title is marked exactly while the pane has the focus. The selected one
/// is bold, behind a `>`.
pub proof fn law_realms_pane_lists_the_realms(app: AppModel, panes: Panes)
    ensures
        ({
            let draw = scene(app, panes)[3];
            &&& draw.area == panes.realms
            &&& draw.widget is List
            &&& draw.widget->items.len() == app.realms.len()
            &&& forall|i: int|
                0 <= i < app.realms.len() ==> (#[trigger] draw.widget->items[i])
                    == app.realms[i].1
            &&& draw.widget->item_style == (Style { fg: Some(Color::LightBlue), bold: false })
            &&& app.current_pane is RealmsPane ==> draw.widget->List_title == (TitleModel::Pane {
                pane: Pane::RealmsPane,
                focused: true,
            })
            &&& app.current_pane is OtherPane ==> draw.widget->List_title == (TitleModel::Pane {
                pane: Pane::RealmsPane,
                focused: false,
            })
            &&& draw.widget->highlight_style == (Style { fg: None, bold: true })
            &&& draw.widget->highlight_symbol == ">"@
        }),
{
}

/// The panes of the friends, of the direct messages and of the conversation hold their
/// framed texts, whatever the program holds.
pub proof fn law_other_panes_hold_their_texts(app: AppModel, panes: Panes)
    ensures
        scene(app, panes)[4] == (DrawModel {
            area: panes.conversation_title,
            widget: WidgetModel::Panel {
                text: "Friends or friend_name"@,
                title: TitleModel::Untitled,
            },
        }),
        scene(app, panes)[5] == (DrawModel {
            area: panes.conversation,
            widget: WidgetModel::Panel { text: "DM history here"@, title: TitleModel::Untitled },
        }),
        scene(app, panes)[6] == (DrawModel {
            area: panes.friends,
            widget: WidgetModel::Panel { text: "Friends btn"@, title: TitleModel::Untitled },
        }),
        scene(app, panes)[7] == (DrawModel {
            area: panes.direct_messages,
            widget: WidgetModel::Panel {
                text: "DMs go here"@,
                title: TitleModel::Text("Direct Messages"@),
            },
        }),
{
}

/// Each part of the program shows in one place only: the focus in the realms pane, the
/// voice connection in the voice pane, the time in the time pane and the realms in
/// the realms pane. What is drawn elsewhere does not change with it.
pub proof fn law_each_part_shows_in_one_place(
    app: AppModel,
    panes: Panes,
    pane: Pane,
    connected: bool,
    time: Seq<char>,
    realms: Seq<(RealmIdSize, Seq<char>)>,
    i: int,
)
    requires
        0 <= i < scene(app, panes).len(),
    ensures
        i != 3 ==> scene(AppModel { current_pane: pane, ..app }, panes)[i] == scene(app, panes)[i],
        i != 1 ==> scene(AppModel { is_voice_connected: connected, ..app }, panes)[i] == scene(
            app,
            panes,
        )[i],
        i != 2 ==> scene(AppModel { current_time: time, ..app }, panes)[i] == scene(app, panes)[i],
        i != 3 ==> scene(AppModel { realms, ..app }, panes)[i] == scene(app, panes)[i],
{
}

/// The title of the realms is marked exactly while their pane has the focus.
pub proof fn law_focus_is_marked(app: AppModel, panes: Panes)
    ensures
        scene(app, panes)[3].widget is List,
        scene(app, panes)[3].widget->List_title == (TitleModel::Pane {
            pane: Pane::RealmsPane,
            focused: app.current_pane == Pane::RealmsPane,
        }),
        scene(app, panes)[3].widget->items.len() == app.realms.len(),
{
}

} // verus!
