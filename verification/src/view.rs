//! The widget tree that presents a document, as plain data.
//!
//! A layout is a background colour and a column of widgets. Captions are kept
//! in spans, so that a coordinate can travel as a number and be printed by the
//! front end in its own number format.

use crate::caption::{
    joined, lemma_plain_text, lemma_push_number, lemma_push_text, numbers_of, plain, plain_caption,
    Caption, Span, SpanView,
};
use crate::message::Message;
use crate::model::{
    world_views, Axis, Coordinate, EntityEntry, Model, ModelView, Selection,
};
use crate::text::{decimal, render_decimal};
use vstd::prelude::*;

verus! {

/// Width and height of a widget, in pixels.
#[derive(Clone, Copy, Debug, PartialEq, Eq, Structural)]
pub struct Size {
    pub width: u32,
    pub height: u32,
}

/// A colour by its red, green and blue parts.
#[derive(Clone, Copy, Debug, PartialEq, Eq, Structural)]
pub struct Color {
    pub red: u8,
    pub green: u8,
    pub blue: u8,
}

/// One widget of a layout.
#[derive(Clone, Debug, PartialEq, Eq)]
pub enum Widget {
    /// A line of text.
    Text { caption: Caption },
    /// A text widget that is given no text, used as vertical padding.
    Padding,
    /// A button. `size` is `None` where the toolkit's own size is kept.
    Button { caption: Caption, size: Option<Size>, action: Message },
}

/// A [`Widget`] as contracts see it.
pub enum WidgetView {
    Text { caption: Seq<SpanView> },
    Padding,
    Button { caption: Seq<SpanView>, size: Option<Size>, action: Message },
}

impl View for Widget {
    type V = WidgetView;

    open spec fn view(&self) -> WidgetView {
        match self {
            Widget::Text { caption } => WidgetView::Text { caption: caption@ },
            Widget::Padding => WidgetView::Padding,
            Widget::Button { caption, size, action } => WidgetView::Button {
                caption: caption@,
                size: *size,
                action: *action,
            },
        }
    }
}

/// The views of a list of widgets, in order.
pub open spec fn widget_views(widgets: Seq<Widget>) -> Seq<WidgetView> {
    widgets.map_values(|widget: Widget| widget@)
}

/// The widget tree of one frame: a background and a column of widgets, top
/// to bottom.
#[derive(Clone, Debug, PartialEq, Eq)]
pub struct Layout {
    pub background: Color,
    pub widgets: Vec<Widget>,
}

/// A [`Layout`] as contracts see it.
pub struct LayoutView {
    pub background: Color,
    pub widgets: Seq<WidgetView>,
}

impl View for Layout {
    type V = LayoutView;

    open spec fn view(&self) -> LayoutView {
        LayoutView { background: self.background, widgets: widget_views(self.widgets@) }
    }
}

/// The background of every screen of the editor.
pub open spec fn backdrop() -> Color {
    Color { red: 21, green: 23, blue: 24 }
}

/// The size of the button that stands for an entity.
pub open spec fn entity_button_size() -> Size {
    Size { width: 180, height: 20 }
}

/// The heading of the world at `world`: `== World #` and the position, then
/// ` ==`.
pub open spec fn world_caption(world: nat) -> Seq<SpanView> {
    plain("== World #"@ + decimal(world) + " =="@)
}

/// The caption of the button for the entity at `index` of its world:
/// `Entity #`, the position, and the three coordinates between braces.
pub open spec fn entity_caption(index: nat, entity: EntityEntry) -> Seq<SpanView> {
    seq![
        SpanView::Text("Entity #"@ + decimal(index) + " - {x: "@),
        SpanView::Number(entity.x),
        SpanView::Text(", y: "@),
        SpanView::Number(entity.y),
        SpanView::Text(", z: "@),
        SpanView::Number(entity.z),
        SpanView::Text("}"@),
    ]
}

/// The line that shows where the entity being edited stands.
pub open spec fn position_caption(entity: EntityEntry) -> Seq<SpanView> {
    seq![
        SpanView::Text("X: "@),
        SpanView::Number(entity.x),
        SpanView::Text(" Y: "@),
        SpanView::Number(entity.y),
        SpanView::Text(" Z: "@),
        SpanView::Number(entity.z),
    ]
}

/// The button for the entity at `index` of the world at `world`. Pressing it
/// takes that entity up for editing.
pub open spec fn entity_widget(world: int, index: int, entity: EntityEntry) -> WidgetView {
    WidgetView::Button {
        caption: entity_caption(index as nat, entity),
        size: Some(entity_button_size()),
        action: Message::SelectEntity { world: world as usize, entity: index as usize },
    }
}

/// The button that appends an entity to the world at `world`.
pub open spec fn add_entity_widget(world: int) -> WidgetView {
    WidgetView::Button {
        caption: plain("Add Entity"@),
        size: None,
        action: Message::AddEntity { world: world as usize },
    }
}

/// The button that appends a world.
pub open spec fn add_world_widget() -> WidgetView {
    WidgetView::Button { caption: plain("Add World"@), size: None, action: Message::AddWorld }
}

/// A button labelled `text` that moves the entity at `at` one unit along
/// `axis`.
pub open spec fn adder_widget(text: Seq<char>, at: Selection, axis: Axis, up: bool) -> WidgetView {
    WidgetView::Button {
        caption: plain(text),
        size: None,
        action: Message::Adjust { at, axis, up },
    }
}

/// The widgets of one world: its heading, a button for each entity in order,
/// the button that adds an entity, and a line of padding.
pub open spec fn world_section(world: int, entities: Seq<EntityEntry>) -> Seq<WidgetView> {
    seq![WidgetView::Text { caption: world_caption(world as nat) }] + Seq::new(
        entities.len(),
        |index: int| entity_widget(world, index, entities[index]),
    ) + seq![add_entity_widget(world), WidgetView::Padding]
}

/// The sections of the first `count` worlds, one after the other.
pub open spec fn world_sections(worlds: Seq<Seq<EntityEntry>>, count: int) -> Seq<WidgetView>
    decreases count,
{
    if count <= 0 {
        Seq::empty()
    } else {
        world_sections(worlds, count - 1) + world_section(count - 1, worlds[count - 1])
    }
}

/// The editing section: padding and a heading, and, when an entity is being
/// edited, its position and a pair of buttons for each axis. Each of these
/// buttons names the entity that is being edited when the section is made.
pub open spec fn editor_section(model: ModelView) -> Seq<WidgetView> {
    let head = seq![
        WidgetView::Padding,
        WidgetView::Text { caption: plain("=== Edit Entity ==="@) },
    ];
    match model.current_entity() {
        Some(entity) => {
            let at = model.current->0;
            head + seq![
                WidgetView::Text { caption: position_caption(entity) },
                adder_widget("X + 1"@, at, Axis::X, true),
                adder_widget("X - 1"@, at, Axis::X, false),
                adder_widget("Y + 1"@, at, Axis::Y, true),
                adder_widget("Y - 1"@, at, Axis::Y, false),
                adder_widget("Z + 1"@, at, Axis::Z, true),
                adder_widget("Z - 1"@, at, Axis::Z, false),
            ]
        },
        None => head,
    }
}

/// The widgets that present a document: every world's section, the button
/// that adds a world, and the editing section.
pub open spec fn view_widgets(model: ModelView) -> Seq<WidgetView> {
    world_sections(model.worlds, model.worlds.len() as int) + seq![add_world_widget()]
        + editor_section(model)
}

/// The layout that presents a document.
pub open spec fn layout_of(model: ModelView) -> LayoutView {
    LayoutView { background: backdrop(), widgets: view_widgets(model) }
}

/// The layout of the error screen: the message, and an `Ok` button that
/// closes the editor.
pub open spec fn error_layout(text: Seq<char>) -> LayoutView {
    LayoutView {
        background: backdrop(),
        widgets: seq![
            WidgetView::Text { caption: plain(text) },
            WidgetView::Button { caption: plain("Ok"@), size: None, action: Message::Cancel },
        ],
    }
}

/// The heading of a world reads `== World #N ==`, where `N` is the numeral
/// of its position.
pub proof fn lemma_world_caption_text(world: nat)
    ensures
        numbers_of(world_caption(world)) == Seq::<Coordinate>::empty(),
        joined(world_caption(world), Seq::empty()) == "== World #"@ + decimal(world) + " =="@,
{
    lemma_plain_text("== World #"@ + decimal(world) + " =="@, Seq::empty());
}

/// The button of an entity lists its three coordinates, and with `x`, `y`
/// and `z` printed for them it reads `Entity #N - {x: x, y: y, z: z}`, where
/// `N` is the numeral of the entity's position.
pub proof fn lemma_entity_caption_text(
    index: nat,
    entity: EntityEntry,
    x: Seq<char>,
    y: Seq<char>,
    z: Seq<char>,
)
    ensures
        numbers_of(entity_caption(index, entity)) == seq![entity.x, entity.y, entity.z],
        joined(entity_caption(index, entity), seq![x, y, z]) == "Entity #"@ + decimal(index)
            + " - {x: "@ + x + ", y: "@ + y + ", z: "@ + z + "}"@,
{
    let printed = seq![x, y, z];
    let lead = "Entity #"@ + decimal(index) + " - {x: "@;
    let s0 = Seq::<SpanView>::empty();
    let s1 = s0.push(SpanView::Text(lead));
    let s2 = s1.push(SpanView::Number(entity.x));
    let s3 = s2.push(SpanView::Text(", y: "@));
    let s4 = s3.push(SpanView::Number(entity.y));
    let s5 = s4.push(SpanView::Text(", z: "@));
    let s6 = s5.push(SpanView::Number(entity.z));
    let s7 = s6.push(SpanView::Text("}"@));
    lemma_push_text(s0, lead, printed);
    lemma_push_number(s1, entity.x, printed);
    lemma_push_text(s2, ", y: "@, printed);
    lemma_push_number(s3, entity.y, printed);
    lemma_push_text(s4, ", z: "@, printed);
    lemma_push_number(s5, entity.z, printed);
    lemma_push_text(s6, "}"@, printed);
    assert(entity_caption(index, entity) =~= s7);
    assert(numbers_of(s7) =~= seq![entity.x, entity.y, entity.z]);
    assert(joined(s7, printed) =~= lead + x + ", y: "@ + y + ", z: "@ + z + "}"@);
}

/// The line above the adders lists the three coordinates of the entity being
/// edited, and with `x`, `y` and `z` printed for them it reads
/// `X: x Y: y Z: z`.
pub proof fn lemma_position_caption_text(
    entity: EntityEntry,
    x: Seq<char>,
    y: Seq<char>,
    z: Seq<char>,
)
    ensures
        numbers_of(position_caption(entity)) == seq![entity.x, entity.y, entity.z],
        joined(position_caption(entity), seq![x, y, z]) == "X: "@ + x + " Y: "@ + y + " Z: "@ + z,
{
    let printed = seq![x, y, z];
    let s0 = Seq::<SpanView>::empty();
    let s1 = s0.push(SpanView::Text("X: "@));
    let s2 = s1.push(SpanView::Number(entity.x));
    let s3 = s2.push(SpanView::Text(" Y: "@));
    let s4 = s3.push(SpanView::Number(entity.y));
    let s5 = s4.push(SpanView::Text(" Z: "@));
    let s6 = s5.push(SpanView::Number(entity.z));
    lemma_push_text(s0, "X: "@, printed);
    lemma_push_number(s1, entity.x, printed);
    lemma_push_text(s2, " Y: "@, printed);
    lemma_push_number(s3, entity.y, printed);
    lemma_push_text(s4, " Z: "@, printed);
    lemma_push_number(s5, entity.z, printed);
    assert(position_caption(entity) =~= s6);
    assert(numbers_of(s6) =~= seq![entity.x, entity.y, entity.z]);
    assert(joined(s6, printed) =~= "X: "@ + x + " Y: "@ + y + " Z: "@ + z);
}

/// A section has three widgets besides one button for each entity.
pub proof fn lemma_world_section_len(world: int, entities: Seq<EntityEntry>)
    ensures
        world_section(world, entities).len() == entities.len() + 3,
{
}

/// The layout of a document holds three widgets for every world, one for
/// every entity, three more below the worlds, and seven more while an entity
/// is being edited.
pub proof fn lemma_widget_count(model: ModelView)
    ensures
        view_widgets(model).len() == 3 * model.worlds.len() + model.entities_before(
            model.worlds.len() as int,
        ) + 3 + if model.current_entity() is Some {
            7int
        } else {
            0int
        },
{
    lemma_world_sections_len(model, model.worlds.len() as int);
}

/// The sections of the first `count` worlds hold three widgets for each of
/// these worlds and one for each of their entities.
pub proof fn lemma_world_sections_len(model: ModelView, count: int)
    requires
        0 <= count <= model.worlds.len(),
    ensures
        world_sections(model.worlds, count).len() == 3 * count + model.entities_before(count),
    decreases count,
{
    if count > 0 {
        lemma_world_sections_len(model, count - 1);
        lemma_world_section_len(count - 1, model.worlds[count - 1]);
    }
}

fn with_widget(widgets: Vec<Widget>, widget: Widget) -> (longer: Vec<Widget>)
    ensures
        widget_views(longer@) == widget_views(widgets@).push(widget@),
{
    let mut longer = widgets;
    longer.push(widget);
    assert(widget_views(longer@) =~= widget_views(widgets@).push(widget@));
    longer
}

fn world_heading(world: usize) -> (widget: Widget)
    ensures
        widget@ == (WidgetView::Text { caption: world_caption(world as nat) }),
{
    let mut text = String::from_str("== World #");
    text.append(render_decimal(world).as_str());
    text.append(" ==");
    let mut spans: Vec<Span> = Vec::new();
    spans.push(Span::Text(text));
    let caption = Caption { spans };
    assert(caption@ =~= world_caption(world as nat));
    Widget::Text { caption }
}

fn entity_button(world: usize, index: usize, entity: &EntityEntry) -> (widget: Widget)
    ensures
        widget@ == entity_widget(world as int, index as int, *entity),
{
    let mut lead = String::from_str("Entity #");
    lead.append(render_decimal(index).as_str());
    lead.append(" - {x: ");
    let mut spans: Vec<Span> = Vec::new();
    spans.push(Span::Text(lead));
    spans.push(Span::Number(entity.x));
    spans.push(Span::Text(String::from_str(", y: ")));
    spans.push(Span::Number(entity.y));
    spans.push(Span::Text(String::from_str(", z: ")));
    spans.push(Span::Number(entity.z));
    spans.push(Span::Text(String::from_str("}")));
    let caption = Caption { spans };
    assert(caption@ =~= entity_caption(index as nat, *entity));
    Widget::Button {
        caption,
        size: Some(Size { width: 180, height: 20 }),
        action: Message::SelectEntity { world, entity: index },
    }
}

fn position_text(entity: &EntityEntry) -> (widget: Widget)
    ensures
        widget@ == (WidgetView::Text { caption: position_caption(*entity) }),
{
    let mut spans: Vec<Span> = Vec::new();
    spans.push(Span::Text(String::from_str("X: ")));
    spans.push(Span::Number(entity.x));
    spans.push(Span::Text(String::from_str(" Y: ")));
    spans.push(Span::Number(entity.y));
    spans.push(Span::Text(String::from_str(" Z: ")));
    spans.push(Span::Number(entity.z));
    let caption = Caption { spans };
    assert(caption@ =~= position_caption(*entity));
    Widget::Text { caption }
}

/// Builds the layout that presents `model`.
pub fn generate_view(model: &Model) -> (layout: Layout)
    ensures
        layout@ == layout_of(model@),
{
    let worlds = model.worlds();
    let mut widgets: Vec<Widget> = Vec::new();
    assert(widget_views(widgets@) =~= world_sections(model@.worlds, 0));

    // Show all of the worlds
    let mut wnum: usize = 0;
    while wnum < worlds.len()
        invariant
            wnum <= worlds.len(),
            world_views(worlds@) == model@.worlds,
            widget_views(widgets@) == world_sections(model@.worlds, wnum as int),
        decreases worlds.len() - wnum,
    {
        let world = &worlds[wnum];
        let ghost before = widget_views(widgets@);
        let ghost heading = WidgetView::Text { caption: world_caption(wnum as nat) };
        widgets = with_widget(widgets, world_heading(wnum));

        // Show all of its entities
        let mut ennum: usize = 0;
        while ennum < world.entities.len()
            invariant
                ennum <= world.entities.len(),
                widget_views(widgets@) == before + seq![heading] + Seq::new(
                    ennum as nat,
                    |index: int| entity_widget(wnum as int, index, world@[index]),
                ),
            decreases world.entities.len() - ennum,
        {
            widgets = with_widget(widgets, entity_button(wnum, ennum, &world.entities[ennum]));
            ennum += 1;
        }

        // A button to create a new entity, and padding below it
        widgets = with_widget(
            widgets,
            Widget::Button {
                caption: plain_caption("Add Entity"),
                size: None,
                action: Message::AddEntity { world: wnum },
            },
        );
        widgets = with_widget(widgets, Widget::Padding);
        assert(model@.worlds[wnum as int] == world@);
        assert(widget_views(widgets@) =~= before + world_section(wnum as int, world@));
        wnum += 1;
    }

    widgets = with_widget(
        widgets,
        Widget::Button { caption: plain_caption("Add World"), size: None, action: Message::AddWorld },
    );

    // The editor for the entity being edited
    widgets = with_widget(widgets, Widget::Padding);
    widgets = with_widget(widgets, Widget::Text { caption: plain_caption("=== Edit Entity ===") });
    match (model.selection(), model.current_entity()) {
        (Some(at), Some(entity)) => {
            widgets = with_widget(widgets, position_text(&entity));

            // Buttons for changing the position
            widgets = show_adder_button(widgets, "X + 1", at, Axis::X, true);
            widgets = show_adder_button(widgets, "X - 1", at, Axis::X, false);
            widgets = show_adder_button(widgets, "Y + 1", at, Axis::Y, true);
            widgets = show_adder_button(widgets, "Y - 1", at, Axis::Y, false);
            widgets = show_adder_button(widgets, "Z + 1", at, Axis::Z, true);
            widgets = show_adder_button(widgets, "Z - 1", at, Axis::Z, false);
        },
        _ => {},
    }
    let layout = Layout { background: Color { red: 21, green: 23, blue: 24 }, widgets };
    assert(layout@.widgets =~= view_widgets(model@));
    layout
}

/// Appends to `widgets` a button labelled `text` that asks for the entity at
/// `at` to be moved one unit along `axis`, up or down.
pub fn show_adder_button(
    widgets: Vec<Widget>,
    text: &str,
    at: Selection,
    axis: Axis,
    up: bool,
) -> (longer: Vec<Widget>)
    ensures
        widget_views(longer@) == widget_views(widgets@).push(adder_widget(text@, at, axis, up)),
{
    with_widget(
        widgets,
        Widget::Button {
            caption: plain_caption(text),
            size: None,
            action: Message::Adjust { at, axis, up },
        },
    )
}

/// Builds the error screen for the message `text`.
pub fn display_error(text: &str) -> (layout: Layout)
    ensures
        layout@ == error_layout(text@),
{
    let widgets: Vec<Widget> = Vec::new();
    let widgets = with_widget(widgets, Widget::Text { caption: plain_caption(text) });
    let widgets = with_widget(
        widgets,
        Widget::Button { caption: plain_caption("Ok"), size: None, action: Message::Cancel },
    );
    let layout = Layout { background: Color { red: 21, green: 23, blue: 24 }, widgets };
    assert(layout@.widgets =~= error_layout(text@).widgets);
    layout
}

} // verus!
