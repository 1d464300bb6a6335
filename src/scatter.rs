//! Scatter: points, lines and filled areas in two dimensions.
use vstd::prelude::*;

use crate::color::{Color, ColorWrapper};
use crate::common::{Calendar, Dim, Fill, GroupNorm, HoverInfo, Mode, Orientation, PlotType, Position};
use crate::json::{keys_of, object_text, optional_member, JsonSerialize, ObjectWriter};
use crate::number::Decimal;
use crate::private::{is_scalar_text, is_texts, is_vector_text, owned_string_vector, str_views, AsStr};

verus! {

/// A scatter trace.
#[derive(Clone, Debug)]
pub struct Scatter<X, Y> {
    pub plot_type: PlotType,
    pub x: Vec<X>,
    pub y: Vec<Y>,
    pub name: Option<String>,
    pub visible: Option<bool>,
    pub show_legend: Option<bool>,
    pub legend_group: Option<String>,
    pub opacity: Option<Decimal>,
    pub mode: Option<Mode>,
    pub ids: Option<Vec<String>>,
    pub text: Option<Dim<String>>,
    pub text_position: Option<Dim<Position>>,
    pub text_template: Option<Dim<String>>,
    pub hover_text: Option<Dim<String>>,
    pub hover_info: Option<HoverInfo>,
    pub hover_template: Option<Dim<String>>,
    pub orientation: Option<Orientation>,
    pub group_norm: Option<GroupNorm>,
    pub stack_group: Option<String>,
    pub clip_on_axis: Option<bool>,
    pub connect_gaps: Option<bool>,
    pub fill: Option<Fill>,
    pub fill_color: Option<ColorWrapper>,
    pub hover_on: Option<String>,
    pub stack_gaps: Option<String>,
    pub x_calendar: Option<Calendar>,
    pub y_calendar: Option<Calendar>,
}

impl<X, Y> Scatter<X, Y> where X: JsonSerialize, Y: JsonSerialize {
    /// The members that this value serializes to, in order; absent fields are left out.
    pub open spec fn members(&self) -> Seq<(Seq<char>, Seq<char>)> {
        seq![("type"@, self.plot_type.json_text()), ("x"@, self.x.json_text()), ("y"@, self.y.json_text())]
            + optional_member("name"@, self.name)
            + optional_member("visible"@, self.visible)
            + optional_member("showlegend"@, self.show_legend)
            + optional_member("legendgroup"@, self.legend_group)
            + optional_member("opacity"@, self.opacity)
            + optional_member("mode"@, self.mode)
            + optional_member("ids"@, self.ids)
            + optional_member("text"@, self.text)
            + optional_member("textposition"@, self.text_position)
            + optional_member("texttemplate"@, self.text_template)
            + optional_member("hovertext"@, self.hover_text)
            + optional_member("hoverinfo"@, self.hover_info)
            + optional_member("hovertemplate"@, self.hover_template)
            + optional_member("orientation"@, self.orientation)
            + optional_member("groupnorm"@, self.group_norm)
            + optional_member("stackgroup"@, self.stack_group)
            + optional_member("cliponaxis"@, self.clip_on_axis)
            + optional_member("connectgaps"@, self.connect_gaps)
            + optional_member("fill"@, self.fill)
            + optional_member("fillcolor"@, self.fill_color)
            + optional_member("hoveron"@, self.hover_on)
            + optional_member("stackgaps"@, self.stack_gaps)
            + optional_member("xcalendar"@, self.x_calendar)
            + optional_member("ycalendar"@, self.y_calendar)
    }

    /// Whether no optional field is set.
    pub open spec fn is_blank(&self) -> bool {
        &&& self.name is None
        &&& self.visible is None
        &&& self.show_legend is None
        &&& self.legend_group is None
        &&& self.opacity is None
        &&& self.mode is None
        &&& self.ids is None
        &&& self.text is None
        &&& self.text_position is None
        &&& self.text_template is None
        &&& self.hover_text is None
        &&& self.hover_info is None
        &&& self.hover_template is None
        &&& self.orientation is None
        &&& self.group_norm is None
        &&& self.stack_group is None
        &&& self.clip_on_axis is None
        &&& self.connect_gaps is None
        &&& self.fill is None
        &&& self.fill_color is None
        &&& self.hover_on is None
        &&& self.stack_gaps is None
        &&& self.x_calendar is None
        &&& self.y_calendar is None
    }

    /// A scatter trace through the points `(x[i], y[i])`, with no other field set.
    pub fn new(x: Vec<X>, y: Vec<Y>) -> (r: Box<Self>)
        ensures
            r.plot_type == PlotType::Scatter,
            r.x == x,
            r.y == y,
            r.is_blank(),
            keys_of(r.members()) == seq!["type"@, "x"@, "y"@],
    {
        let r = Box::new(
            Scatter {
                plot_type: PlotType::Scatter,
                x,
                y,
                name: None,
                visible: None,
                show_legend: None,
                legend_group: None,
                opacity: None,
                mode: None,
                ids: None,
                text: None,
                text_position: None,
                text_template: None,
                hover_text: None,
                hover_info: None,
                hover_template: None,
                orientation: None,
                group_norm: None,
                stack_group: None,
                clip_on_axis: None,
                connect_gaps: None,
                fill: None,
                fill_color: None,
                hover_on: None,
                stack_gaps: None,
                x_calendar: None,
                y_calendar: None,
            },
        );
        proof {
            lemma_blank_keys(*r);
        }
        r
    }

    /// Sets the trace name, which appears as the legend item and on hover.
    pub fn name(self, name: &str) -> (r: Box<Self>)
        ensures
            (*r == (Scatter { name: r.name, ..self })),
            r.name is Some,
            r.name->Some_0@ == name@,
    {
        let mut s = self;
        s.name = Some(String::from_str(name));
        Box::new(s)
    }

    /// Determines whether or not this trace is visible.
    pub fn visible(self, visible: bool) -> (r: Box<Self>)
        ensures
            (*r == (Scatter { visible: r.visible, ..self })),
            r.visible == Some(visible),
    {
        let mut s = self;
        s.visible = Some(visible);
        Box::new(s)
    }

    /// Determines whether or not an item corresponding to this trace is shown in the legend.
    pub fn show_legend(self, show_legend: bool) -> (r: Box<Self>)
        ensures
            (*r == (Scatter { show_legend: r.show_legend, ..self })),
            r.show_legend == Some(show_legend),
    {
        let mut s = self;
        s.show_legend = Some(show_legend);
        Box::new(s)
    }

    /// Sets the legend group for this trace.
    pub fn legend_group(self, legend_group: &str) -> (r: Box<Self>)
        ensures
            (*r == (Scatter { legend_group: r.legend_group, ..self })),
            r.legend_group is Some,
            r.legend_group->Some_0@ == legend_group@,
    {
        let mut s = self;
        s.legend_group = Some(String::from_str(legend_group));
        Box::new(s)
    }

    /// Sets the opacity of the trace.
    pub fn opacity(self, opacity: Decimal) -> (r: Box<Self>)
        ensures
            (*r == (Scatter { opacity: r.opacity, ..self })),
            r.opacity == Some(opacity),
    {
        let mut s = self;
        s.opacity = Some(opacity);
        Box::new(s)
    }

    /// Determines the drawing mode for this scatter trace.
    pub fn mode(self, mode: Mode) -> (r: Box<Self>)
        ensures
            (*r == (Scatter { mode: r.mode, ..self })),
            r.mode == Some(mode),
    {
        let mut s = self;
        s.mode = Some(mode);
        Box::new(s)
    }

    /// Assigns id labels to each datum.
    pub fn ids<S: AsStr>(self, ids: Vec<S>) -> (r: Box<Self>)
        ensures
            (*r == (Scatter { ids: r.ids, ..self })),
            is_texts(r.ids, str_views(ids@)),
    {
        let mut s = self;
        s.ids = Some(owned_string_vector(ids));
        Box::new(s)
    }

    /// Sets text elements associated with the (x, y) pairs, one for all the data points.
    pub fn text(self, text: &str) -> (r: Box<Self>)
        ensures
            (*r == (Scatter { text: r.text, ..self })),
            is_scalar_text(r.text, text@),
    {
        let mut s = self;
        s.text = Some(Dim::Scalar(String::from_str(text)));
        Box::new(s)
    }

    /// Sets text elements associated with the (x, y) pairs, one per data point, in order.
    pub fn text_array<S: AsStr>(self, text: Vec<S>) -> (r: Box<Self>)
        ensures
            (*r == (Scatter { text: r.text, ..self })),
            is_vector_text(r.text, str_views(text@)),
    {
        let mut s = self;
        s.text = Some(Dim::Vector(owned_string_vector(text)));
        Box::new(s)
    }

    /// Sets the position of the text elements, one for all the data points.
    pub fn text_position(self, text_position: Position) -> (r: Box<Self>)
        ensures
            (*r == (Scatter { text_position: r.text_position, ..self })),
            r.text_position == Some(Dim::Scalar(text_position)),
    {
        let mut s = self;
        s.text_position = Some(Dim::Scalar(text_position));
        Box::new(s)
    }

    /// Sets the position of the text elements, one per data point, in order.
    pub fn text_position_array(self, text_position: Vec<Position>) -> (r: Box<Self>)
        ensures
            (*r == (Scatter { text_position: r.text_position, ..self })),
            r.text_position == Some(Dim::Vector(text_position)),
    {
        let mut s = self;
        s.text_position = Some(Dim::Vector(text_position));
        Box::new(s)
    }

    /// Sets the template strings for the text elements, one for all the data points.
    pub fn text_template(self, text_template: &str) -> (r: Box<Self>)
        ensures
            (*r == (Scatter { text_template: r.text_template, ..self })),
            is_scalar_text(r.text_template, text_template@),
    {
        let mut s = self;
        s.text_template = Some(Dim::Scalar(String::from_str(text_template)));
        Box::new(s)
    }

    /// Sets the template strings for the text elements, one per data point, in order.
    pub fn text_template_array<S: AsStr>(self, text_template: Vec<S>) -> (r: Box<Self>)
        ensures
            (*r == (Scatter { text_template: r.text_template, ..self })),
            is_vector_text(r.text_template, str_views(text_template@)),
    {
        let mut s = self;
        s.text_template = Some(Dim::Vector(owned_string_vector(text_template)));
        Box::new(s)
    }

    /// Sets hover text elements, one for all the data points.
    pub fn hover_text(self, hover_text: &str) -> (r: Box<Self>)
        ensures
            (*r == (Scatter { hover_text: r.hover_text, ..self })),
            is_scalar_text(r.hover_text, hover_text@),
    {
        let mut s = self;
        s.hover_text = Some(Dim::Scalar(String::from_str(hover_text)));
        Box::new(s)
    }

    /// Sets hover text elements, one per data point, in order.
    pub fn hover_text_array<S: AsStr>(self, hover_text: Vec<S>) -> (r: Box<Self>)
        ensures
            (*r == (Scatter { hover_text: r.hover_text, ..self })),
            is_vector_text(r.hover_text, str_views(hover_text@)),
    {
        let mut s = self;
        s.hover_text = Some(Dim::Vector(owned_string_vector(hover_text)));
        Box::new(s)
    }

    /// Determines which trace information appear on hover.
    pub fn hover_info(self, hover_info: HoverInfo) -> (r: Box<Self>)
        ensures
            (*r == (Scatter { hover_info: r.hover_info, ..self })),
            r.hover_info == Some(hover_info),
    {
        let mut s = self;
        s.hover_info = Some(hover_info);
        Box::new(s)
    }

    /// Sets the template strings for the hover box, one for all the data points.
    pub fn hover_template(self, hover_template: &str) -> (r: Box<Self>)
        ensures
            (*r == (Scatter { hover_template: r.hover_template, ..self })),
            is_scalar_text(r.hover_template, hover_template@),
    {
        let mut s = self;
        s.hover_template = Some(Dim::Scalar(String::from_str(hover_template)));
        Box::new(s)
    }

    /// Sets the template strings for the hover box, one per data point, in order.
    pub fn hover_template_array<S: AsStr>(self, hover_template: Vec<S>) -> (r: Box<Self>)
        ensures
            (*r == (Scatter { hover_template: r.hover_template, ..self })),
            is_vector_text(r.hover_template, str_views(hover_template@)),
    {
        let mut s = self;
        s.hover_template = Some(Dim::Vector(owned_string_vector(hover_template)));
        Box::new(s)
    }

    /// Sets the stacking direction of a stack group.
    pub fn orientation(self, orientation: Orientation) -> (r: Box<Self>)
        ensures
            (*r == (Scatter { orientation: r.orientation, ..self })),
            r.orientation == Some(orientation),
    {
        let mut s = self;
        s.orientation = Some(orientation);
        Box::new(s)
    }

    /// Sets the normalization of a stack group.
    pub fn group_norm(self, group_norm: GroupNorm) -> (r: Box<Self>)
        ensures
            (*r == (Scatter { group_norm: r.group_norm, ..self })),
            r.group_norm == Some(group_norm),
    {
        let mut s = self;
        s.group_norm = Some(group_norm);
        Box::new(s)
    }

    /// Sets the stack group that this trace belongs to.
    pub fn stack_group(self, stack_group: &str) -> (r: Box<Self>)
        ensures
            (*r == (Scatter { stack_group: r.stack_group, ..self })),
            r.stack_group is Some,
            r.stack_group->Some_0@ == stack_group@,
    {
        let mut s = self;
        s.stack_group = Some(String::from_str(stack_group));
        Box::new(s)
    }

    /// Determines whether or not markers and text nodes are clipped about the subplot axes.
    pub fn clip_on_axis(self, clip_on_axis: bool) -> (r: Box<Self>)
        ensures
            (*r == (Scatter { clip_on_axis: r.clip_on_axis, ..self })),
            r.clip_on_axis == Some(clip_on_axis),
    {
        let mut s = self;
        s.clip_on_axis = Some(clip_on_axis);
        Box::new(s)
    }

    /// Determines whether or not gaps in the provided data arrays are connected.
    pub fn connect_gaps(self, connect_gaps: bool) -> (r: Box<Self>)
        ensures
            (*r == (Scatter { connect_gaps: r.connect_gaps, ..self })),
            r.connect_gaps == Some(connect_gaps),
    {
        let mut s = self;
        s.connect_gaps = Some(connect_gaps);
        Box::new(s)
    }

    /// Sets the area to fill with a solid color.
    pub fn fill(self, fill: Fill) -> (r: Box<Self>)
        ensures
            (*r == (Scatter { fill: r.fill, ..self })),
            r.fill == Some(fill),
    {
        let mut s = self;
        s.fill = Some(fill);
        Box::new(s)
    }

    /// Sets the fill color.
    pub fn fill_color<C: Color>(self, fill_color: C) -> (r: Box<Self>)
        ensures
            (*r == (Scatter { fill_color: r.fill_color, ..self })),
            r.fill_color is Some,
            r.fill_color->Some_0@ == fill_color.color_view(),
    {
        let mut s = self;
        s.fill_color = Some(fill_color.to_color());
        Box::new(s)
    }

    /// Determines whether points or fills are the hover targets.
    pub fn hover_on(self, hover_on: &str) -> (r: Box<Self>)
        ensures
            (*r == (Scatter { hover_on: r.hover_on, ..self })),
            r.hover_on is Some,
            r.hover_on->Some_0@ == hover_on@,
    {
        let mut s = self;
        s.hover_on = Some(String::from_str(hover_on));
        Box::new(s)
    }

    /// Determines how gaps in a stack group are handled.
    pub fn stack_gaps(self, stack_gaps: &str) -> (r: Box<Self>)
        ensures
            (*r == (Scatter { stack_gaps: r.stack_gaps, ..self })),
            r.stack_gaps is Some,
            r.stack_gaps->Some_0@ == stack_gaps@,
    {
        let mut s = self;
        s.stack_gaps = Some(String::from_str(stack_gaps));
        Box::new(s)
    }

    /// Sets the calendar system to use with `x` date data.
    pub fn x_calendar(self, x_calendar: Calendar) -> (r: Box<Self>)
        ensures
            (*r == (Scatter { x_calendar: r.x_calendar, ..self })),
            r.x_calendar == Some(x_calendar),
    {
        let mut s = self;
        s.x_calendar = Some(x_calendar);
        Box::new(s)
    }

    /// Sets the calendar system to use with `y` date data.
    pub fn y_calendar(self, y_calendar: Calendar) -> (r: Box<Self>)
        ensures
            (*r == (Scatter { y_calendar: r.y_calendar, ..self })),
            r.y_calendar == Some(y_calendar),
    {
        let mut s = self;
        s.y_calendar = Some(y_calendar);
        Box::new(s)
    }
}

impl<X, Y> JsonSerialize for Scatter<X, Y> where X: JsonSerialize, Y: JsonSerialize {
    open spec fn json_text(&self) -> Seq<char> {
        object_text(self.members())
    }

    fn to_json(&self) -> (r: String) {
        let mut w = ObjectWriter::new();
        let text = self.plot_type.to_json();
        w.member("type", text.as_str());
        let text = self.x.to_json();
        w.member("x", text.as_str());
        let text = self.y.to_json();
        w.member("y", text.as_str());
        proof {
            assert(w.members() =~= seq![("type"@, self.plot_type.json_text()), ("x"@, self.x.json_text()), ("y"@, self.y.json_text())]);
        }
        w.optional("name", &self.name);
        w.optional("visible", &self.visible);
        w.optional("showlegend", &self.show_legend);
        w.optional("legendgroup", &self.legend_group);
        w.optional("opacity", &self.opacity);
        w.optional("mode", &self.mode);
        w.optional("ids", &self.ids);
        w.optional("text", &self.text);
        w.optional("textposition", &self.text_position);
        w.optional("texttemplate", &self.text_template);
        w.optional("hovertext", &self.hover_text);
        w.optional("hoverinfo", &self.hover_info);
        w.optional("hovertemplate", &self.hover_template);
        w.optional("orientation", &self.orientation);
        w.optional("groupnorm", &self.group_norm);
        w.optional("stackgroup", &self.stack_group);
        w.optional("cliponaxis", &self.clip_on_axis);
        w.optional("connectgaps", &self.connect_gaps);
        w.optional("fill", &self.fill);
        w.optional("fillcolor", &self.fill_color);
        w.optional("hoveron", &self.hover_on);
        w.optional("stackgaps", &self.stack_gaps);
        w.optional("xcalendar", &self.x_calendar);
        w.optional("ycalendar", &self.y_calendar);
        w.finish()
    }
}

/// A scatter trace with no optional field set serializes to an object with exactly the keys
/// `type`, `x` and `y`.
pub proof fn lemma_blank_keys<X: JsonSerialize, Y: JsonSerialize>(s: Scatter<X, Y>)
    requires
        s.is_blank(),
    ensures
        keys_of(s.members()) == seq!["type"@, "x"@, "y"@],
{
    assert(s.members() =~= seq![
        ("type"@, s.plot_type.json_text()),
        ("x"@, s.x.json_text()),
        ("y"@, s.y.json_text()),
    ]);
    assert(keys_of(s.members()) =~= seq!["type"@, "x"@, "y"@]);
}

/// Setting the name twice leaves the trace as setting only the second name would: the
/// serialized text is the same.
pub proof fn lemma_last_name_wins<X: JsonSerialize, Y: JsonSerialize>(
    s: Scatter<X, Y>,
    once: Scatter<X, Y>,
    twice: Scatter<X, Y>,
    direct: Scatter<X, Y>,
    first: Seq<char>,
    second: Seq<char>,
)
    requires
        once == (Scatter { name: once.name, ..s }),
        once.name is Some && once.name->Some_0@ == first,
        twice == (Scatter { name: twice.name, ..once }),
        twice.name is Some && twice.name->Some_0@ == second,
        direct == (Scatter { name: direct.name, ..s }),
        direct.name is Some && direct.name->Some_0@ == second,
    ensures
        twice.members() == direct.members(),
        twice.json_text() == direct.json_text(),
{
    assert(twice.name->Some_0.json_text() == direct.name->Some_0.json_text());
    assert(optional_member("name"@, twice.name) == optional_member("name"@, direct.name));
}

} // verus!
