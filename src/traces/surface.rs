//! Surface: a 3D surface given by a grid of heights.
use vstd::prelude::*;

use crate::color::{Color, ColorWrapper};
use crate::common::{Calendar, Dim, HoverInfo, PlotType, Visible};
use crate::json::{object_text, optional_member, JsonSerialize, ObjectWriter};
use crate::number::Decimal;
use crate::private::{
    colors_of, is_colors, is_scalar_text, is_vector_text, owned_string_vector, str_views,
    to_color_array, AsStr, TruthyEnum,
};

verus! {

/// How light falls on a surface.
#[derive(Clone, Debug)]
pub struct Lighting {
    pub ambient: Option<Decimal>,
    pub diffuse: Option<Decimal>,
    pub specular: Option<Decimal>,
    pub roughness: Option<Decimal>,
    pub fresnel: Option<Decimal>,
}

impl Lighting {
    /// The members that this value serializes to, in order; absent fields are left out.
    pub open spec fn members(&self) -> Seq<(Seq<char>, Seq<char>)> {
        Seq::empty()
            + optional_member("ambient"@, self.ambient)
            + optional_member("diffuse"@, self.diffuse)
            + optional_member("specular"@, self.specular)
            + optional_member("roughness"@, self.roughness)
            + optional_member("fresnel"@, self.fresnel)
    }

    /// Whether no optional field is set.
    pub open spec fn is_blank(&self) -> bool {
        &&& self.ambient is None
        &&& self.diffuse is None
        &&& self.specular is None
        &&& self.roughness is None
        &&& self.fresnel is None
    }

    /// Lighting with no field set.
    pub fn new() -> (r: Self)
        ensures
            r.is_blank(),
    {
        Lighting {
            ambient: None,
            diffuse: None,
            specular: None,
            roughness: None,
            fresnel: None,
        }
    }

    pub fn ambient(self, ambient: Decimal) -> (r: Self)
        ensures
            (r == (Lighting { ambient: r.ambient, ..self })),
            r.ambient == Some(ambient),
    {
        let mut s = self;
        s.ambient = Some(ambient);
        s
    }

    pub fn diffuse(self, diffuse: Decimal) -> (r: Self)
        ensures
            (r == (Lighting { diffuse: r.diffuse, ..self })),
            r.diffuse == Some(diffuse),
    {
        let mut s = self;
        s.diffuse = Some(diffuse);
        s
    }

    pub fn specular(self, specular: Decimal) -> (r: Self)
        ensures
            (r == (Lighting { specular: r.specular, ..self })),
            r.specular == Some(specular),
    {
        let mut s = self;
        s.specular = Some(specular);
        s
    }

    pub fn roughness(self, roughness: Decimal) -> (r: Self)
        ensures
            (r == (Lighting { roughness: r.roughness, ..self })),
            r.roughness == Some(roughness),
    {
        let mut s = self;
        s.roughness = Some(roughness);
        s
    }

    pub fn fresnel(self, fresnel: Decimal) -> (r: Self)
        ensures
            (r == (Lighting { fresnel: r.fresnel, ..self })),
            r.fresnel == Some(fresnel),
    {
        let mut s = self;
        s.fresnel = Some(fresnel);
        s
    }
}

impl JsonSerialize for Lighting {
    open spec fn json_text(&self) -> Seq<char> {
        object_text(self.members())
    }

    fn to_json(&self) -> (r: String) {
        let mut w = ObjectWriter::new();
        w.optional("ambient", &self.ambient);
        w.optional("diffuse", &self.diffuse);
        w.optional("specular", &self.specular);
        w.optional("roughness", &self.roughness);
        w.optional("fresnel", &self.fresnel);
        proof {
            assert(w.members() == self.members());
        }
        w.finish()
    }
}

/// The position of the light source.
#[derive(Clone, Debug)]
pub struct Position {
    pub x: i32,
    pub y: i32,
    pub z: i32,
}

impl Position {
    /// The members that this value serializes to, in order; absent fields are left out.
    pub open spec fn members(&self) -> Seq<(Seq<char>, Seq<char>)> {
        seq![("x"@, self.x.json_text()), ("y"@, self.y.json_text()), ("z"@, self.z.json_text())]
    }

    /// The position `(x, y, z)`.
    pub fn new(x: i32, y: i32, z: i32) -> (r: Position)
        ensures
            r.x == x,
            r.y == y,
            r.z == z,
    {
        Position { x, y, z }
    }
}

impl JsonSerialize for Position {
    open spec fn json_text(&self) -> Seq<char> {
        object_text(self.members())
    }

    fn to_json(&self) -> (r: String) {
        let mut w = ObjectWriter::new();
        let text = self.x.to_json();
        w.member("x", text.as_str());
        let text = self.y.to_json();
        w.member("y", text.as_str());
        let text = self.z.to_json();
        w.member("z", text.as_str());
        proof {
            assert(w.members() =~= seq![("x"@, self.x.json_text()), ("y"@, self.y.json_text()), ("z"@, self.z.json_text())]);
        }
        w.finish()
    }
}

/// Whether contour lines are projected onto each axis plane.
#[derive(Clone, Debug)]
pub struct PlaneProject {
    pub x: Option<bool>,
    pub y: Option<bool>,
    pub z: Option<bool>,
}

impl PlaneProject {
    /// The members that this value serializes to, in order; absent fields are left out.
    pub open spec fn members(&self) -> Seq<(Seq<char>, Seq<char>)> {
        Seq::empty()
            + optional_member("x"@, self.x)
            + optional_member("y"@, self.y)
            + optional_member("z"@, self.z)
    }

    /// Whether no optional field is set.
    pub open spec fn is_blank(&self) -> bool {
        &&& self.x is None
        &&& self.y is None
        &&& self.z is None
    }

    /// A projection with no axis set.
    pub fn new() -> (r: Self)
        ensures
            r.is_blank(),
    {
        PlaneProject {
            x: None,
            y: None,
            z: None,
        }
    }

    pub fn x(self, x: bool) -> (r: Self)
        ensures
            (r == (PlaneProject { x: r.x, ..self })),
            r.x == Some(x),
    {
        let mut s = self;
        s.x = Some(x);
        s
    }

    pub fn y(self, y: bool) -> (r: Self)
        ensures
            (r == (PlaneProject { y: r.y, ..self })),
            r.y == Some(y),
    {
        let mut s = self;
        s.y = Some(y);
        s
    }

    pub fn z(self, z: bool) -> (r: Self)
        ensures
            (r == (PlaneProject { z: r.z, ..self })),
            r.z == Some(z),
    {
        let mut s = self;
        s.z = Some(z);
        s
    }
}

impl JsonSerialize for PlaneProject {
    open spec fn json_text(&self) -> Seq<char> {
        object_text(self.members())
    }

    fn to_json(&self) -> (r: String) {
        let mut w = ObjectWriter::new();
        w.optional("x", &self.x);
        w.optional("y", &self.y);
        w.optional("z", &self.z);
        proof {
            assert(w.members() == self.members());
        }
        w.finish()
    }
}

/// The contour lines along one axis.
#[derive(Clone, Debug)]
pub struct PlaneContours {
    pub show: Option<bool>,
    pub start: Option<Decimal>,
    pub end: Option<Decimal>,
    pub size: Option<usize>,
    pub project: Option<PlaneProject>,
    pub color: Option<ColorWrapper>,
    pub use_colormap: Option<bool>,
    pub width: Option<usize>,
    pub highlight: Option<bool>,
    pub highlight_color: Option<ColorWrapper>,
    pub highlight_width: Option<usize>,
}

impl PlaneContours {
    /// The members that this value serializes to, in order; absent fields are left out.
    pub open spec fn members(&self) -> Seq<(Seq<char>, Seq<char>)> {
        Seq::empty()
            + optional_member("show"@, self.show)
            + optional_member("start"@, self.start)
            + optional_member("end"@, self.end)
            + optional_member("size"@, self.size)
            + optional_member("project"@, self.project)
            + optional_member("color"@, self.color)
            + optional_member("usecolormap"@, self.use_colormap)
            + optional_member("width"@, self.width)
            + optional_member("highlight"@, self.highlight)
            + optional_member("highlightcolor"@, self.highlight_color)
            + optional_member("highlightwidth"@, self.highlight_width)
    }

    /// Whether no optional field is set.
    pub open spec fn is_blank(&self) -> bool {
        &&& self.show is None
        &&& self.start is None
        &&& self.end is None
        &&& self.size is None
        &&& self.project is None
        &&& self.color is None
        &&& self.use_colormap is None
        &&& self.width is None
        &&& self.highlight is None
        &&& self.highlight_color is None
        &&& self.highlight_width is None
    }

    /// Contours with no field set.
    pub fn new() -> (r: Self)
        ensures
            r.is_blank(),
    {
        PlaneContours {
            show: None,
            start: None,
            end: None,
            size: None,
            project: None,
            color: None,
            use_colormap: None,
            width: None,
            highlight: None,
            highlight_color: None,
            highlight_width: None,
        }
    }

    pub fn show(self, show: bool) -> (r: Self)
        ensures
            (r == (PlaneContours { show: r.show, ..self })),
            r.show == Some(show),
    {
        let mut s = self;
        s.show = Some(show);
        s
    }

    pub fn start(self, start: Decimal) -> (r: Self)
        ensures
            (r == (PlaneContours { start: r.start, ..self })),
            r.start == Some(start),
    {
        let mut s = self;
        s.start = Some(start);
        s
    }

    pub fn end(self, end: Decimal) -> (r: Self)
        ensures
            (r == (PlaneContours { end: r.end, ..self })),
            r.end == Some(end),
    {
        let mut s = self;
        s.end = Some(end);
        s
    }

    pub fn size(self, size: usize) -> (r: Self)
        ensures
            (r == (PlaneContours { size: r.size, ..self })),
            r.size == Some(size),
    {
        let mut s = self;
        s.size = Some(size);
        s
    }

    pub fn project(self, project: PlaneProject) -> (r: Self)
        ensures
            (r == (PlaneContours { project: r.project, ..self })),
            r.project == Some(project),
    {
        let mut s = self;
        s.project = Some(project);
        s
    }

    pub fn color<C: Color>(self, color: C) -> (r: Self)
        ensures
            (r == (PlaneContours { color: r.color, ..self })),
            r.color is Some,
            r.color->Some_0@ == color.color_view(),
    {
        let mut s = self;
        s.color = Some(color.to_color());
        s
    }

    pub fn use_colormap(self, use_colormap: bool) -> (r: Self)
        ensures
            (r == (PlaneContours { use_colormap: r.use_colormap, ..self })),
            r.use_colormap == Some(use_colormap),
    {
        let mut s = self;
        s.use_colormap = Some(use_colormap);
        s
    }

    pub fn width(self, width: usize) -> (r: Self)
        ensures
            (r == (PlaneContours { width: r.width, ..self })),
            r.width == Some(width),
    {
        let mut s = self;
        s.width = Some(width);
        s
    }

    pub fn highlight(self, highlight: bool) -> (r: Self)
        ensures
            (r == (PlaneContours { highlight: r.highlight, ..self })),
            r.highlight == Some(highlight),
    {
        let mut s = self;
        s.highlight = Some(highlight);
        s
    }

    pub fn highlight_color<C: Color>(self, highlight_color: C) -> (r: Self)
        ensures
            (r == (PlaneContours { highlight_color: r.highlight_color, ..self })),
            r.highlight_color is Some,
            r.highlight_color->Some_0@ == highlight_color.color_view(),
    {
        let mut s = self;
        s.highlight_color = Some(highlight_color.to_color());
        s
    }

    pub fn highlight_width(self, highlight_width: usize) -> (r: Self)
        ensures
            (r == (PlaneContours { highlight_width: r.highlight_width, ..self })),
            r.highlight_width == Some(highlight_width),
    {
        let mut s = self;
        s.highlight_width = Some(highlight_width);
        s
    }
}

impl JsonSerialize for PlaneContours {
    open spec fn json_text(&self) -> Seq<char> {
        object_text(self.members())
    }

    fn to_json(&self) -> (r: String) {
        let mut w = ObjectWriter::new();
        w.optional("show", &self.show);
        w.optional("start", &self.start);
        w.optional("end", &self.end);
        w.optional("size", &self.size);
        w.optional("project", &self.project);
        w.optional("color", &self.color);
        w.optional("usecolormap", &self.use_colormap);
        w.optional("width", &self.width);
        w.optional("highlight", &self.highlight);
        w.optional("highlightcolor", &self.highlight_color);
        w.optional("highlightwidth", &self.highlight_width);
        proof {
            assert(w.members() == self.members());
        }
        w.finish()
    }
}

/// The contour lines along each axis.
#[derive(Clone, Debug)]
pub struct SurfaceContours {
    pub x: Option<PlaneContours>,
    pub y: Option<PlaneContours>,
    pub z: Option<PlaneContours>,
}

impl SurfaceContours {
    /// The members that this value serializes to, in order; absent fields are left out.
    pub open spec fn members(&self) -> Seq<(Seq<char>, Seq<char>)> {
        Seq::empty()
            + optional_member("x"@, self.x)
            + optional_member("y"@, self.y)
            + optional_member("z"@, self.z)
    }

    /// Whether no optional field is set.
    pub open spec fn is_blank(&self) -> bool {
        &&& self.x is None
        &&& self.y is None
        &&& self.z is None
    }

    /// Contours with no axis set.
    pub fn new() -> (r: Self)
        ensures
            r.is_blank(),
    {
        SurfaceContours {
            x: None,
            y: None,
            z: None,
        }
    }

    pub fn x(self, x: PlaneContours) -> (r: Self)
        ensures
            (r == (SurfaceContours { x: r.x, ..self })),
            r.x == Some(x),
    {
        let mut s = self;
        s.x = Some(x);
        s
    }

    pub fn y(self, y: PlaneContours) -> (r: Self)
        ensures
            (r == (SurfaceContours { y: r.y, ..self })),
            r.y == Some(y),
    {
        let mut s = self;
        s.y = Some(y);
        s
    }

    pub fn z(self, z: PlaneContours) -> (r: Self)
        ensures
            (r == (SurfaceContours { z: r.z, ..self })),
            r.z == Some(z),
    {
        let mut s = self;
        s.z = Some(z);
        s
    }
}

impl JsonSerialize for SurfaceContours {
    open spec fn json_text(&self) -> Seq<char> {
        object_text(self.members())
    }

    fn to_json(&self) -> (r: String) {
        let mut w = ObjectWriter::new();
        w.optional("x", &self.x);
        w.optional("y", &self.y);
        w.optional("z", &self.z);
        proof {
            assert(w.members() == self.members());
        }
        w.finish()
    }
}

/// A 3D surface trace.
#[derive(Clone, Debug)]
pub struct Surface<X, Y, Z> {
    pub plot_type: PlotType,
    pub x: Option<Vec<X>>,
    pub y: Option<Vec<Y>>,
    pub z: Vec<Vec<Z>>,
    pub name: Option<String>,
    pub visible: Option<TruthyEnum<Visible>>,
    pub show_legend: Option<bool>,
    pub legend_group: Option<String>,
    pub opacity: Option<Decimal>,
    pub surface_color: Option<Vec<ColorWrapper>>,
    pub text: Option<Dim<String>>,
    pub hover_text: Option<Dim<String>>,
    pub hover_info: Option<HoverInfo>,
    pub hover_template: Option<Dim<String>>,
    pub auto_color_scale: Option<bool>,
    pub show_scale: Option<bool>,
    pub reverse_scale: Option<bool>,
    pub cauto: Option<bool>,
    pub cmin: Option<Decimal>,
    pub cmax: Option<Decimal>,
    pub cmid: Option<Decimal>,
    pub connect_gaps: Option<bool>,
    pub contours: Option<SurfaceContours>,
    pub hide_surface: Option<bool>,
    pub lighting: Option<Lighting>,
    pub light_position: Option<Position>,
    pub x_calendar: Option<Calendar>,
    pub y_calendar: Option<Calendar>,
    pub z_calendar: Option<Calendar>,
}

impl<X, Y, Z> Surface<X, Y, Z> where X: JsonSerialize, Y: JsonSerialize, Z: JsonSerialize {
    /// The members that this value serializes to, in order; absent fields are left out.
    pub open spec fn members(&self) -> Seq<(Seq<char>, Seq<char>)> {
        seq![("type"@, self.plot_type.json_text())]
            + optional_member("x"@, self.x)
            + optional_member("y"@, self.y)
            + seq![("z"@, self.z.json_text())]
            + optional_member("name"@, self.name)
            + optional_member("visible"@, self.visible)
            + optional_member("showlegend"@, self.show_legend)
            + optional_member("legendgroup"@, self.legend_group)
            + optional_member("opacity"@, self.opacity)
            + optional_member("surfacecolor"@, self.surface_color)
            + optional_member("text"@, self.text)
            + optional_member("hovertext"@, self.hover_text)
            + optional_member("hoverinfo"@, self.hover_info)
            + optional_member("hovertemplate"@, self.hover_template)
            + optional_member("autocolorscale"@, self.auto_color_scale)
            + optional_member("showscale"@, self.show_scale)
            + optional_member("reversescale"@, self.reverse_scale)
            + optional_member("cauto"@, self.cauto)
            + optional_member("cmin"@, self.cmin)
            + optional_member("cmax"@, self.cmax)
            + optional_member("cmid"@, self.cmid)
            + optional_member("connectgaps"@, self.connect_gaps)
            + optional_member("contours"@, self.contours)
            + optional_member("hidesurface"@, self.hide_surface)
            + optional_member("lighting"@, self.lighting)
            + optional_member("lightposition"@, self.light_position)
            + optional_member("xcalendar"@, self.x_calendar)
            + optional_member("ycalendar"@, self.y_calendar)
            + optional_member("zcalendar"@, self.z_calendar)
    }

    /// Whether no optional field is set.
    pub open spec fn is_blank(&self) -> bool {
        &&& self.x is None
        &&& self.y is None
        &&& self.name is None
        &&& self.visible is None
        &&& self.show_legend is None
        &&& self.legend_group is None
        &&& self.opacity is None
        &&& self.surface_color is None
        &&& self.text is None
        &&& self.hover_text is None
        &&& self.hover_info is None
        &&& self.hover_template is None
        &&& self.auto_color_scale is None
        &&& self.show_scale is None
        &&& self.reverse_scale is None
        &&& self.cauto is None
        &&& self.cmin is None
        &&& self.cmax is None
        &&& self.cmid is None
        &&& self.connect_gaps is None
        &&& self.contours is None
        &&& self.hide_surface is None
        &&& self.lighting is None
        &&& self.light_position is None
        &&& self.x_calendar is None
        &&& self.y_calendar is None
        &&& self.z_calendar is None
    }

    /// A surface with the given heights, one row per `y` and one column per `x`, and no other
    /// field set.
    pub fn new(z: Vec<Vec<Z>>) -> (r: Box<Self>)
        ensures
            r.plot_type == PlotType::Surface,
            r.z == z,
            r.x is None,
            r.y is None,
            r.is_blank(),
    {
        Box::new(
            Surface {
                plot_type: PlotType::Surface,
                x: None,
                y: None,
                z,
                name: None,
                visible: None,
                show_legend: None,
                legend_group: None,
                opacity: None,
                surface_color: None,
                text: None,
                hover_text: None,
                hover_info: None,
                hover_template: None,
                auto_color_scale: None,
                show_scale: None,
                reverse_scale: None,
                cauto: None,
                cmin: None,
                cmax: None,
                cmid: None,
                connect_gaps: None,
                contours: None,
                hide_surface: None,
                lighting: None,
                light_position: None,
                x_calendar: None,
                y_calendar: None,
                z_calendar: None,
            },
        )
    }

    pub fn x(self, x: Vec<X>) -> (r: Box<Self>)
        ensures
            (*r == (Surface { x: r.x, ..self })),
            r.x == Some(x),
    {
        let mut s = self;
        s.x = Some(x);
        Box::new(s)
    }

    pub fn y(self, y: Vec<Y>) -> (r: Box<Self>)
        ensures
            (*r == (Surface { y: r.y, ..self })),
            r.y == Some(y),
    {
        let mut s = self;
        s.y = Some(y);
        Box::new(s)
    }

    pub fn name(self, name: &str) -> (r: Box<Self>)
        ensures
            (*r == (Surface { name: r.name, ..self })),
            r.name is Some,
            r.name->Some_0@ == name@,
    {
        let mut s = self;
        s.name = Some(String::from_str(name));
        Box::new(s)
    }

    pub fn visible(self, visible: Visible) -> (r: Box<Self>)
        ensures
            (*r == (Surface { visible: r.visible, ..self })),
            (r.visible == Some(TruthyEnum { e: visible })),
    {
        let mut s = self;
        s.visible = Some(TruthyEnum { e: visible });
        Box::new(s)
    }

    pub fn show_legend(self, show_legend: bool) -> (r: Box<Self>)
        ensures
            (*r == (Surface { show_legend: r.show_legend, ..self })),
            r.show_legend == Some(show_legend),
    {
        let mut s = self;
        s.show_legend = Some(show_legend);
        Box::new(s)
    }

    pub fn legend_group(self, legend_group: &str) -> (r: Box<Self>)
        ensures
            (*r == (Surface { legend_group: r.legend_group, ..self })),
            r.legend_group is Some,
            r.legend_group->Some_0@ == legend_group@,
    {
        let mut s = self;
        s.legend_group = Some(String::from_str(legend_group));
        Box::new(s)
    }

    pub fn opacity(self, opacity: Decimal) -> (r: Box<Self>)
        ensures
            (*r == (Surface { opacity: r.opacity, ..self })),
            r.opacity == Some(opacity),
    {
        let mut s = self;
        s.opacity = Some(opacity);
        Box::new(s)
    }

    pub fn surface_color<C: Color>(self, surface_color: Vec<C>) -> (r: Box<Self>)
        ensures
            (*r == (Surface { surface_color: r.surface_color, ..self })),
            is_colors(r.surface_color, colors_of(surface_color@)),
    {
        let mut s = self;
        s.surface_color = Some(to_color_array(surface_color));
        Box::new(s)
    }

    pub fn text(self, text: &str) -> (r: Box<Self>)
        ensures
            (*r == (Surface { text: r.text, ..self })),
            is_scalar_text(r.text, text@),
    {
        let mut s = self;
        s.text = Some(Dim::Scalar(String::from_str(text)));
        Box::new(s)
    }

    pub fn text_array<S: AsStr>(self, text: Vec<S>) -> (r: Box<Self>)
        ensures
            (*r == (Surface { text: r.text, ..self })),
            is_vector_text(r.text, str_views(text@)),
    {
        let mut s = self;
        s.text = Some(Dim::Vector(owned_string_vector(text)));
        Box::new(s)
    }

    pub fn hover_text(self, hover_text: &str) -> (r: Box<Self>)
        ensures
            (*r == (Surface { hover_text: r.hover_text, ..self })),
            is_scalar_text(r.hover_text, hover_text@),
    {
        let mut s = self;
        s.hover_text = Some(Dim::Scalar(String::from_str(hover_text)));
        Box::new(s)
    }

    pub fn hover_text_array<S: AsStr>(self, hover_text: Vec<S>) -> (r: Box<Self>)
        ensures
            (*r == (Surface { hover_text: r.hover_text, ..self })),
            is_vector_text(r.hover_text, str_views(hover_text@)),
    {
        let mut s = self;
        s.hover_text = Some(Dim::Vector(owned_string_vector(hover_text)));
        Box::new(s)
    }

    pub fn hover_info(self, hover_info: HoverInfo) -> (r: Box<Self>)
        ensures
            (*r == (Surface { hover_info: r.hover_info, ..self })),
            r.hover_info == Some(hover_info),
    {
        let mut s = self;
        s.hover_info = Some(hover_info);
        Box::new(s)
    }

    pub fn hover_template(self, hover_template: &str) -> (r: Box<Self>)
        ensures
            (*r == (Surface { hover_template: r.hover_template, ..self })),
            is_scalar_text(r.hover_template, hover_template@),
    {
        let mut s = self;
        s.hover_template = Some(Dim::Scalar(String::from_str(hover_template)));
        Box::new(s)
    }

    pub fn hover_template_array<S: AsStr>(self, hover_template: Vec<S>) -> (r: Box<Self>)
        ensures
            (*r == (Surface { hover_template: r.hover_template, ..self })),
            is_vector_text(r.hover_template, str_views(hover_template@)),
    {
        let mut s = self;
        s.hover_template = Some(Dim::Vector(owned_string_vector(hover_template)));
        Box::new(s)
    }

    pub fn auto_color_scale(self, auto_color_scale: bool) -> (r: Box<Self>)
        ensures
            (*r == (Surface { auto_color_scale: r.auto_color_scale, ..self })),
            r.auto_color_scale == Some(auto_color_scale),
    {
        let mut s = self;
        s.auto_color_scale = Some(auto_color_scale);
        Box::new(s)
    }

    pub fn show_scale(self, show_scale: bool) -> (r: Box<Self>)
        ensures
            (*r == (Surface { show_scale: r.show_scale, ..self })),
            r.show_scale == Some(show_scale),
    {
        let mut s = self;
        s.show_scale = Some(show_scale);
        Box::new(s)
    }

    pub fn reverse_scale(self, reverse_scale: bool) -> (r: Box<Self>)
        ensures
            (*r == (Surface { reverse_scale: r.reverse_scale, ..self })),
            r.reverse_scale == Some(reverse_scale),
    {
        let mut s = self;
        s.reverse_scale = Some(reverse_scale);
        Box::new(s)
    }

    pub fn cauto(self, cauto: bool) -> (r: Box<Self>)
        ensures
            (*r == (Surface { cauto: r.cauto, ..self })),
            r.cauto == Some(cauto),
    {
        let mut s = self;
        s.cauto = Some(cauto);
        Box::new(s)
    }

    pub fn cmin(self, cmin: Decimal) -> (r: Box<Self>)
        ensures
            (*r == (Surface { cmin: r.cmin, ..self })),
            r.cmin == Some(cmin),
    {
        let mut s = self;
        s.cmin = Some(cmin);
        Box::new(s)
    }

    pub fn cmax(self, cmax: Decimal) -> (r: Box<Self>)
        ensures
            (*r == (Surface { cmax: r.cmax, ..self })),
            r.cmax == Some(cmax),
    {
        let mut s = self;
        s.cmax = Some(cmax);
        Box::new(s)
    }

    pub fn cmid(self, cmid: Decimal) -> (r: Box<Self>)
        ensures
            (*r == (Surface { cmid: r.cmid, ..self })),
            r.cmid == Some(cmid),
    {
        let mut s = self;
        s.cmid = Some(cmid);
        Box::new(s)
    }

    pub fn connect_gaps(self, connect_gaps: bool) -> (r: Box<Self>)
        ensures
            (*r == (Surface { connect_gaps: r.connect_gaps, ..self })),
            r.connect_gaps == Some(connect_gaps),
    {
        let mut s = self;
        s.connect_gaps = Some(connect_gaps);
        Box::new(s)
    }

    pub fn contours(self, contours: SurfaceContours) -> (r: Box<Self>)
        ensures
            (*r == (Surface { contours: r.contours, ..self })),
            r.contours == Some(contours),
    {
        let mut s = self;
        s.contours = Some(contours);
        Box::new(s)
    }

    pub fn hide_surface(self, hide_surface: bool) -> (r: Box<Self>)
        ensures
            (*r == (Surface { hide_surface: r.hide_surface, ..self })),
            r.hide_surface == Some(hide_surface),
    {
        let mut s = self;
        s.hide_surface = Some(hide_surface);
        Box::new(s)
    }

    pub fn lighting(self, lighting: Lighting) -> (r: Box<Self>)
        ensures
            (*r == (Surface { lighting: r.lighting, ..self })),
            r.lighting == Some(lighting),
    {
        let mut s = self;
        s.lighting = Some(lighting);
        Box::new(s)
    }

    pub fn light_position(self, light_position: Position) -> (r: Box<Self>)
        ensures
            (*r == (Surface { light_position: r.light_position, ..self })),
            r.light_position == Some(light_position),
    {
        let mut s = self;
        s.light_position = Some(light_position);
        Box::new(s)
    }

    pub fn x_calendar(self, x_calendar: Calendar) -> (r: Box<Self>)
        ensures
            (*r == (Surface { x_calendar: r.x_calendar, ..self })),
            r.x_calendar == Some(x_calendar),
    {
        let mut s = self;
        s.x_calendar = Some(x_calendar);
        Box::new(s)
    }

    pub fn y_calendar(self, y_calendar: Calendar) -> (r: Box<Self>)
        ensures
            (*r == (Surface { y_calendar: r.y_calendar, ..self })),
            r.y_calendar == Some(y_calendar),
    {
        let mut s = self;
        s.y_calendar = Some(y_calendar);
        Box::new(s)
    }

    pub fn z_calendar(self, z_calendar: Calendar) -> (r: Box<Self>)
        ensures
            (*r == (Surface { z_calendar: r.z_calendar, ..self })),
            r.z_calendar == Some(z_calendar),
    {
        let mut s = self;
        s.z_calendar = Some(z_calendar);
        Box::new(s)
    }
}

impl<X, Y, Z> JsonSerialize for Surface<X, Y, Z> where X: JsonSerialize, Y: JsonSerialize, Z: JsonSerialize {
    open spec fn json_text(&self) -> Seq<char> {
        object_text(self.members())
    }

    fn to_json(&self) -> (r: String) {
        let mut w = ObjectWriter::new();
        let text = self.plot_type.to_json();
        w.member("type", text.as_str());
        proof {
            assert(w.members() =~= seq![("type"@, self.plot_type.json_text())]);
        }
        w.optional("x", &self.x);
        w.optional("y", &self.y);
        let text = self.z.to_json();
        w.member("z", text.as_str());
        w.optional("name", &self.name);
        w.optional("visible", &self.visible);
        w.optional("showlegend", &self.show_legend);
        w.optional("legendgroup", &self.legend_group);
        w.optional("opacity", &self.opacity);
        w.optional("surfacecolor", &self.surface_color);
        w.optional("text", &self.text);
        w.optional("hovertext", &self.hover_text);
        w.optional("hoverinfo", &self.hover_info);
        w.optional("hovertemplate", &self.hover_template);
        w.optional("autocolorscale", &self.auto_color_scale);
        w.optional("showscale", &self.show_scale);
        w.optional("reversescale", &self.reverse_scale);
        w.optional("cauto", &self.cauto);
        w.optional("cmin", &self.cmin);
        w.optional("cmax", &self.cmax);
        w.optional("cmid", &self.cmid);
        w.optional("connectgaps", &self.connect_gaps);
        w.optional("contours", &self.contours);
        w.optional("hidesurface", &self.hide_surface);
        w.optional("lighting", &self.lighting);
        w.optional("lightposition", &self.light_position);
        w.optional("xcalendar", &self.x_calendar);
        w.optional("ycalendar", &self.y_calendar);
        w.optional("zcalendar", &self.z_calendar);
        w.finish()
    }
}

} // verus!
