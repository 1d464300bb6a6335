//! Mesh3D: a 3D mesh given by its vertices and triangles.
use vstd::prelude::*;

use crate::color::{Color, ColorWrapper};
use crate::common::{Calendar, Dim, HoverInfo, Orientation, PlotType, Visible};
use crate::json::{json_string, object_text, optional_member, quoted, JsonSerialize, ObjectWriter};
use crate::number::{within, Decimal};
use crate::private::{
    colors_of, copy_iterable_to_vec, is_colors, is_scalar_text, is_scalars, is_texts, is_vector_text,
    owned_string_vector, scalars_of, str_views, to_color_array, to_num_or_string_wrapper, AsStr,
    NumOrString, NumOrStringWrapper, TruthyEnum,
};

verus! {

/// The source of a mesh's `intensity` values.
#[derive(Clone, Copy, Debug, PartialEq, Eq, Structural)]
pub enum IntensityMode {
    Vertex,
    Cell,
}

impl IntensityMode {
    /// The name the schema gives this option.
    pub open spec fn wire_name(&self) -> Seq<char> {
        match self {
            IntensityMode::Vertex => "vertex"@,
            IntensityMode::Cell => "cell"@,
        }
    }

    pub fn as_str(&self) -> (r: &'static str)
        ensures
            r@ == self.wire_name(),
    {
        match self {
            IntensityMode::Vertex => "vertex",
            IntensityMode::Cell => "cell",
        }
    }
}

impl JsonSerialize for IntensityMode {
    open spec fn json_text(&self) -> Seq<char> {
        quoted(self.wire_name())
    }

    fn to_json(&self) -> (r: String) {
        json_string(self.as_str())
    }
}

/// The axis perpendicular to the surface of a Delaunay triangulation.
#[derive(Clone, Copy, Debug, PartialEq, Eq, Structural)]
pub enum DelaunayAxis {
    X,
    Y,
    Z,
}

impl DelaunayAxis {
    /// The name the schema gives this option.
    pub open spec fn wire_name(&self) -> Seq<char> {
        match self {
            DelaunayAxis::X => "x"@,
            DelaunayAxis::Y => "y"@,
            DelaunayAxis::Z => "z"@,
        }
    }

    pub fn as_str(&self) -> (r: &'static str)
        ensures
            r@ == self.wire_name(),
    {
        match self {
            DelaunayAxis::X => "x",
            DelaunayAxis::Y => "y",
            DelaunayAxis::Z => "z",
        }
    }
}

impl JsonSerialize for DelaunayAxis {
    open spec fn json_text(&self) -> Seq<char> {
        quoted(self.wire_name())
    }

    fn to_json(&self) -> (r: String) {
        json_string(self.as_str())
    }
}

/// The contour lines drawn on hover.
#[derive(Clone, Debug)]
pub struct Contour {
    pub color: Option<ColorWrapper>,
    pub show: Option<bool>,
    pub width: Option<usize>,
}

impl Contour {
    /// The members that this value serializes to, in order; absent fields are left out.
    pub open spec fn members(&self) -> Seq<(Seq<char>, Seq<char>)> {
        Seq::empty()
            + optional_member("color"@, self.color)
            + optional_member("show"@, self.show)
            + optional_member("width"@, self.width)
    }

    /// Whether no optional field is set.
    pub open spec fn is_blank(&self) -> bool {
        &&& self.color is None
        &&& self.show is None
        &&& self.width is None
    }

    /// A contour with no field set.
    pub fn new() -> (r: Box<Self>)
        ensures
            r.is_blank(),
    {
        Box::new(
            Contour {
                color: None,
                show: None,
                width: None,
            },
        )
    }

    /// Sets the color of the contour lines.
    pub fn color<C: Color>(self, color: C) -> (r: Box<Self>)
        ensures
            (*r == (Contour { color: r.color, ..self })),
            r.color is Some,
            r.color->Some_0@ == color.color_view(),
    {
        let mut s = self;
        s.color = Some(color.to_color());
        Box::new(s)
    }

    /// Sets whether or not dynamic contours are shown on hover.
    pub fn show(self, show: bool) -> (r: Box<Self>)
        ensures
            (*r == (Contour { show: r.show, ..self })),
            r.show == Some(show),
    {
        let mut s = self;
        s.show = Some(show);
        Box::new(s)
    }

    /// Sets the width of the contour lines, from 1 to 16.
    pub fn width(self, width: usize) -> (r: Box<Self>)
        requires
            1 <= width <= 16,
        ensures
            (*r == (Contour { width: r.width, ..self })),
            r.width == Some(width),
    {
        let mut s = self;
        s.width = Some(width);
        Box::new(s)
    }
}

impl JsonSerialize for Contour {
    open spec fn json_text(&self) -> Seq<char> {
        object_text(self.members())
    }

    fn to_json(&self) -> (r: String) {
        let mut w = ObjectWriter::new();
        w.optional("color", &self.color);
        w.optional("show", &self.show);
        w.optional("width", &self.width);
        proof {
            assert(w.members() == self.members());
        }
        w.finish()
    }
}

/// How light falls on a mesh.
#[derive(Clone, Debug)]
pub struct Lighting {
    pub ambient: Option<Decimal>,
    pub diffuse: Option<Decimal>,
    pub face_normals_epsilon: Option<Decimal>,
    pub fresnel: Option<Decimal>,
    pub roughness: Option<Decimal>,
    pub specular: Option<Decimal>,
    pub vertex_normals_epsilon: Option<Decimal>,
}

impl Lighting {
    /// The members that this value serializes to, in order; absent fields are left out.
    pub open spec fn members(&self) -> Seq<(Seq<char>, Seq<char>)> {
        Seq::empty()
            + optional_member("ambient"@, self.ambient)
            + optional_member("diffuse"@, self.diffuse)
            + optional_member("facenormalsepsilon"@, self.face_normals_epsilon)
            + optional_member("fresnel"@, self.fresnel)
            + optional_member("roughness"@, self.roughness)
            + optional_member("specular"@, self.specular)
            + optional_member("vertexnormalsepsilon"@, self.vertex_normals_epsilon)
    }

    /// Whether no optional field is set.
    pub open spec fn is_blank(&self) -> bool {
        &&& self.ambient is None
        &&& self.diffuse is None
        &&& self.face_normals_epsilon is None
        &&& self.fresnel is None
        &&& self.roughness is None
        &&& self.specular is None
        &&& self.vertex_normals_epsilon is None
    }

    /// Lighting with no field set.
    pub fn new() -> (r: Box<Self>)
        ensures
            r.is_blank(),
    {
        Box::new(
            Lighting {
                ambient: None,
                diffuse: None,
                face_normals_epsilon: None,
                fresnel: None,
                roughness: None,
                specular: None,
                vertex_normals_epsilon: None,
            },
        )
    }

    /// Ambient light increases overall color visibility but can wash out the image. Lies between 0 and 1.
    pub fn ambient(self, ambient: Decimal) -> (r: Box<Self>)
        requires
            within(ambient, 0, 1),
        ensures
            (*r == (Lighting { ambient: r.ambient, ..self })),
            r.ambient == Some(ambient),
    {
        let mut s = self;
        s.ambient = Some(ambient);
        Box::new(s)
    }

    /// Represents the extent that incident rays are reflected in a range of angles. Lies between 0 and 1.
    pub fn diffuse(self, diffuse: Decimal) -> (r: Box<Self>)
        requires
            within(diffuse, 0, 1),
        ensures
            (*r == (Lighting { diffuse: r.diffuse, ..self })),
            r.diffuse == Some(diffuse),
    {
        let mut s = self;
        s.diffuse = Some(diffuse);
        Box::new(s)
    }

    /// Epsilon for face normals calculation avoids math issues arising from degenerate geometry. Lies between 0 and 1.
    pub fn facenormalsepsilon(self, face_normals_epsilon: Decimal) -> (r: Box<Self>)
        requires
            within(face_normals_epsilon, 0, 1),
        ensures
            (*r == (Lighting { face_normals_epsilon: r.face_normals_epsilon, ..self })),
            r.face_normals_epsilon == Some(face_normals_epsilon),
    {
        let mut s = self;
        s.face_normals_epsilon = Some(face_normals_epsilon);
        Box::new(s)
    }

    /// Represents the reflectance as a dependency of the viewing angle. Lies between 0 and 5.
    pub fn fresnel(self, fresnel: Decimal) -> (r: Box<Self>)
        requires
            within(fresnel, 0, 5),
        ensures
            (*r == (Lighting { fresnel: r.fresnel, ..self })),
            r.fresnel == Some(fresnel),
    {
        let mut s = self;
        s.fresnel = Some(fresnel);
        Box::new(s)
    }

    /// Alters specular reflection; the rougher the surface, the wider and less contrasty the shine. Lies between 0 and 1.
    pub fn roughness(self, roughness: Decimal) -> (r: Box<Self>)
        requires
            within(roughness, 0, 1),
        ensures
            (*r == (Lighting { roughness: r.roughness, ..self })),
            r.roughness == Some(roughness),
    {
        let mut s = self;
        s.roughness = Some(roughness);
        Box::new(s)
    }

    /// Represents the level that incident rays are reflected in a single direction, causing shine. Lies between 0 and 2.
    pub fn specular(self, specular: Decimal) -> (r: Box<Self>)
        requires
            within(specular, 0, 2),
        ensures
            (*r == (Lighting { specular: r.specular, ..self })),
            r.specular == Some(specular),
    {
        let mut s = self;
        s.specular = Some(specular);
        Box::new(s)
    }

    /// Epsilon for vertex normals calculation avoids math issues arising from degenerate geometry. Lies between 0 and 1.
    pub fn vertexnormalsepsilon(self, vertex_normals_epsilon: Decimal) -> (r: Box<Self>)
        requires
            within(vertex_normals_epsilon, 0, 1),
        ensures
            (*r == (Lighting { vertex_normals_epsilon: r.vertex_normals_epsilon, ..self })),
            r.vertex_normals_epsilon == Some(vertex_normals_epsilon),
    {
        let mut s = self;
        s.vertex_normals_epsilon = Some(vertex_normals_epsilon);
        Box::new(s)
    }
}

impl JsonSerialize for Lighting {
    open spec fn json_text(&self) -> Seq<char> {
        object_text(self.members())
    }

    fn to_json(&self) -> (r: String) {
        let mut w = ObjectWriter::new();
        w.optional("ambient", &self.ambient);
        w.optional("diffuse", &self.diffuse);
        w.optional("facenormalsepsilon", &self.face_normals_epsilon);
        w.optional("fresnel", &self.fresnel);
        w.optional("roughness", &self.roughness);
        w.optional("specular", &self.specular);
        w.optional("vertexnormalsepsilon", &self.vertex_normals_epsilon);
        proof {
            assert(w.members() == self.members());
        }
        w.finish()
    }
}

/// Where the light source stands.
#[derive(Clone, Debug)]
pub struct LightPosition {
    pub x: Option<Vec<Decimal>>,
    pub y: Option<Vec<Decimal>>,
    pub z: Option<Vec<Decimal>>,
}

impl LightPosition {
    /// The members that this value serializes to, in order; absent fields are left out.
    pub open spec fn members(&self) -> Seq<(Seq<char>, Seq<char>)> {
        Seq::empty()
            + optional_member("x"@, self.x)
            + optional_member("y"@, self.y)
            + optional_member("z"@, self.z)
    }

    /// Whether no optional field is set.
    pub open spec fn is_blank(&self) -> bool {
        &&& self.x is None
        &&& self.y is None
        &&& self.z is None
    }

    /// A light position with no coordinate set.
    pub fn new() -> (r: Box<Self>)
        ensures
            r.is_blank(),
    {
        Box::new(
            LightPosition {
                x: None,
                y: None,
                z: None,
            },
        )
    }

    /// Numeric vector, representing the X coordinate for each vertex; each lies between -100000 and 100000.
    pub fn x(self, x: Vec<Decimal>) -> (r: Box<Self>)
        requires
            forall|i: int| 0 <= i < x@.len() ==> within(#[trigger] x@[i], -100000, 100000),
        ensures
            (*r == (LightPosition { x: r.x, ..self })),
            r.x == Some(x),
    {
        let mut s = self;
        s.x = Some(x);
        Box::new(s)
    }

    /// Numeric vector, representing the Y coordinate for each vertex; each lies between -100000 and 100000.
    pub fn y(self, y: Vec<Decimal>) -> (r: Box<Self>)
        requires
            forall|i: int| 0 <= i < y@.len() ==> within(#[trigger] y@[i], -100000, 100000),
        ensures
            (*r == (LightPosition { y: r.y, ..self })),
            r.y == Some(y),
    {
        let mut s = self;
        s.y = Some(y);
        Box::new(s)
    }

    /// Numeric vector, representing the Z coordinate for each vertex; each lies between -100000 and 100000.
    pub fn z(self, z: Vec<Decimal>) -> (r: Box<Self>)
        requires
            forall|i: int| 0 <= i < z@.len() ==> within(#[trigger] z@[i], -100000, 100000),
        ensures
            (*r == (LightPosition { z: r.z, ..self })),
            r.z == Some(z),
    {
        let mut s = self;
        s.z = Some(z);
        Box::new(s)
    }
}

impl JsonSerialize for LightPosition {
    open spec fn json_text(&self) -> Seq<char> {
        object_text(self.members())
    }

    fn to_json(&self) -> (r: String) {
        let mut w = ObjectWriter::new();
        w.optional("x", &self.x);
        w.optional("y", &self.y);
        w.optional("z", &self.z);
        proof {
            assert(w.members() == self.members());
        }
        w.finish()
    }
}

/// A 3D mesh trace.
#[derive(Clone, Debug)]
pub struct Mesh3D<X, Y, Z> {
    pub plot_type: PlotType,
    pub name: Option<String>,
    pub visible: Option<TruthyEnum<Visible>>,
    pub show_legend: Option<bool>,
    pub legend_rank: Option<usize>,
    pub legend_group: Option<String>,
    pub opacity: Option<Decimal>,
    pub ids: Option<Vec<String>>,
    pub x: Option<Vec<X>>,
    pub y: Option<Vec<Y>>,
    pub z: Option<Vec<Z>>,
    pub i: Option<Vec<usize>>,
    pub j: Option<Vec<usize>>,
    pub k: Option<Vec<usize>>,
    pub face_color: Option<Vec<ColorWrapper>>,
    pub intensity: Option<Vec<Decimal>>,
    pub intensity_mode: Option<IntensityMode>,
    pub vertex_color: Option<Vec<ColorWrapper>>,
    pub text: Option<Dim<String>>,
    pub hover_text: Option<Dim<String>>,
    pub hover_info: Option<HoverInfo>,
    pub hover_template: Option<Dim<String>>,
    pub x_hover_format: Option<String>,
    pub y_hover_format: Option<String>,
    pub meta: Option<NumOrStringWrapper>,
    pub custom_data: Option<Vec<NumOrStringWrapper>>,
    pub scene: Option<String>,
    pub color_axis: Option<String>,
    pub color: Option<ColorWrapper>,
    pub color_bar_orientation: Option<Orientation>,
    pub auto_color_scale: Option<bool>,
    pub show_scale: Option<bool>,
    pub reverse_scale: Option<bool>,
    pub z_hover_format: Option<String>,
    pub cauto: Option<bool>,
    pub cmax: Option<Decimal>,
    pub cmid: Option<Decimal>,
    pub cmin: Option<Decimal>,
    pub alpha_hull: Option<Decimal>,
    pub delaunay_axis: Option<DelaunayAxis>,
    pub contour: Option<Contour>,
    pub flat_shading: Option<bool>,
    pub lighting: Option<Lighting>,
    pub light_position: Option<LightPosition>,
    pub x_calendar: Option<Calendar>,
    pub y_calendar: Option<Calendar>,
    pub z_calendar: Option<Calendar>,
    pub ui_revision: Option<NumOrStringWrapper>,
}

impl<X, Y, Z> Mesh3D<X, Y, Z> where X: JsonSerialize + Copy, Y: JsonSerialize + Copy, Z: JsonSerialize + Copy {
    /// The members that this value serializes to, in order; absent fields are left out.
    pub open spec fn members(&self) -> Seq<(Seq<char>, Seq<char>)> {
        seq![("type"@, self.plot_type.json_text())]
            + optional_member("name"@, self.name)
            + optional_member("visible"@, self.visible)
            + optional_member("showlegend"@, self.show_legend)
            + optional_member("legendrank"@, self.legend_rank)
            + optional_member("legendgroup"@, self.legend_group)
            + optional_member("opacity"@, self.opacity)
            + optional_member("ids"@, self.ids)
            + optional_member("x"@, self.x)
            + optional_member("y"@, self.y)
            + optional_member("z"@, self.z)
            + optional_member("i"@, self.i)
            + optional_member("j"@, self.j)
            + optional_member("k"@, self.k)
            + optional_member("facecolor"@, self.face_color)
            + optional_member("intensity"@, self.intensity)
            + optional_member("intensitymode"@, self.intensity_mode)
            + optional_member("vertexcolor"@, self.vertex_color)
            + optional_member("text"@, self.text)
            + optional_member("hovertext"@, self.hover_text)
            + optional_member("hoverinfo"@, self.hover_info)
            + optional_member("hovertemplate"@, self.hover_template)
            + optional_member("xhoverformat"@, self.x_hover_format)
            + optional_member("yhoverformat"@, self.y_hover_format)
            + optional_member("meta"@, self.meta)
            + optional_member("customdata"@, self.custom_data)
            + optional_member("scene"@, self.scene)
            + optional_member("coloraxis"@, self.color_axis)
            + optional_member("color"@, self.color)
            + optional_member("colorbar_orientation"@, self.color_bar_orientation)
            + optional_member("autocolorscale"@, self.auto_color_scale)
            + optional_member("showscale"@, self.show_scale)
            + optional_member("reversescale"@, self.reverse_scale)
            + optional_member("zhoverformat"@, self.z_hover_format)
            + optional_member("cauto"@, self.cauto)
            + optional_member("cmax"@, self.cmax)
            + optional_member("cmid"@, self.cmid)
            + optional_member("cmin"@, self.cmin)
            + optional_member("alphahull"@, self.alpha_hull)
            + optional_member("delaunayaxis"@, self.delaunay_axis)
            + optional_member("contour"@, self.contour)
            + optional_member("flatshading"@, self.flat_shading)
            + optional_member("lighting"@, self.lighting)
            + optional_member("lightposition"@, self.light_position)
            + optional_member("xcalendar"@, self.x_calendar)
            + optional_member("ycalendar"@, self.y_calendar)
            + optional_member("zcalendar"@, self.z_calendar)
            + optional_member("uirevision"@, self.ui_revision)
    }

    /// Whether no optional field is set.
    pub open spec fn is_blank(&self) -> bool {
        &&& self.name is None
        &&& self.visible is None
        &&& self.show_legend is None
        &&& self.legend_rank is None
        &&& self.legend_group is None
        &&& self.opacity is None
        &&& self.ids is None
        &&& self.face_color is None
        &&& self.intensity is None
        &&& self.intensity_mode is None
        &&& self.vertex_color is None
        &&& self.text is None
        &&& self.hover_text is None
        &&& self.hover_info is None
        &&& self.hover_template is None
        &&& self.x_hover_format is None
        &&& self.y_hover_format is None
        &&& self.meta is None
        &&& self.custom_data is None
        &&& self.scene is None
        &&& self.color_axis is None
        &&& self.color is None
        &&& self.color_bar_orientation is None
        &&& self.auto_color_scale is None
        &&& self.show_scale is None
        &&& self.reverse_scale is None
        &&& self.z_hover_format is None
        &&& self.cauto is None
        &&& self.cmax is None
        &&& self.cmid is None
        &&& self.cmin is None
        &&& self.alpha_hull is None
        &&& self.delaunay_axis is None
        &&& self.contour is None
        &&& self.flat_shading is None
        &&& self.lighting is None
        &&& self.light_position is None
        &&& self.x_calendar is None
        &&& self.y_calendar is None
        &&& self.z_calendar is None
        &&& self.ui_revision is None
    }

    /// A mesh with the given vertex coordinates and triangle vertex indices, and no other field set.
    pub fn new(x: &[X], y: &[Y], z: &[Z], i: &[usize], j: &[usize], k: &[usize]) -> (r: Box<Self>)
        ensures
            r.plot_type == PlotType::Mesh3D,
            r.x is Some && r.x->Some_0@ == x@,
            r.y is Some && r.y->Some_0@ == y@,
            r.z is Some && r.z->Some_0@ == z@,
            r.i is Some && r.i->Some_0@ == i@,
            r.j is Some && r.j->Some_0@ == j@,
            r.k is Some && r.k->Some_0@ == k@,
            r.is_blank(),
    {
        let x = copy_iterable_to_vec(x);
        let y = copy_iterable_to_vec(y);
        let z = copy_iterable_to_vec(z);
        let i = copy_iterable_to_vec(i);
        let j = copy_iterable_to_vec(j);
        let k = copy_iterable_to_vec(k);
        Box::new(
            Mesh3D {
                plot_type: PlotType::Mesh3D,
                name: None,
                visible: None,
                show_legend: None,
                legend_rank: None,
                legend_group: None,
                opacity: None,
                ids: None,
                x: Some(x),
                y: Some(y),
                z: Some(z),
                i: Some(i),
                j: Some(j),
                k: Some(k),
                face_color: None,
                intensity: None,
                intensity_mode: None,
                vertex_color: None,
                text: None,
                hover_text: None,
                hover_info: None,
                hover_template: None,
                x_hover_format: None,
                y_hover_format: None,
                meta: None,
                custom_data: None,
                scene: None,
                color_axis: None,
                color: None,
                color_bar_orientation: None,
                auto_color_scale: None,
                show_scale: None,
                reverse_scale: None,
                z_hover_format: None,
                cauto: None,
                cmax: None,
                cmid: None,
                cmin: None,
                alpha_hull: None,
                delaunay_axis: None,
                contour: None,
                flat_shading: None,
                lighting: None,
                light_position: None,
                x_calendar: None,
                y_calendar: None,
                z_calendar: None,
                ui_revision: None,
            },
        )
    }

    /// Sets the trace name, which appears as the legend item and on hover.
    pub fn name(self, name: &str) -> (r: Box<Self>)
        ensures
            (*r == (Mesh3D { name: r.name, ..self })),
            r.name is Some,
            r.name->Some_0@ == name@,
    {
        let mut s = self;
        s.name = Some(String::from_str(name));
        Box::new(s)
    }

    /// Determines whether or not this trace is visible; `Visible::LegendOnly` shows it only in the legend.
    pub fn visible(self, visible: Visible) -> (r: Box<Self>)
        ensures
            (*r == (Mesh3D { visible: r.visible, ..self })),
            (r.visible == Some(TruthyEnum { e: visible })),
    {
        let mut s = self;
        s.visible = Some(TruthyEnum { e: visible });
        Box::new(s)
    }

    /// Determines whether or not an item corresponding to this trace is shown in the legend.
    pub fn show_legend(self, show_legend: bool) -> (r: Box<Self>)
        ensures
            (*r == (Mesh3D { show_legend: r.show_legend, ..self })),
            r.show_legend == Some(show_legend),
    {
        let mut s = self;
        s.show_legend = Some(show_legend);
        Box::new(s)
    }

    /// Sets the legend rank for this trace; items with smaller ranks come first.
    pub fn legend_rank(self, legend_rank: usize) -> (r: Box<Self>)
        ensures
            (*r == (Mesh3D { legend_rank: r.legend_rank, ..self })),
            r.legend_rank == Some(legend_rank),
    {
        let mut s = self;
        s.legend_rank = Some(legend_rank);
        Box::new(s)
    }

    /// Sets the legend group for this trace.
    pub fn legend_group(self, legend_group: &str) -> (r: Box<Self>)
        ensures
            (*r == (Mesh3D { legend_group: r.legend_group, ..self })),
            r.legend_group is Some,
            r.legend_group->Some_0@ == legend_group@,
    {
        let mut s = self;
        s.legend_group = Some(String::from_str(legend_group));
        Box::new(s)
    }

    /// Sets the opacity of the trace.
    pub fn opacity(self, opacity: Decimal) -> (r: Box<Self>)
        ensures
            (*r == (Mesh3D { opacity: r.opacity, ..self })),
            r.opacity == Some(opacity),
    {
        let mut s = self;
        s.opacity = Some(opacity);
        Box::new(s)
    }

    /// Assigns id labels to each datum.
    pub fn ids<S: AsStr>(self, ids: Vec<S>) -> (r: Box<Self>)
        ensures
            (*r == (Mesh3D { ids: r.ids, ..self })),
            is_texts(r.ids, str_views(ids@)),
    {
        let mut s = self;
        s.ids = Some(owned_string_vector(ids));
        Box::new(s)
    }

    /// Sets the color of each face.
    pub fn facecolor<C: Color>(self, face_color: Vec<C>) -> (r: Box<Self>)
        ensures
            (*r == (Mesh3D { face_color: r.face_color, ..self })),
            is_colors(r.face_color, colors_of(face_color@)),
    {
        let mut s = self;
        s.face_color = Some(to_color_array(face_color));
        Box::new(s)
    }

    /// Sets the intensity values for vertices or cells as defined by `intensitymode`.
    pub fn intensity(self, intensity: Vec<Decimal>) -> (r: Box<Self>)
        ensures
            (*r == (Mesh3D { intensity: r.intensity, ..self })),
            r.intensity == Some(intensity),
    {
        let mut s = self;
        s.intensity = Some(intensity);
        Box::new(s)
    }

    /// Determines the source of `intensity` values.
    pub fn intensitymode(self, intensity_mode: IntensityMode) -> (r: Box<Self>)
        ensures
            (*r == (Mesh3D { intensity_mode: r.intensity_mode, ..self })),
            r.intensity_mode == Some(intensity_mode),
    {
        let mut s = self;
        s.intensity_mode = Some(intensity_mode);
        Box::new(s)
    }

    /// Sets the color of each vertex.
    pub fn vertexcolor<C: Color>(self, vertex_color: Vec<C>) -> (r: Box<Self>)
        ensures
            (*r == (Mesh3D { vertex_color: r.vertex_color, ..self })),
            is_colors(r.vertex_color, colors_of(vertex_color@)),
    {
        let mut s = self;
        s.vertex_color = Some(to_color_array(vertex_color));
        Box::new(s)
    }

    /// Sets one text element for all the (x, y, z) triplets.
    pub fn text(self, text: &str) -> (r: Box<Self>)
        ensures
            (*r == (Mesh3D { text: r.text, ..self })),
            is_scalar_text(r.text, text@),
    {
        let mut s = self;
        s.text = Some(Dim::Scalar(String::from_str(text)));
        Box::new(s)
    }

    /// Sets text elements mapped in order to the (x, y, z) triplets.
    pub fn text_array<S: AsStr>(self, text: Vec<S>) -> (r: Box<Self>)
        ensures
            (*r == (Mesh3D { text: r.text, ..self })),
            is_vector_text(r.text, str_views(text@)),
    {
        let mut s = self;
        s.text = Some(Dim::Vector(owned_string_vector(text)));
        Box::new(s)
    }

    /// Sets one hover text element for all the data points.
    pub fn hover_text(self, hover_text: &str) -> (r: Box<Self>)
        ensures
            (*r == (Mesh3D { hover_text: r.hover_text, ..self })),
            is_scalar_text(r.hover_text, hover_text@),
    {
        let mut s = self;
        s.hover_text = Some(Dim::Scalar(String::from_str(hover_text)));
        Box::new(s)
    }

    /// Sets hover text elements mapped in order to the data points.
    pub fn hover_text_array<S: AsStr>(self, hover_text: Vec<S>) -> (r: Box<Self>)
        ensures
            (*r == (Mesh3D { hover_text: r.hover_text, ..self })),
            is_vector_text(r.hover_text, str_views(hover_text@)),
    {
        let mut s = self;
        s.hover_text = Some(Dim::Vector(owned_string_vector(hover_text)));
        Box::new(s)
    }

    /// Determines which trace information appear on hover.
    pub fn hover_info(self, hover_info: HoverInfo) -> (r: Box<Self>)
        ensures
            (*r == (Mesh3D { hover_info: r.hover_info, ..self })),
            r.hover_info == Some(hover_info),
    {
        let mut s = self;
        s.hover_info = Some(hover_info);
        Box::new(s)
    }

    /// Template string used for rendering the information that appear on hover box.
    pub fn hover_template(self, hover_template: &str) -> (r: Box<Self>)
        ensures
            (*r == (Mesh3D { hover_template: r.hover_template, ..self })),
            is_scalar_text(r.hover_template, hover_template@),
    {
        let mut s = self;
        s.hover_template = Some(Dim::Scalar(String::from_str(hover_template)));
        Box::new(s)
    }

    /// Template strings for the hover box, one per data point.
    pub fn hover_template_array<S: AsStr>(self, hover_template: Vec<S>) -> (r: Box<Self>)
        ensures
            (*r == (Mesh3D { hover_template: r.hover_template, ..self })),
            is_vector_text(r.hover_template, str_views(hover_template@)),
    {
        let mut s = self;
        s.hover_template = Some(Dim::Vector(owned_string_vector(hover_template)));
        Box::new(s)
    }

    /// Sets the hover text formatting rule for `x`.
    pub fn xhoverformat(self, x_hover_format: &str) -> (r: Box<Self>)
        ensures
            (*r == (Mesh3D { x_hover_format: r.x_hover_format, ..self })),
            r.x_hover_format is Some,
            r.x_hover_format->Some_0@ == x_hover_format@,
    {
        let mut s = self;
        s.x_hover_format = Some(String::from_str(x_hover_format));
        Box::new(s)
    }

    /// Sets the hover text formatting rule for `y`.
    pub fn yhoverformat(self, y_hover_format: &str) -> (r: Box<Self>)
        ensures
            (*r == (Mesh3D { y_hover_format: r.y_hover_format, ..self })),
            r.y_hover_format is Some,
            r.y_hover_format->Some_0@ == y_hover_format@,
    {
        let mut s = self;
        s.y_hover_format = Some(String::from_str(y_hover_format));
        Box::new(s)
    }

    /// Assigns extra meta information associated with this trace.
    pub fn meta<V: NumOrString>(self, meta: V) -> (r: Box<Self>)
        ensures
            (*r == (Mesh3D { meta: r.meta, ..self })),
            r.meta is Some,
            r.meta->Some_0@ == meta.num_or_string_view(),
    {
        let mut s = self;
        s.meta = Some(meta.to_num_or_string());
        Box::new(s)
    }

    /// Assigns extra data to each datum.
    pub fn custom_data<V: NumOrString>(self, custom_data: Vec<V>) -> (r: Box<Self>)
        ensures
            (*r == (Mesh3D { custom_data: r.custom_data, ..self })),
            is_scalars(r.custom_data, scalars_of(custom_data@)),
    {
        let mut s = self;
        s.custom_data = Some(to_num_or_string_wrapper(custom_data));
        Box::new(s)
    }

    /// Sets a reference between this trace's 3D coordinate system and a 3D scene.
    pub fn scene(self, scene: &str) -> (r: Box<Self>)
        ensures
            (*r == (Mesh3D { scene: r.scene, ..self })),
            r.scene is Some,
            r.scene->Some_0@ == scene@,
    {
        let mut s = self;
        s.scene = Some(String::from_str(scene));
        Box::new(s)
    }

    /// Sets a reference to a shared color axis.
    pub fn coloraxis(self, color_axis: &str) -> (r: Box<Self>)
        ensures
            (*r == (Mesh3D { color_axis: r.color_axis, ..self })),
            r.color_axis is Some,
            r.color_axis->Some_0@ == color_axis@,
    {
        let mut s = self;
        s.color_axis = Some(String::from_str(color_axis));
        Box::new(s)
    }

    /// Sets the color of the whole mesh.
    pub fn color<C: Color>(self, color: C) -> (r: Box<Self>)
        ensures
            (*r == (Mesh3D { color: r.color, ..self })),
            r.color is Some,
            r.color->Some_0@ == color.color_view(),
    {
        let mut s = self;
        s.color = Some(color.to_color());
        Box::new(s)
    }

    /// Sets the orientation of the color bar.
    pub fn orientation(self, color_bar_orientation: Orientation) -> (r: Box<Self>)
        ensures
            (*r == (Mesh3D { color_bar_orientation: r.color_bar_orientation, ..self })),
            r.color_bar_orientation == Some(color_bar_orientation),
    {
        let mut s = self;
        s.color_bar_orientation = Some(color_bar_orientation);
        Box::new(s)
    }

    /// Determines whether the colorscale is a default palette or the one set by `colorscale`.
    pub fn auto_color_scale(self, auto_color_scale: bool) -> (r: Box<Self>)
        ensures
            (*r == (Mesh3D { auto_color_scale: r.auto_color_scale, ..self })),
            r.auto_color_scale == Some(auto_color_scale),
    {
        let mut s = self;
        s.auto_color_scale = Some(auto_color_scale);
        Box::new(s)
    }

    /// Determines whether or not a colorbar is displayed for this trace.
    pub fn show_scale(self, show_scale: bool) -> (r: Box<Self>)
        ensures
            (*r == (Mesh3D { show_scale: r.show_scale, ..self })),
            r.show_scale == Some(show_scale),
    {
        let mut s = self;
        s.show_scale = Some(show_scale);
        Box::new(s)
    }

    /// Reverses the color mapping if true.
    pub fn reverse_scale(self, reverse_scale: bool) -> (r: Box<Self>)
        ensures
            (*r == (Mesh3D { reverse_scale: r.reverse_scale, ..self })),
            r.reverse_scale == Some(reverse_scale),
    {
        let mut s = self;
        s.reverse_scale = Some(reverse_scale);
        Box::new(s)
    }

    /// Sets the hover text formatting rule for `z`.
    pub fn zhoverformat(self, z_hover_format: &str) -> (r: Box<Self>)
        ensures
            (*r == (Mesh3D { z_hover_format: r.z_hover_format, ..self })),
            r.z_hover_format is Some,
            r.z_hover_format->Some_0@ == z_hover_format@,
    {
        let mut s = self;
        s.z_hover_format = Some(String::from_str(z_hover_format));
        Box::new(s)
    }

    /// Determines whether or not the color domain is computed with respect to the input data.
    pub fn cauto(self, cauto: bool) -> (r: Box<Self>)
        ensures
            (*r == (Mesh3D { cauto: r.cauto, ..self })),
            r.cauto == Some(cauto),
    {
        let mut s = self;
        s.cauto = Some(cauto);
        Box::new(s)
    }

    /// Sets the upper bound of the color domain.
    pub fn cmax(self, cmax: Decimal) -> (r: Box<Self>)
        ensures
            (*r == (Mesh3D { cmax: r.cmax, ..self })),
            r.cmax == Some(cmax),
    {
        let mut s = self;
        s.cmax = Some(cmax);
        Box::new(s)
    }

    /// Sets the mid-point of the color domain.
    pub fn cmid(self, cmid: Decimal) -> (r: Box<Self>)
        ensures
            (*r == (Mesh3D { cmid: r.cmid, ..self })),
            r.cmid == Some(cmid),
    {
        let mut s = self;
        s.cmid = Some(cmid);
        Box::new(s)
    }

    /// Sets the lower bound of the color domain.
    pub fn cmin(self, cmin: Decimal) -> (r: Box<Self>)
        ensures
            (*r == (Mesh3D { cmin: r.cmin, ..self })),
            r.cmin == Some(cmin),
    {
        let mut s = self;
        s.cmin = Some(cmin);
        Box::new(s)
    }

    /// Determines how the mesh surface triangles are derived when `i`, `j`, `k` are not supplied.
    pub fn alphahull(self, alpha_hull: Decimal) -> (r: Box<Self>)
        ensures
            (*r == (Mesh3D { alpha_hull: r.alpha_hull, ..self })),
            r.alpha_hull == Some(alpha_hull),
    {
        let mut s = self;
        s.alpha_hull = Some(alpha_hull);
        Box::new(s)
    }

    /// Sets the Delaunay axis.
    pub fn delaunayaxis(self, delaunay_axis: DelaunayAxis) -> (r: Box<Self>)
        ensures
            (*r == (Mesh3D { delaunay_axis: r.delaunay_axis, ..self })),
            r.delaunay_axis == Some(delaunay_axis),
    {
        let mut s = self;
        s.delaunay_axis = Some(delaunay_axis);
        Box::new(s)
    }

    /// Sets the contour lines on hover.
    pub fn contour(self, contour: Contour) -> (r: Box<Self>)
        ensures
            (*r == (Mesh3D { contour: r.contour, ..self })),
            r.contour == Some(contour),
    {
        let mut s = self;
        s.contour = Some(contour);
        Box::new(s)
    }

    /// Determines whether or not normal smoothing is applied to the meshes.
    pub fn flatshading(self, flat_shading: bool) -> (r: Box<Self>)
        ensures
            (*r == (Mesh3D { flat_shading: r.flat_shading, ..self })),
            r.flat_shading == Some(flat_shading),
    {
        let mut s = self;
        s.flat_shading = Some(flat_shading);
        Box::new(s)
    }

    /// Sets the lighting of the mesh.
    pub fn lighting(self, lighting: Lighting) -> (r: Box<Self>)
        ensures
            (*r == (Mesh3D { lighting: r.lighting, ..self })),
            r.lighting == Some(lighting),
    {
        let mut s = self;
        s.lighting = Some(lighting);
        Box::new(s)
    }

    /// Sets the position of the light source.
    pub fn lightposition(self, light_position: LightPosition) -> (r: Box<Self>)
        ensures
            (*r == (Mesh3D { light_position: r.light_position, ..self })),
            r.light_position == Some(light_position),
    {
        let mut s = self;
        s.light_position = Some(light_position);
        Box::new(s)
    }

    /// Sets the calendar system to use with `x` date data.
    pub fn x_calendar(self, x_calendar: Calendar) -> (r: Box<Self>)
        ensures
            (*r == (Mesh3D { x_calendar: r.x_calendar, ..self })),
            r.x_calendar == Some(x_calendar),
    {
        let mut s = self;
        s.x_calendar = Some(x_calendar);
        Box::new(s)
    }

    /// Sets the calendar system to use with `y` date data.
    pub fn y_calendar(self, y_calendar: Calendar) -> (r: Box<Self>)
        ensures
            (*r == (Mesh3D { y_calendar: r.y_calendar, ..self })),
            r.y_calendar == Some(y_calendar),
    {
        let mut s = self;
        s.y_calendar = Some(y_calendar);
        Box::new(s)
    }

    /// Sets the calendar system to use with `z` date data.
    pub fn z_calendar(self, z_calendar: Calendar) -> (r: Box<Self>)
        ensures
            (*r == (Mesh3D { z_calendar: r.z_calendar, ..self })),
            r.z_calendar == Some(z_calendar),
    {
        let mut s = self;
        s.z_calendar = Some(z_calendar);
        Box::new(s)
    }

    /// Controls persistence of some user-driven changes to the trace.
    pub fn uirevision<V: NumOrString>(self, ui_revision: V) -> (r: Box<Self>)
        ensures
            (*r == (Mesh3D { ui_revision: r.ui_revision, ..self })),
            r.ui_revision is Some,
            r.ui_revision->Some_0@ == ui_revision.num_or_string_view(),
    {
        let mut s = self;
        s.ui_revision = Some(ui_revision.to_num_or_string());
        Box::new(s)
    }
}

impl<X, Y, Z> JsonSerialize for Mesh3D<X, Y, Z> where X: JsonSerialize + Copy, Y: JsonSerialize + Copy, Z: JsonSerialize + Copy {
    open spec fn json_text(&self) -> Seq<char> {
        object_text(self.members())
    }

    fn to_json(&self) -> (r: String) {
        let mut w = ObjectWriter::new();
        let text = self.plot_type.to_json();
        w.member("type", text.as_str());
        proof {
            assert(w.members() =~= seq![("type"@, self.plot_type.json_text())]);
        }
        w.optional("name", &self.name);
        w.optional("visible", &self.visible);
        w.optional("showlegend", &self.show_legend);
        w.optional("legendrank", &self.legend_rank);
        w.optional("legendgroup", &self.legend_group);
        w.optional("opacity", &self.opacity);
        w.optional("ids", &self.ids);
        w.optional("x", &self.x);
        w.optional("y", &self.y);
        w.optional("z", &self.z);
        w.optional("i", &self.i);
        w.optional("j", &self.j);
        w.optional("k", &self.k);
        w.optional("facecolor", &self.face_color);
        w.optional("intensity", &self.intensity);
        w.optional("intensitymode", &self.intensity_mode);
        w.optional("vertexcolor", &self.vertex_color);
        w.optional("text", &self.text);
        w.optional("hovertext", &self.hover_text);
        w.optional("hoverinfo", &self.hover_info);
        w.optional("hovertemplate", &self.hover_template);
        w.optional("xhoverformat", &self.x_hover_format);
        w.optional("yhoverformat", &self.y_hover_format);
        w.optional("meta", &self.meta);
        w.optional("customdata", &self.custom_data);
        w.optional("scene", &self.scene);
        w.optional("coloraxis", &self.color_axis);
        w.optional("color", &self.color);
        w.optional("colorbar_orientation", &self.color_bar_orientation);
        w.optional("autocolorscale", &self.auto_color_scale);
        w.optional("showscale", &self.show_scale);
        w.optional("reversescale", &self.reverse_scale);
        w.optional("zhoverformat", &self.z_hover_format);
        w.optional("cauto", &self.cauto);
        w.optional("cmax", &self.cmax);
        w.optional("cmid", &self.cmid);
        w.optional("cmin", &self.cmin);
        w.optional("alphahull", &self.alpha_hull);
        w.optional("delaunayaxis", &self.delaunay_axis);
        w.optional("contour", &self.contour);
        w.optional("flatshading", &self.flat_shading);
        w.optional("lighting", &self.lighting);
        w.optional("lightposition", &self.light_position);
        w.optional("xcalendar", &self.x_calendar);
        w.optional("ycalendar", &self.y_calendar);
        w.optional("zcalendar", &self.z_calendar);
        w.optional("uirevision", &self.ui_revision);
        w.finish()
    }
}

} // verus!
