//! Values shared by the trace types: one-or-many values, and the schema's named options.
use vstd::prelude::*;

use crate::json::{array_text, element_texts, json_string, quoted, JsonSerialize};

verus! {

/// One value for every data point, or one value per data point.
#[derive(Clone, Debug)]
pub enum Dim<T> {
    Scalar(T),
    Vector(Vec<T>),
}

impl<T: JsonSerialize> JsonSerialize for Dim<T> {
    /// A scalar serializes as its value alone, a vector as an array of its values in order.
    open spec fn json_text(&self) -> Seq<char> {
        match self {
            Dim::Scalar(v) => v.json_text(),
            Dim::Vector(vs) => vs.json_text(),
        }
    }

    fn to_json(&self) -> (r: String) {
        match self {
            Dim::Scalar(v) => v.to_json(),
            Dim::Vector(vs) => vs.to_json(),
        }
    }
}

/// The chart type that a trace declares.
#[derive(Clone, Copy, Debug, PartialEq, Eq, Structural)]
pub enum PlotType {
    Scatter,
    Mesh3D,
    Surface,
}

impl PlotType {
    /// The name the schema gives this option.
    pub open spec fn wire_name(&self) -> Seq<char> {
        match self {
            PlotType::Scatter => "scatter"@,
            PlotType::Mesh3D => "mesh3d"@,
            PlotType::Surface => "surface"@,
        }
    }

    pub fn as_str(&self) -> (r: &'static str)
        ensures
            r@ == self.wire_name(),
    {
        match self {
            PlotType::Scatter => "scatter",
            PlotType::Mesh3D => "mesh3d",
            PlotType::Surface => "surface",
        }
    }
}

impl JsonSerialize for PlotType {
    open spec fn json_text(&self) -> Seq<char> {
        quoted(self.wire_name())
    }

    fn to_json(&self) -> (r: String) {
        json_string(self.as_str())
    }
}

/// Whether a trace is drawn, hidden, or shown only in the legend.
#[derive(Clone, Copy, Debug, PartialEq, Eq, Structural)]
pub enum Visible {
    True,
    False,
    LegendOnly,
}

impl Visible {
    /// The name the schema gives this option.
    pub open spec fn wire_name(&self) -> Seq<char> {
        match self {
            Visible::True => "true"@,
            Visible::False => "false"@,
            Visible::LegendOnly => "legendonly"@,
        }
    }

    pub fn as_str(&self) -> (r: &'static str)
        ensures
            r@ == self.wire_name(),
    {
        match self {
            Visible::True => "true",
            Visible::False => "false",
            Visible::LegendOnly => "legendonly",
        }
    }
}

impl JsonSerialize for Visible {
    open spec fn json_text(&self) -> Seq<char> {
        quoted(self.wire_name())
    }

    fn to_json(&self) -> (r: String) {
        json_string(self.as_str())
    }
}

/// How the points of a scatter trace are drawn.
#[derive(Clone, Copy, Debug, PartialEq, Eq, Structural)]
pub enum Mode {
    Lines,
    Markers,
    Text,
    LinesMarkers,
    LinesText,
    MarkersText,
    LinesMarkersText,
    NoMode,
}

impl Mode {
    /// The name the schema gives this option.
    pub open spec fn wire_name(&self) -> Seq<char> {
        match self {
            Mode::Lines => "lines"@,
            Mode::Markers => "markers"@,
            Mode::Text => "text"@,
            Mode::LinesMarkers => "lines+markers"@,
            Mode::LinesText => "lines+text"@,
            Mode::MarkersText => "markers+text"@,
            Mode::LinesMarkersText => "lines+markers+text"@,
            Mode::NoMode => "none"@,
        }
    }

    pub fn as_str(&self) -> (r: &'static str)
        ensures
            r@ == self.wire_name(),
    {
        match self {
            Mode::Lines => "lines",
            Mode::Markers => "markers",
            Mode::Text => "text",
            Mode::LinesMarkers => "lines+markers",
            Mode::LinesText => "lines+text",
            Mode::MarkersText => "markers+text",
            Mode::LinesMarkersText => "lines+markers+text",
            Mode::NoMode => "none",
        }
    }
}

impl JsonSerialize for Mode {
    open spec fn json_text(&self) -> Seq<char> {
        quoted(self.wire_name())
    }

    fn to_json(&self) -> (r: String) {
        json_string(self.as_str())
    }
}

/// Where a text label stands relative to its point.
#[derive(Clone, Copy, Debug, PartialEq, Eq, Structural)]
pub enum Position {
    TopLeft,
    TopCenter,
    TopRight,
    MiddleLeft,
    MiddleCenter,
    MiddleRight,
    BottomLeft,
    BottomCenter,
    BottomRight,
}

impl Position {
    /// The name the schema gives this option.
    pub open spec fn wire_name(&self) -> Seq<char> {
        match self {
            Position::TopLeft => "top left"@,
            Position::TopCenter => "top center"@,
            Position::TopRight => "top right"@,
            Position::MiddleLeft => "middle left"@,
            Position::MiddleCenter => "middle center"@,
            Position::MiddleRight => "middle right"@,
            Position::BottomLeft => "bottom left"@,
            Position::BottomCenter => "bottom center"@,
            Position::BottomRight => "bottom right"@,
        }
    }

    pub fn as_str(&self) -> (r: &'static str)
        ensures
            r@ == self.wire_name(),
    {
        match self {
            Position::TopLeft => "top left",
            Position::TopCenter => "top center",
            Position::TopRight => "top right",
            Position::MiddleLeft => "middle left",
            Position::MiddleCenter => "middle center",
            Position::MiddleRight => "middle right",
            Position::BottomLeft => "bottom left",
            Position::BottomCenter => "bottom center",
            Position::BottomRight => "bottom right",
        }
    }
}

impl JsonSerialize for Position {
    open spec fn json_text(&self) -> Seq<char> {
        quoted(self.wire_name())
    }

    fn to_json(&self) -> (r: String) {
        json_string(self.as_str())
    }
}

/// Which trace information appears on hover.
#[derive(Clone, Copy, Debug, PartialEq, Eq, Structural)]
pub enum HoverInfo {
    X,
    Y,
    Z,
    XAndY,
    XAndZ,
    YAndZ,
    XAndYAndZ,
    Text,
    Name,
    All,
    NoInfo,
    Skip,
}

impl HoverInfo {
    /// The name the schema gives this option.
    pub open spec fn wire_name(&self) -> Seq<char> {
        match self {
            HoverInfo::X => "x"@,
            HoverInfo::Y => "y"@,
            HoverInfo::Z => "z"@,
            HoverInfo::XAndY => "x+y"@,
            HoverInfo::XAndZ => "x+z"@,
            HoverInfo::YAndZ => "y+z"@,
            HoverInfo::XAndYAndZ => "x+y+z"@,
            HoverInfo::Text => "text"@,
            HoverInfo::Name => "name"@,
            HoverInfo::All => "all"@,
            HoverInfo::NoInfo => "none"@,
            HoverInfo::Skip => "skip"@,
        }
    }

    pub fn as_str(&self) -> (r: &'static str)
        ensures
            r@ == self.wire_name(),
    {
        match self {
            HoverInfo::X => "x",
            HoverInfo::Y => "y",
            HoverInfo::Z => "z",
            HoverInfo::XAndY => "x+y",
            HoverInfo::XAndZ => "x+z",
            HoverInfo::YAndZ => "y+z",
            HoverInfo::XAndYAndZ => "x+y+z",
            HoverInfo::Text => "text",
            HoverInfo::Name => "name",
            HoverInfo::All => "all",
            HoverInfo::NoInfo => "none",
            HoverInfo::Skip => "skip",
        }
    }
}

impl JsonSerialize for HoverInfo {
    open spec fn json_text(&self) -> Seq<char> {
        quoted(self.wire_name())
    }

    fn to_json(&self) -> (r: String) {
        json_string(self.as_str())
    }
}

/// A stacking or color bar direction.
#[derive(Clone, Copy, Debug, PartialEq, Eq, Structural)]
pub enum Orientation {
    Vertical,
    Horizontal,
}

impl Orientation {
    /// The name the schema gives this option.
    pub open spec fn wire_name(&self) -> Seq<char> {
        match self {
            Orientation::Vertical => "v"@,
            Orientation::Horizontal => "h"@,
        }
    }

    pub fn as_str(&self) -> (r: &'static str)
        ensures
            r@ == self.wire_name(),
    {
        match self {
            Orientation::Vertical => "v",
            Orientation::Horizontal => "h",
        }
    }
}

impl JsonSerialize for Orientation {
    open spec fn json_text(&self) -> Seq<char> {
        quoted(self.wire_name())
    }

    fn to_json(&self) -> (r: String) {
        json_string(self.as_str())
    }
}

/// How the values of a stack group are normalized.
#[derive(Clone, Copy, Debug, PartialEq, Eq, Structural)]
pub enum GroupNorm {
    Default,
    Fraction,
    Percent,
}

impl GroupNorm {
    /// The name the schema gives this option.
    pub open spec fn wire_name(&self) -> Seq<char> {
        match self {
            GroupNorm::Default => ""@,
            GroupNorm::Fraction => "fraction"@,
            GroupNorm::Percent => "percent"@,
        }
    }

    pub fn as_str(&self) -> (r: &'static str)
        ensures
            r@ == self.wire_name(),
    {
        match self {
            GroupNorm::Default => "",
            GroupNorm::Fraction => "fraction",
            GroupNorm::Percent => "percent",
        }
    }
}

impl JsonSerialize for GroupNorm {
    open spec fn json_text(&self) -> Seq<char> {
        quoted(self.wire_name())
    }

    fn to_json(&self) -> (r: String) {
        json_string(self.as_str())
    }
}

/// The area that a scatter trace fills.
#[derive(Clone, Copy, Debug, PartialEq, Eq, Structural)]
pub enum Fill {
    ToZeroY,
    ToZeroX,
    ToNextY,
    ToNextX,
    ToSelf,
    ToNext,
    NoFill,
}

impl Fill {
    /// The name the schema gives this option.
    pub open spec fn wire_name(&self) -> Seq<char> {
        match self {
            Fill::ToZeroY => "tozeroy"@,
            Fill::ToZeroX => "tozerox"@,
            Fill::ToNextY => "tonexty"@,
            Fill::ToNextX => "tonextx"@,
            Fill::ToSelf => "toself"@,
            Fill::ToNext => "tonext"@,
            Fill::NoFill => "none"@,
        }
    }

    pub fn as_str(&self) -> (r: &'static str)
        ensures
            r@ == self.wire_name(),
    {
        match self {
            Fill::ToZeroY => "tozeroy",
            Fill::ToZeroX => "tozerox",
            Fill::ToNextY => "tonexty",
            Fill::ToNextX => "tonextx",
            Fill::ToSelf => "toself",
            Fill::ToNext => "tonext",
            Fill::NoFill => "none",
        }
    }
}

impl JsonSerialize for Fill {
    open spec fn json_text(&self) -> Seq<char> {
        quoted(self.wire_name())
    }

    fn to_json(&self) -> (r: String) {
        json_string(self.as_str())
    }
}

/// The calendar system of date data.
#[derive(Clone, Copy, Debug, PartialEq, Eq, Structural)]
pub enum Calendar {
    Gregorian,
    Chinese,
    Coptic,
    DiscWorld,
    Ethiopian,
    Hebrew,
    Islamic,
    Julian,
    Mayan,
    Nanakshahi,
    Nepali,
    Persian,
    Jalali,
    Taiwan,
    Thai,
    Ummalqura,
}

impl Calendar {
    /// The name the schema gives this option.
    pub open spec fn wire_name(&self) -> Seq<char> {
        match self {
            Calendar::Gregorian => "gregorian"@,
            Calendar::Chinese => "chinese"@,
            Calendar::Coptic => "coptic"@,
            Calendar::DiscWorld => "discworld"@,
            Calendar::Ethiopian => "ethiopian"@,
            Calendar::Hebrew => "hebrew"@,
            Calendar::Islamic => "islamic"@,
            Calendar::Julian => "julian"@,
            Calendar::Mayan => "mayan"@,
            Calendar::Nanakshahi => "nanakshahi"@,
            Calendar::Nepali => "nepali"@,
            Calendar::Persian => "persian"@,
            Calendar::Jalali => "jalali"@,
            Calendar::Taiwan => "taiwan"@,
            Calendar::Thai => "thai"@,
            Calendar::Ummalqura => "ummalqura"@,
        }
    }

    pub fn as_str(&self) -> (r: &'static str)
        ensures
            r@ == self.wire_name(),
    {
        match self {
            Calendar::Gregorian => "gregorian",
            Calendar::Chinese => "chinese",
            Calendar::Coptic => "coptic",
            Calendar::DiscWorld => "discworld",
            Calendar::Ethiopian => "ethiopian",
            Calendar::Hebrew => "hebrew",
            Calendar::Islamic => "islamic",
            Calendar::Julian => "julian",
            Calendar::Mayan => "mayan",
            Calendar::Nanakshahi => "nanakshahi",
            Calendar::Nepali => "nepali",
            Calendar::Persian => "persian",
            Calendar::Jalali => "jalali",
            Calendar::Taiwan => "taiwan",
            Calendar::Thai => "thai",
            Calendar::Ummalqura => "ummalqura",
        }
    }
}

impl JsonSerialize for Calendar {
    open spec fn json_text(&self) -> Seq<char> {
        quoted(self.wire_name())
    }

    fn to_json(&self) -> (r: String) {
        json_string(self.as_str())
    }
}

/// A scalar serializes as its value alone; a vector as an array of its values, in order,
/// duplicates kept.
pub proof fn lemma_dim_text<T: JsonSerialize>(d: Dim<T>)
    ensures
        d is Scalar ==> d.json_text() == (d->Scalar_0).json_text(),
        d is Vector ==> d.json_text() == array_text(element_texts((d->Vector_0)@)),
{
}

} // verus!
