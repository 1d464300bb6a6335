//! Colors, each one either a number on a color scale or a color name.
use vstd::prelude::*;

use crate::json::{quoted, JsonSerialize};
use crate::number::Decimal;

verus! {

/// A color as it is written out: a color string, or a number on the color scale.
#[derive(Clone, Debug)]
pub enum ColorWrapper {
    S(String),
    F(Decimal),
}

/// What a `ColorWrapper` holds.
pub enum ColorView {
    S(Seq<char>),
    F(Decimal),
}

impl View for ColorWrapper {
    type V = ColorView;

    open spec fn view(&self) -> ColorView {
        match self {
            ColorWrapper::S(s) => ColorView::S(s@),
            ColorWrapper::F(d) => ColorView::F(*d),
        }
    }
}

/// The JSON text of a color: a string literal, or a bare number.
pub open spec fn color_text(c: ColorView) -> Seq<char> {
    match c {
        ColorView::S(s) => quoted(s),
        ColorView::F(d) => d.json_text(),
    }
}

impl JsonSerialize for ColorWrapper {
    open spec fn json_text(&self) -> Seq<char> {
        color_text(self@)
    }

    fn to_json(&self) -> (r: String) {
        match self {
            ColorWrapper::S(s) => s.to_json(),
            ColorWrapper::F(d) => d.to_json(),
        }
    }
}

/// A value that stands for a color.
pub trait Color {
    /// The color this value stands for.
    spec fn color_view(&self) -> ColorView;

    fn to_color(&self) -> (r: ColorWrapper)
        ensures
            r@ == self.color_view(),
    ;
}

impl Color for String {
    open spec fn color_view(&self) -> ColorView {
        ColorView::S(self@)
    }

    fn to_color(&self) -> (r: ColorWrapper) {
        ColorWrapper::S(self.clone())
    }
}

impl<'a> Color for &'a str {
    open spec fn color_view(&self) -> ColorView {
        ColorView::S((*self)@)
    }

    fn to_color(&self) -> (r: ColorWrapper) {
        ColorWrapper::S(String::from_str(*self))
    }
}

impl Color for Decimal {
    open spec fn color_view(&self) -> ColorView {
        ColorView::F(*self)
    }

    fn to_color(&self) -> (r: ColorWrapper) {
        ColorWrapper::F(*self)
    }
}

impl Color for ColorWrapper {
    open spec fn color_view(&self) -> ColorView {
        self@
    }

    fn to_color(&self) -> (r: ColorWrapper) {
        match self {
            ColorWrapper::S(s) => ColorWrapper::S(s.clone()),
            ColorWrapper::F(d) => ColorWrapper::F(*d),
        }
    }
}

} // verus!
