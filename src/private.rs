//! Conversions shared by the traces, and the value types that serialize untagged.
use vstd::prelude::*;

use crate::color::{Color, ColorView, ColorWrapper};
use crate::common::Dim;
use crate::json::{int_text, quoted, JsonSerialize};
use crate::number::Decimal;

verus! {

/// A value that can be read as text.
pub trait AsStr {
    /// The text of this value.
    spec fn str_view(&self) -> Seq<char>;

    fn as_text(&self) -> (r: &str)
        ensures
            r@ == self.str_view(),
    ;
}

impl AsStr for String {
    open spec fn str_view(&self) -> Seq<char> {
        self@
    }

    fn as_text(&self) -> (r: &str) {
        self.as_str()
    }
}

impl<'a> AsStr for &'a str {
    open spec fn str_view(&self) -> Seq<char> {
        (*self)@
    }

    fn as_text(&self) -> (r: &str) {
        *self
    }
}

/// The texts of owned strings, in order.
pub open spec fn texts_of(v: Vec<String>) -> Seq<Seq<char>> {
    v@.map_values(|s: String| s@)
}

/// The texts of text-like values, in order.
pub open spec fn str_views<S: AsStr>(v: Seq<S>) -> Seq<Seq<char>> {
    v.map_values(|s: S| s.str_view())
}

/// Whether `d` is a single string with text `s`.
pub open spec fn is_scalar_text(d: Option<Dim<String>>, s: Seq<char>) -> bool {
    match d {
        Some(Dim::Scalar(v)) => v@ == s,
        _ => false,
    }
}

/// Whether `d` is a vector of strings with texts `s`, in order.
pub open spec fn is_vector_text(d: Option<Dim<String>>, s: Seq<Seq<char>>) -> bool {
    match d {
        Some(Dim::Vector(v)) => texts_of(v) == s,
        _ => false,
    }
}

/// Whether `o` holds strings with texts `s`, in order.
pub open spec fn is_texts(o: Option<Vec<String>>, s: Seq<Seq<char>>) -> bool {
    match o {
        Some(v) => texts_of(v) == s,
        None => false,
    }
}

/// The colors held, in order.
pub open spec fn color_views(v: Seq<ColorWrapper>) -> Seq<ColorView> {
    v.map_values(|c: ColorWrapper| c@)
}

/// The colors that color-like values stand for, in order.
pub open spec fn colors_of<C: Color>(v: Seq<C>) -> Seq<ColorView> {
    v.map_values(|c: C| c.color_view())
}

/// Whether `o` holds the colors `c`, in order.
pub open spec fn is_colors(o: Option<Vec<ColorWrapper>>, c: Seq<ColorView>) -> bool {
    match o {
        Some(v) => color_views(v@) == c,
        None => false,
    }
}

/// The scalars held, in order.
pub open spec fn scalar_views(v: Seq<NumOrStringWrapper>) -> Seq<NumOrStringView> {
    v.map_values(|w: NumOrStringWrapper| w@)
}

/// The scalars that scalar-like values convert to, in order.
pub open spec fn scalars_of<V: NumOrString>(v: Seq<V>) -> Seq<NumOrStringView> {
    v.map_values(|x: V| x.num_or_string_view())
}

/// Whether `o` holds the scalars `c`, in order.
pub open spec fn is_scalars(o: Option<Vec<NumOrStringWrapper>>, c: Seq<NumOrStringView>) -> bool {
    match o {
        Some(v) => scalar_views(v@) == c,
        None => false,
    }
}

/// Owned copies of the texts, in order.
pub fn owned_string_vector<S: AsStr>(s: Vec<S>) -> (r: Vec<String>)
    ensures
        r@.len() == s@.len(),
        forall|i: int| 0 <= i < s@.len() ==> #[trigger] r@[i]@ == s@[i].str_view(),
        texts_of(r) == str_views(s@),
{
    let mut out: Vec<String> = Vec::new();
    let mut i: usize = 0;
    while i < s.len()
        invariant
            i <= s@.len(),
            out@.len() == i,
            forall|k: int| 0 <= k < i ==> #[trigger] out@[k]@ == s@[k].str_view(),
        decreases s@.len() - i,
    {
        out.push(String::from_str(s[i].as_text()));
        i = i + 1;
    }
    proof {
        assert(texts_of(out) =~= str_views(s@));
    }
    out
}

/// The colors that the values stand for, in order.
pub fn to_color_array<C: Color>(v: Vec<C>) -> (r: Vec<ColorWrapper>)
    ensures
        r@.len() == v@.len(),
        forall|i: int| 0 <= i < v@.len() ==> #[trigger] r@[i]@ == v@[i].color_view(),
        color_views(r@) == colors_of(v@),
{
    let mut sv: Vec<ColorWrapper> = Vec::with_capacity(v.len());
    let mut i: usize = 0;
    while i < v.len()
        invariant
            i <= v@.len(),
            sv@.len() == i,
            forall|k: int| 0 <= k < i ==> #[trigger] sv@[k]@ == v@[k].color_view(),
        decreases v@.len() - i,
    {
        sv.push(v[i].to_color());
        i = i + 1;
    }
    proof {
        assert(color_views(sv@) =~= colors_of(v@));
    }
    sv
}

/// Whether the colors mix both kinds: at least one number and at least one color string.
pub open spec fn is_mixed(a: Seq<ColorWrapper>) -> bool {
    &&& exists|i: int| 0 <= i < a.len() && #[trigger] a[i] is F
    &&& exists|j: int| 0 <= j < a.len() && #[trigger] a[j] is S
}

/// Whether the array holds at least one numeric color and at least one color string.
pub fn is_valid_color_array(a: &[ColorWrapper]) -> (r: bool)
    ensures
        r == is_mixed(a@),
{
    let mut has_number = false;
    let mut has_text = false;
    let mut i: usize = 0;
    while i < a.len()
        invariant
            i <= a@.len(),
            has_number == exists|k: int| 0 <= k < i && #[trigger] a@[k] is F,
            has_text == exists|k: int| 0 <= k < i && #[trigger] a@[k] is S,
        decreases a@.len() - i,
    {
        match &a[i] {
            ColorWrapper::F(_) => {
                has_number = true;
            },
            ColorWrapper::S(_) => {
                has_text = true;
            },
        }
        i = i + 1;
    }
    has_number && has_text
}

/// A scalar that the schema takes as either a number or a string.
#[derive(Clone, Debug)]
pub enum NumOrStringWrapper {
    S(String),
    F(Decimal),
    I(i64),
    U(u64),
}

/// What a `NumOrStringWrapper` holds.
pub enum NumOrStringView {
    S(Seq<char>),
    F(Decimal),
    I(int),
    U(int),
}

impl View for NumOrStringWrapper {
    type V = NumOrStringView;

    open spec fn view(&self) -> NumOrStringView {
        match self {
            NumOrStringWrapper::S(s) => NumOrStringView::S(s@),
            NumOrStringWrapper::F(d) => NumOrStringView::F(*d),
            NumOrStringWrapper::I(i) => NumOrStringView::I(*i as int),
            NumOrStringWrapper::U(u) => NumOrStringView::U(*u as int),
        }
    }
}

/// The bare JSON scalar for a value: a string literal or a number, with no tag.
pub open spec fn scalar_text(v: NumOrStringView) -> Seq<char> {
    match v {
        NumOrStringView::S(s) => quoted(s),
        NumOrStringView::F(d) => d.json_text(),
        NumOrStringView::I(i) => int_text(i),
        NumOrStringView::U(u) => int_text(u),
    }
}

impl JsonSerialize for NumOrStringWrapper {
    open spec fn json_text(&self) -> Seq<char> {
        scalar_text(self@)
    }

    fn to_json(&self) -> (r: String) {
        match self {
            NumOrStringWrapper::S(s) => s.to_json(),
            NumOrStringWrapper::F(d) => d.to_json(),
            NumOrStringWrapper::I(i) => i.to_json(),
            NumOrStringWrapper::U(u) => u.to_json(),
        }
    }
}

/// A value that converts to a number-or-string scalar.
pub trait NumOrString {
    /// The scalar this value converts to.
    spec fn num_or_string_view(&self) -> NumOrStringView;

    fn to_num_or_string(&self) -> (r: NumOrStringWrapper)
        ensures
            r@ == self.num_or_string_view(),
    ;
}

impl NumOrString for String {
    open spec fn num_or_string_view(&self) -> NumOrStringView {
        NumOrStringView::S(self@)
    }

    fn to_num_or_string(&self) -> (r: NumOrStringWrapper) {
        NumOrStringWrapper::S(self.clone())
    }
}

impl<'a> NumOrString for &'a str {
    open spec fn num_or_string_view(&self) -> NumOrStringView {
        NumOrStringView::S((*self)@)
    }

    fn to_num_or_string(&self) -> (r: NumOrStringWrapper) {
        NumOrStringWrapper::S(String::from_str(*self))
    }
}

impl NumOrString for Decimal {
    open spec fn num_or_string_view(&self) -> NumOrStringView {
        NumOrStringView::F(*self)
    }

    fn to_num_or_string(&self) -> (r: NumOrStringWrapper) {
        NumOrStringWrapper::F(*self)
    }
}

impl NumOrString for usize {
    open spec fn num_or_string_view(&self) -> NumOrStringView {
        NumOrStringView::U(*self as int)
    }

    fn to_num_or_string(&self) -> (r: NumOrStringWrapper) {
        NumOrStringWrapper::U(*self as u64)
    }
}

impl NumOrString for u64 {
    open spec fn num_or_string_view(&self) -> NumOrStringView {
        NumOrStringView::U(*self as int)
    }

    fn to_num_or_string(&self) -> (r: NumOrStringWrapper) {
        NumOrStringWrapper::U(*self)
    }
}

impl NumOrString for i32 {
    open spec fn num_or_string_view(&self) -> NumOrStringView {
        NumOrStringView::I(*self as int)
    }

    fn to_num_or_string(&self) -> (r: NumOrStringWrapper) {
        NumOrStringWrapper::I(*self as i64)
    }
}

impl NumOrString for i64 {
    open spec fn num_or_string_view(&self) -> NumOrStringView {
        NumOrStringView::I(*self as int)
    }

    fn to_num_or_string(&self) -> (r: NumOrStringWrapper) {
        NumOrStringWrapper::I(*self)
    }
}

/// The scalars that the values convert to, in order.
pub fn to_num_or_string_wrapper<C: NumOrString>(v: Vec<C>) -> (r: Vec<NumOrStringWrapper>)
    ensures
        r@.len() == v@.len(),
        forall|i: int| 0 <= i < v@.len() ==> #[trigger] r@[i]@ == v@[i].num_or_string_view(),
        scalar_views(r@) == scalars_of(v@),
{
    let mut sv: Vec<NumOrStringWrapper> = Vec::with_capacity(v.len());
    let mut i: usize = 0;
    while i < v.len()
        invariant
            i <= v@.len(),
            sv@.len() == i,
            forall|k: int| 0 <= k < i ==> #[trigger] sv@[k]@ == v@[k].num_or_string_view(),
        decreases v@.len() - i,
    {
        sv.push(v[i].to_num_or_string());
        i = i + 1;
    }
    proof {
        assert(scalar_views(sv@) =~= scalars_of(v@));
    }
    sv
}

/// Every number-or-string scalar serializes to the bare scalar, with no tag around it.
pub proof fn lemma_num_or_string_untagged(w: NumOrStringWrapper)
    ensures
        w.json_text() == scalar_text(w@),
        w@ is S ==> w.json_text() == quoted(w@->S_0),
        w@ is F ==> w.json_text() == (w@->F_0).json_text(),
        w@ is I ==> w.json_text() == int_text(w@->I_0),
        w@ is U ==> w.json_text() == int_text(w@->U_0),
{
}

/// `text` with every double-quote character taken out.
pub open spec fn without_quotes(text: Seq<char>) -> Seq<char>
    decreases text.len(),
{
    if text.len() == 0 {
        Seq::empty()
    } else if text.last() == '"' {
        without_quotes(text.drop_last())
    } else {
        without_quotes(text.drop_last()).push(text.last())
    }
}

/// A copy of `text` without its double-quote characters.
pub fn strip_quotes(text: &str) -> (r: String)
    ensures
        r@ == without_quotes(text@),
{
    let mut out = String::new();
    let n = text.unicode_len();
    let mut i: usize = 0;
    while i < n
        invariant
            n == text@.len(),
            i <= n,
            out@ == without_quotes(text@.subrange(0, i as int)),
        decreases n - i,
    {
        let c = text.get_char(i);
        proof {
            assert(text@.subrange(0, i + 1).drop_last() =~= text@.subrange(0, i as int));
        }
        if c != '"' {
            let piece = text.substring_char(i, i + 1);
            out.append(piece);
            proof {
                assert(piece@ =~= seq![c]);
            }
        }
        i = i + 1;
    }
    proof {
        assert(text@.subrange(0, n as int) =~= text@);
    }
    out
}

/// The JSON for an enum's text with its quotes stripped: a boolean for exactly `true` or
/// `false`, a string literal otherwise.
pub open spec fn truthy_text(stripped: Seq<char>) -> Seq<char> {
    if stripped == "true"@ {
        "true"@
    } else if stripped == "false"@ {
        "false"@
    } else {
        quoted(stripped)
    }
}

/// An enum that serializes as a boolean when its text is `true` or `false`.
#[derive(Clone, Debug)]
pub struct TruthyEnum<E> {
    pub e: E,
}

impl<E: JsonSerialize> JsonSerialize for TruthyEnum<E> {
    open spec fn json_text(&self) -> Seq<char> {
        truthy_text(without_quotes(self.e.json_text()))
    }

    fn to_json(&self) -> (r: String) {
        let raw = self.e.to_json();
        let s = strip_quotes(raw.as_str());
        let yes = String::from_str("true");
        let no = String::from_str("false");
        if s == yes {
            yes
        } else if s == no {
            no
        } else {
            s.to_json()
        }
    }
}

/// A copy of the items, in order.
pub fn copy_iterable_to_vec<T: Copy>(iterable: &[T]) -> (r: Vec<T>)
    ensures
        r@ == iterable@,
{
    let mut out: Vec<T> = Vec::with_capacity(iterable.len());
    let mut i: usize = 0;
    while i < iterable.len()
        invariant
            i <= iterable@.len(),
            out@ == iterable@.subrange(0, i as int),
        decreases iterable@.len() - i,
    {
        out.push(iterable[i]);
        proof {
            assert(out@ =~= iterable@.subrange(0, i + 1));
        }
        i = i + 1;
    }
    proof {
        assert(iterable@.subrange(0, i as int) =~= iterable@);
    }
    out
}

/// An empty array, or one whose colors are all of one kind, is not mixed; one that holds a
/// number and a color string is.
pub proof fn lemma_mixed_color_array(a: Seq<ColorWrapper>)
    ensures
        a.len() == 0 ==> !is_mixed(a),
        (forall|i: int| 0 <= i < a.len() ==> #[trigger] a[i] is F) ==> !is_mixed(a),
        (forall|i: int| 0 <= i < a.len() ==> #[trigger] a[i] is S) ==> !is_mixed(a),
        (exists|i: int, j: int|
            0 <= i < a.len() && 0 <= j < a.len() && #[trigger] a[i] is F && #[trigger] a[j] is S)
            ==> is_mixed(a),
{
}

/// A truthy enum serializes to the boolean `true` or `false` when its enum's text, quotes
/// stripped, is exactly that word, and to a string literal of that stripped text otherwise.
pub proof fn lemma_truthy_enum<E: JsonSerialize>(t: TruthyEnum<E>)
    ensures
        without_quotes(t.e.json_text()) == "true"@ ==> t.json_text() == "true"@,
        without_quotes(t.e.json_text()) == "false"@ ==> t.json_text() == "false"@,
        without_quotes(t.e.json_text()) != "true"@ && without_quotes(t.e.json_text()) != "false"@
            ==> t.json_text() == quoted(without_quotes(t.e.json_text())),
{
}

} // verus!
