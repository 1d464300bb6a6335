use plotly::common::{HoverInfo, Mode, Visible};
use plotly::json::JsonSerialize;
use plotly::number::Decimal;
use plotly::plot::Plot;
use plotly::scatter::Scatter;
use plotly::traces::mesh3d::{Contour, IntensityMode, LightPosition, Lighting, Mesh3D};
use plotly::traces::surface::{PlaneContours, PlaneProject, Position, Surface, SurfaceContours};

#[test]
fn minimal_scatter_has_only_mandatory_keys() {
    let s = Scatter::new(vec![1i64, 2], vec![3i64, 4]);
    assert_eq!(s.to_json(), "{\"type\":\"scatter\",\"x\":[1,2],\"y\":[3,4]}");
}

#[test]
fn second_name_wins() {
    let twice = Scatter::new(vec![1i64], vec![2i64]).name("first").name("second");
    let direct = Scatter::new(vec![1i64], vec![2i64]).name("second");
    assert_eq!(twice.to_json(), direct.to_json());
    assert_eq!(
        twice.to_json(),
        "{\"type\":\"scatter\",\"x\":[1],\"y\":[2],\"name\":\"second\"}"
    );
}

#[test]
fn configured_scatter_serializes_the_same_twice() {
    let s = Scatter::new(vec![String::from("a"), String::from("b")], vec![1i64, 2])
        .name("n")
        .mode(Mode::Markers)
        .opacity(Decimal::new(5, -1))
        .text_array(vec!["p", "q"])
        .hover_info(HoverInfo::XAndY)
        .fill_color("red");
    let first = s.to_json();
    let second = s.to_json();
    assert_eq!(first, second);
    assert_eq!(
        first,
        "{\"type\":\"scatter\",\"x\":[\"a\",\"b\"],\"y\":[1,2],\"name\":\"n\",\"opacity\":5e-1,\"mode\":\"markers\",\"text\":[\"p\",\"q\"],\"hoverinfo\":\"x+y\",\"fillcolor\":\"red\"}"
    );
}

#[test]
fn scatter_text_scalar_then_array() {
    let s = Scatter::new(vec![1i64], vec![1i64]).text("t").text_array(vec!["u"]);
    assert_eq!(s.to_json(), "{\"type\":\"scatter\",\"x\":[1],\"y\":[1],\"text\":[\"u\"]}");
}

#[test]
fn minimal_mesh() {
    let m = Mesh3D::new(&[0i64, 1, 2], &[0i64, 1, 0], &[1i64, 1, 1], &[0], &[1], &[2]);
    assert_eq!(
        m.to_json(),
        "{\"type\":\"mesh3d\",\"x\":[0,1,2],\"y\":[0,1,0],\"z\":[1,1,1],\"i\":[0],\"j\":[1],\"k\":[2]}"
    );
}

#[test]
fn mesh_visible_and_nested_objects() {
    let lighting = *Lighting::new().ambient(Decimal::new(8, -1)).fresnel(Decimal::from_int(5));
    let contour = *Contour::new().show(true).width(16);
    let m = Mesh3D::new(&[0i64], &[0i64], &[0i64], &[], &[], &[])
        .visible(Visible::LegendOnly)
        .lighting(lighting)
        .contour(contour)
        .intensitymode(IntensityMode::Cell)
        .meta("m")
        .uirevision(3usize);
    assert_eq!(
        m.to_json(),
        "{\"type\":\"mesh3d\",\"visible\":\"legendonly\",\"x\":[0],\"y\":[0],\"z\":[0],\"i\":[],\"j\":[],\"k\":[],\"intensitymode\":\"cell\",\"meta\":\"m\",\"contour\":{\"show\":true,\"width\":16},\"lighting\":{\"ambient\":8e-1,\"fresnel\":5},\"uirevision\":3}"
    );
}

#[test]
fn mesh_visible_true_is_boolean() {
    let m = Mesh3D::new(&[0i64], &[0i64], &[0i64], &[], &[], &[]).visible(Visible::True);
    assert!(m.to_json().contains("\"visible\":true"));
}

#[test]
fn light_position_within_bounds() {
    let p = LightPosition::new().x(vec![Decimal::from_int(-100000), Decimal::from_int(100000)]);
    assert_eq!(p.to_json(), "{\"x\":[-100000,100000]}");
}

#[test]
fn blank_contour_is_empty_object() {
    assert_eq!(Contour::new().to_json(), "{}");
}

#[test]
fn minimal_surface() {
    let s: Box<Surface<i64, i64, i64>> = Surface::new(vec![vec![1, 2], vec![3, 4]]);
    assert_eq!(s.to_json(), "{\"type\":\"surface\",\"z\":[[1,2],[3,4]]}");
}

#[test]
fn surface_with_axes_and_contours() {
    let project = PlaneProject::new().z(true);
    let contours = SurfaceContours::new().z(PlaneContours::new().show(true).project(project));
    let s: Box<Surface<i64, i64, i64>> = Surface::new(vec![vec![5]])
        .x(vec![0])
        .y(vec![1])
        .contours(contours)
        .light_position(Position::new(1, -2, 3));
    assert_eq!(
        s.to_json(),
        "{\"type\":\"surface\",\"x\":[0],\"y\":[1],\"z\":[[5]],\"contours\":{\"z\":{\"show\":true,\"project\":{\"z\":true}}},\"lightposition\":{\"x\":1,\"y\":-2,\"z\":3}}"
    );
}

#[test]
fn plot_holds_traces_in_order() {
    let mut p = Plot::new();
    assert_eq!(p.to_json(), "{\"data\":[]}");
    p.add_trace(Scatter::new(vec![1i64], vec![2i64]));
    p.add_trace(Surface::<i64, i64, i64>::new(vec![vec![0]]));
    let first = p.to_json();
    assert_eq!(
        first,
        "{\"data\":[{\"type\":\"scatter\",\"x\":[1],\"y\":[2]},{\"type\":\"surface\",\"z\":[[0]]}]}"
    );
    assert_eq!(first, p.to_json());
}
