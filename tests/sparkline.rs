use sparkline::{ChartError, ColorRole, Component, Scaling};

fn sample() -> Vec<u32> {
    vec![1, 0, 5, 4, 8, 10, 15, 10, 5, 4]
}

fn chart(data: Vec<u32>, line: &str, fill: &str, scaling: Scaling) -> Result<String, ChartError> {
    Component::generate(
        data,
        "mySVG".to_string(),
        "It's a sparkline".to_string(),
        500,
        180,
        line.to_string(),
        fill.to_string(),
        scaling,
    )
}

/// Pulls the `d` attribute of the `k`-th path out of a document.
fn path_data(doc: &str, k: usize) -> String {
    let start = doc.match_indices("<path d=\"").nth(k).unwrap().0 + 9;
    let len = doc[start..].find('"').unwrap();
    doc[start..start + len].to_string()
}

/// The document with the `d` attributes of both paths emptied.
fn skeleton(doc: &str) -> String {
    doc.replace(&path_data(doc, 0), "").replace(&path_data(doc, 1), "")
}

/// The coordinate pairs of a path, in order.
fn pairs(d: &str) -> Vec<(f64, f64)> {
    d.split(' ')
        .filter(|c| c.starts_with('M') || c.starts_with('L'))
        .map(|c| {
            let mut it = c[1..].split(',');
            let x: f64 = it.next().unwrap().parse().unwrap();
            let y: f64 = it.next().unwrap().parse().unwrap();
            (x, y)
        })
        .collect()
}

#[test]
fn generate_svg_vector_effect() {
    let result = Component::generate(
        vec![1, 0, 5, 4, 8, 10, 15, 10, 5, 4],
        "mySVG".to_string(),
        "It's a sparkline".to_string(),
        500,
        180,
        "#2e4374".to_string(),
        "#7c81ad".to_string(),
        Scaling::IndexUnit,
    )
    .unwrap();

    assert_eq!(
        result,
        r##"<svg height="180px" preserveAspectRatio="none" role="img" viewBox="0 0 9 15" width="500px" xmlns="http://www.w3.org/2000/svg">
<title>
mySVG
</title>
<desc>
It's a sparkline
</desc>
<path d="M0,14 L0,14 L1,15 L2,10 L3,11 L4,7 L5,5 L6,0 L7,5 L8,10 L9,11 L10,15 L0,15 z" fill="#7c81ad" stroke="transparent"/>
<path d="M0,14 L0,14 L1,15 L2,10 L3,11 L4,7 L5,5 L6,0 L7,5 L8,10 L9,11" fill="transparent" stroke="#2e4374" stroke-width="4" vector-effect="non-scaling-stroke"/>
</svg>"##
    )
}

/// Pixel-box coordinates are exact rationals rounded to six places, so they
/// are compared with the expected values within 1e-4; the rest is compared
/// as text.
#[test]
fn generate_svg_no_vector_effect() {
    let result = Component::generate(
        vec![1, 0, 5, 4, 8, 10, 15, 10, 5, 4],
        "mySVG".to_string(),
        "It's a sparkline".to_string(),
        500,
        180,
        "#2e4374".to_string(),
        "#7c81ad".to_string(),
        Scaling::PixelBox,
    )
    .unwrap();

    let expected = r##"<svg height="180px" preserveAspectRatio="none" role="img" viewBox="0 0 500 180" width="500px" xmlns="http://www.w3.org/2000/svg">
<title>
mySVG
</title>
<desc>
It's a sparkline
</desc>
<path d="M0,168 L0,168 L55.555557,180 L111.111115,120 L166.66667,132 L222.22223,83.99999 L277.77777,60 L333.33334,0 L388.88892,60 L444.44446,120 L500,132 L500,180 L0,180 z" fill="#7c81ad" stroke="transparent"/>
<path d="M0,168 L0,168 L55.555557,180 L111.111115,120 L166.66667,132 L222.22223,83.99999 L277.77777,60 L333.33334,0 L388.88892,60 L444.44446,120 L500,132" fill="transparent" stroke="#2e4374" stroke-width="4"/>
</svg>"##;

    assert_eq!(skeleton(&result), skeleton(expected));
    for k in 0..2 {
        let got = pairs(&path_data(&result, k));
        let want = pairs(&path_data(expected, k));
        assert_eq!(got.len(), want.len());
        for (g, w) in got.iter().zip(want.iter()) {
            assert!((g.0 - w.0).abs() < 1e-4, "x {} against {}", g.0, w.0);
            assert!((g.1 - w.1).abs() < 1e-4, "y {} against {}", g.1, w.1);
        }
    }
}

#[test]
fn pixel_box_coordinates_are_rounded_to_six_places() {
    let doc = chart(sample(), "#2e4374", "#7c81ad", Scaling::PixelBox).unwrap();
    let stroke = "M0,168 L0,168 L55.555556,180 L111.111111,120 L166.666667,132 \
L222.222222,84 L277.777778,60 L333.333333,0 L388.888889,60 L444.444444,120 L500,132";
    assert_eq!(path_data(&doc, 1), stroke);
    assert_eq!(path_data(&doc, 0), format!("{} L500,180 L0,180 z", stroke));
    assert!(doc.contains("viewBox=\"0 0 500 180\""));
    assert!(!doc.contains("vector-effect"));
}

#[test]
fn invalid_line_color_is_refused() {
    let r = chart(sample(), "not-a-color", "#7c81ad", Scaling::IndexUnit);
    assert_eq!(r, Err(ChartError::InvalidColor(ColorRole::Line, "not-a-color".to_string())));
}

#[test]
fn invalid_fill_color_is_refused() {
    let r = chart(sample(), "#2e4374", "#12345", Scaling::PixelBox);
    assert_eq!(r, Err(ChartError::InvalidColor(ColorRole::Fill, "#12345".to_string())));
}

#[test]
fn line_color_is_checked_before_fill_color() {
    let r = chart(sample(), "nope", "nada", Scaling::IndexUnit);
    assert_eq!(r, Err(ChartError::InvalidColor(ColorRole::Line, "nope".to_string())));
}

#[test]
fn invalid_color_is_refused_before_the_series() {
    let r = chart(vec![], "#2e4374", "bogus(1,2,3)", Scaling::PixelBox);
    assert_eq!(r, Err(ChartError::InvalidColor(ColorRole::Fill, "bogus(1,2,3)".to_string())));
}

#[test]
fn empty_series_is_refused() {
    assert_eq!(chart(vec![], "red", "blue", Scaling::IndexUnit), Err(ChartError::EmptySeries));
    assert_eq!(chart(vec![], "red", "blue", Scaling::PixelBox), Err(ChartError::EmptySeries));
}

#[test]
fn single_sample_needs_index_units() {
    assert_eq!(chart(vec![7], "red", "blue", Scaling::PixelBox), Err(ChartError::TooFewSamples));
    let doc = chart(vec![7], "red", "blue", Scaling::IndexUnit).unwrap();
    assert!(doc.contains("viewBox=\"0 0 0 7\""));
    assert_eq!(path_data(&doc, 1), "M0,0 L0,0");
    assert_eq!(path_data(&doc, 0), "M0,0 L0,0 L1,7 L0,7 z");
}

#[test]
fn flat_series_needs_index_units() {
    assert_eq!(chart(vec![3, 3, 3], "red", "blue", Scaling::PixelBox), Err(ChartError::FlatSeries));
    let doc = chart(vec![3, 3, 3], "red", "blue", Scaling::IndexUnit).unwrap();
    assert_eq!(path_data(&doc, 1), "M0,0 L0,0 L1,0 L2,0");
}

#[test]
fn one_line_command_per_sample() {
    for scaling in [Scaling::IndexUnit, Scaling::PixelBox] {
        let doc = chart(sample(), "#2e4374", "#7c81ad", scaling).unwrap();
        let stroke = path_data(&doc, 1);
        assert_eq!(stroke.matches('L').count(), sample().len());
        assert_eq!(pairs(&stroke).len(), sample().len() + 1);
    }
}

#[test]
fn higher_samples_plot_higher() {
    let data = sample();
    for scaling in [Scaling::IndexUnit, Scaling::PixelBox] {
        let doc = chart(data.clone(), "#2e4374", "#7c81ad", scaling).unwrap();
        let pts = pairs(&path_data(&doc, 1));
        for i in 0..data.len() {
            for j in 0..data.len() {
                if data[i] > data[j] {
                    assert!(pts[i + 1].1 < pts[j + 1].1);
                }
            }
        }
    }
}

#[test]
fn fill_path_closes_to_the_baseline() {
    let a = chart(sample(), "#2e4374", "#7c81ad", Scaling::IndexUnit).unwrap();
    assert_eq!(path_data(&a, 0), format!("{} L10,15 L0,15 z", path_data(&a, 1)));
    let b = chart(vec![2, 9, 4], "#2e4374", "#7c81ad", Scaling::PixelBox).unwrap();
    assert_eq!(path_data(&b, 0), format!("{} L500,180 L0,180 z", path_data(&b, 1)));
    assert_eq!(path_data(&b, 1), "M0,180 L0,180 L250,0 L500,128.571429");
}

#[test]
fn colors_pass_through_verbatim() {
    let doc = chart(sample(), "RGB(46, 67, 116)", "SteelBlue", Scaling::IndexUnit).unwrap();
    assert!(doc.contains("fill=\"SteelBlue\" stroke=\"transparent\""));
    assert!(doc.contains("stroke=\"RGB(46, 67, 116)\" stroke-width=\"4\""));
}

#[test]
fn output_is_deterministic() {
    for scaling in [Scaling::IndexUnit, Scaling::PixelBox] {
        let a = chart(sample(), "#2e4374", "#7c81ad", scaling);
        let b = chart(sample(), "#2e4374", "#7c81ad", scaling);
        assert_eq!(a, b);
    }
}

#[test]
fn title_and_description_are_escaped() {
    let doc = Component::generate(
        vec![1, 2],
        "a<b & c>d".to_string(),
        "x&y".to_string(),
        10,
        20,
        "black".to_string(),
        "white".to_string(),
        Scaling::IndexUnit,
    )
    .unwrap();
    assert!(doc.contains("<title>\na&lt;b &amp; c&gt;d\n</title>"));
    assert!(doc.contains("<desc>\nx&amp;y\n</desc>"));
}

#[test]
fn large_values_do_not_overflow() {
    let doc = Component::generate(
        vec![0, u32::MAX, 1],
        String::new(),
        String::new(),
        u32::MAX,
        u32::MAX,
        "red".to_string(),
        "blue".to_string(),
        Scaling::PixelBox,
    )
    .unwrap();
    assert!(doc.contains("viewBox=\"0 0 4294967295 4294967295\""));
    assert_eq!(
        path_data(&doc, 1),
        "M0,4294967295 L0,4294967295 L2147483647.5,0 L4294967295,4294967294"
    );
}
