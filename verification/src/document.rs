//! From a scene to the text of an SVG document.
//!
//! Each part of the scene becomes an element of the `svg` crate. The spec
//! functions say which tag, attributes and children each element has; the
//! executable functions build exactly those and ask the crate for the text.

use crate::markup::{
    append_element, append_text, assign_attribute, markup_of, new_element, render_element,
    Markup,
};
use crate::scene::{
    Bar, Label, LabelView, Point, Scene, SceneView, Segment, SegmentView, Swatch, SwatchView,
};
use crate::text::{nat_text, push_nat, push_trimmed, push_trimmed_opposite, trimmed_text};
use svg::node::element::Element;
use vstd::prelude::*;
use vstd::string::*;

verus! {

/// The number of decimal digits a length carries after the point.
pub const PIXEL_DIGITS: u32 = 3;

/// The text of a length or coordinate, in pixels.
pub open spec fn px_text(length: int) -> Seq<char> {
    trimmed_text(length, PIXEL_DIGITS as nat)
}

/// The transform that moves a text to `(x, y)`, and turns it by 45 degrees
/// if `rotated`.
pub open spec fn transform_text(x: int, y: int, rotated: bool) -> Seq<char> {
    let moved = "translate("@ + px_text(x) + ","@ + px_text(y) + ")"@;
    if rotated {
        moved + " rotate(45)"@
    } else {
        moved
    }
}

/// The style class of the layer with index `index`.
pub open spec fn category_class(index: int) -> Seq<char> {
    "category-"@ + nat_text(index as nat)
}

/// The path of a segment: from its lower left corner to the right, up by its
/// height, back to the left, and closed.
pub open spec fn path_text(segment: SegmentView) -> Seq<char> {
    "M"@ + px_text(segment.x) + ","@ + px_text(segment.y) + " l"@ + px_text(segment.width)
        + ",0 l0,"@ + px_text(-segment.height) + " l"@ + px_text(-segment.width) + ",0 z"@
}

/// The coordinates of the first `count` points, each as `x y`, with a space
/// between one point and the next.
pub open spec fn points_text(points: Seq<(int, int)>, count: int) -> Seq<char>
    decreases count,
{
    if count <= 0 {
        Seq::<char>::empty()
    } else {
        let point = px_text(points[count - 1].0) + " "@ + px_text(points[count - 1].1);
        if count == 1 {
            point
        } else {
            points_text(points, count - 1) + " "@ + point
        }
    }
}

/// The first `count` lines, with a line break between one and the next.
pub open spec fn lines_text(lines: Seq<Seq<char>>, count: int) -> Seq<char>
    decreases count,
{
    if count <= 0 {
        Seq::<char>::empty()
    } else if count == 1 {
        lines[0]
    } else {
        lines_text(lines, count - 1) + "\n"@ + lines[count - 1]
    }
}

/// The style sheet.
pub open spec fn style_markup(styles: Seq<Seq<char>>) -> Markup {
    Markup::empty("style"@).content(lines_text(styles, styles.len() as int))
}

/// A label of one of the axes.
pub open spec fn label_markup(label: LabelView, rotated: bool) -> Markup {
    Markup::empty("text"@).content(label.text).with(
        "transform"@,
        transform_text(label.x, label.y, rotated),
    )
}

/// The labels of one of the axes, as a group of the class `class`.
pub open spec fn labels_markup(labels: Seq<LabelView>, class: Seq<char>, rotated: bool) -> Markup {
    Markup {
        tag: "g"@,
        attributes: Map::empty().insert("class"@, class),
        children: Seq::new(labels.len(), |i: int| (false, label_markup(labels[i], rotated).text())),
    }
}

/// A layer of a bar.
pub open spec fn segment_markup(segment: SegmentView) -> Markup {
    Markup::empty("path"@).with("class"@, category_class(segment.category)).with(
        "d"@,
        path_text(segment),
    )
}

/// A bar: the group of its layers.
pub open spec fn bar_markup(segments: Seq<SegmentView>) -> Markup {
    Markup {
        tag: "g"@,
        attributes: Map::empty(),
        children: Seq::new(segments.len(), |i: int| (false, segment_markup(segments[i]).text())),
    }
}

/// The group of all bars.
pub open spec fn bars_markup(bars: Seq<Seq<SegmentView>>) -> Markup {
    Markup {
        tag: "g"@,
        attributes: Map::empty(),
        children: Seq::new(bars.len(), |i: int| (false, bar_markup(bars[i]).text())),
    }
}

/// The axis: a line through its points.
pub open spec fn axis_markup(points: Seq<(int, int)>) -> Markup {
    Markup::empty("polyline"@).with("class"@, "axis"@).with(
        "points"@,
        points_text(points, points.len() as int),
    )
}

/// The title.
pub open spec fn title_markup(title: LabelView) -> Markup {
    Markup::empty("text"@).content(title.text).with("class"@, "title"@).with(
        "x"@,
        px_text(title.x),
    ).with("y"@, px_text(title.y))
}

/// The square of a legend entry.
pub open spec fn swatch_markup(swatch: SwatchView) -> Markup {
    Markup::empty("rect"@).with("class"@, category_class(swatch.category)).with(
        "x"@,
        px_text(swatch.x),
    ).with("y"@, px_text(swatch.y)).with("rx"@, px_text(swatch.corner_radius)).with(
        "ry"@,
        px_text(swatch.corner_radius),
    ).with("width"@, px_text(swatch.size)).with("height"@, px_text(swatch.size))
}

/// The name of a legend entry.
pub open spec fn swatch_label_markup(label: LabelView) -> Markup {
    Markup::empty("text"@).content(label.text).with("class"@, "legend"@).with(
        "transform"@,
        transform_text(label.x, label.y, true),
    )
}

/// The child with index `position` of the legend: the entries in order,
/// each as its square and then its name.
pub open spec fn legend_child(legend: Seq<SwatchView>, position: int) -> (bool, Seq<char>) {
    if position % 2 == 0 {
        (false, swatch_markup(legend[position / 2]).text())
    } else {
        (false, swatch_label_markup(legend[position / 2].label).text())
    }
}

/// The legend.
pub open spec fn legend_markup(legend: Seq<SwatchView>) -> Markup {
    Markup {
        tag: "g"@,
        attributes: Map::empty(),
        children: Seq::new(2 * legend.len(), |position: int| legend_child(legend, position)),
    }
}

/// The document of a scene: the canvas with its size and a white background,
/// and on it the parts of the scene, each over the ones before it.
pub open spec fn document_markup(scene: SceneView) -> Markup {
    Markup::empty("svg"@).with("xmlns"@, "http://www.w3.org/2000/svg"@).with(
        "width"@,
        px_text(scene.width),
    ).with("height"@, px_text(scene.height)).with(
        "viewBox"@,
        "0 0 "@ + px_text(scene.width) + " "@ + px_text(scene.height),
    ).with("style"@, "background-color: white;"@).child(style_markup(scene.styles)).child(
        bars_markup(scene.bars),
    ).child(axis_markup(scene.axis)).child(
        labels_markup(scene.x_labels, "labels"@, true),
    ).child(labels_markup(scene.y_labels, "labels y-labels"@, false)).child(
        title_markup(scene.title),
    ).child(legend_markup(scene.legend))
}

/// The text of the document of a scene.
pub open spec fn document_text(scene: SceneView) -> Seq<char> {
    document_markup(scene).text()
}

/// The text of a length or coordinate.
pub fn px_string(length: i128) -> (text: String)
    ensures
        text@ == px_text(length as int),
{
    let mut text = String::new();
    push_trimmed(&mut text, length, PIXEL_DIGITS);
    text
}

/// The transform of a label.
pub fn transform_string(x: i128, y: i128, rotated: bool) -> (text: String)
    ensures
        text@ == transform_text(x as int, y as int, rotated),
{
    let mut text = String::from_str("translate(");
    push_trimmed(&mut text, x, PIXEL_DIGITS);
    text.append(",");
    push_trimmed(&mut text, y, PIXEL_DIGITS);
    text.append(")");
    if rotated {
        text.append(" rotate(45)");
    }
    text
}

/// The style class of a layer.
pub fn category_class_string(index: usize) -> (text: String)
    ensures
        text@ == category_class(index as int),
{
    let mut text = String::from_str("category-");
    push_nat(&mut text, index as u128);
    text
}

/// The path of a segment.
pub fn path_string(segment: &Segment) -> (text: String)
    ensures
        text@ == path_text(segment@),
{
    let mut text = String::from_str("M");
    push_trimmed(&mut text, segment.x, PIXEL_DIGITS);
    text.append(",");
    push_trimmed(&mut text, segment.y, PIXEL_DIGITS);
    text.append(" l");
    push_trimmed(&mut text, segment.width, PIXEL_DIGITS);
    text.append(",0 l0,");
    push_trimmed_opposite(&mut text, segment.height, PIXEL_DIGITS);
    text.append(" l");
    push_trimmed_opposite(&mut text, segment.width, PIXEL_DIGITS);
    text.append(",0 z");
    text
}

/// The coordinates of the points of a line.
pub fn points_string(points: &Vec<Point>) -> (text: String)
    ensures
        text@ == points_text(
            points@.map_values(|point: Point| (point.x as int, point.y as int)),
            points@.len() as int,
        ),
{
    let ghost model = points@.map_values(|point: Point| (point.x as int, point.y as int));
    let mut text = String::new();
    let mut i: usize = 0;
    while i < points.len()
        invariant
            i <= points.len(),
            model == points@.map_values(|point: Point| (point.x as int, point.y as int)),
            text@ == points_text(model, i as int),
        decreases points.len() - i,
    {
        if i > 0 {
            text.append(" ");
        }
        push_trimmed(&mut text, points[i].x, PIXEL_DIGITS);
        text.append(" ");
        push_trimmed(&mut text, points[i].y, PIXEL_DIGITS);
        i = i + 1;
    }
    text
}

/// The lines of a text, one under the other.
pub fn lines_string(lines: &Vec<String>) -> (text: String)
    ensures
        text@ == lines_text(lines@.map_values(|line: String| line@), lines@.len() as int),
{
    let ghost model = lines@.map_values(|line: String| line@);
    let mut text = String::new();
    let mut i: usize = 0;
    while i < lines.len()
        invariant
            i <= lines.len(),
            model == lines@.map_values(|line: String| line@),
            text@ == lines_text(model, i as int),
        decreases lines.len() - i,
    {
        if i > 0 {
            text.append("\n");
        }
        text.append(lines[i].as_str());
        i = i + 1;
    }
    text
}

/// The element of the style sheet.
fn style_element(styles: &Vec<String>) -> (element: Element)
    ensures
        markup_of(element) == style_markup(styles@.map_values(|rule: String| rule@)),
{
    let mut element = new_element("style");
    let sheet = lines_string(styles);
    append_text(&mut element, sheet.as_str());
    element
}

/// The element of a label of one of the axes.
fn label_element(label: &Label, rotated: bool) -> (element: Element)
    ensures
        markup_of(element) == label_markup(label@, rotated),
{
    let mut element = new_element("text");
    append_text(&mut element, label.text.as_str());
    let transform = transform_string(label.x, label.y, rotated);
    assign_attribute(&mut element, "transform", transform.as_str());
    element
}

/// The group of the labels of one of the axes.
fn labels_element(labels: &Vec<Label>, class: &str, rotated: bool) -> (element: Element)
    ensures
        markup_of(element) == labels_markup(
            labels@.map_values(|label: Label| label@),
            class@,
            rotated,
        ),
{
    let ghost model = labels@.map_values(|label: Label| label@);
    let mut element = new_element("g");
    assign_attribute(&mut element, "class", class);
    let mut i: usize = 0;
    while i < labels.len()
        invariant
            i <= labels.len(),
            model == labels@.map_values(|label: Label| label@),
            markup_of(element).tag == "g"@,
            markup_of(element).attributes == Map::<Seq<char>, Seq<char>>::empty().insert(
                "class"@,
                class@,
            ),
            markup_of(element).children.len() == i,
            forall|k: int|
                0 <= k < i ==> #[trigger] markup_of(element).children[k] == (
                    false,
                    label_markup(model[k], rotated).text(),
                ),
        decreases labels.len() - i,
    {
        append_element(&mut element, label_element(&labels[i], rotated));
        i = i + 1;
    }
    assert(markup_of(element).children =~= labels_markup(model, class@, rotated).children);
    element
}

/// The element of a layer of a bar.
fn segment_element(segment: &Segment) -> (element: Element)
    ensures
        markup_of(element) == segment_markup(segment@),
{
    let mut element = new_element("path");
    let class = category_class_string(segment.category);
    assign_attribute(&mut element, "class", class.as_str());
    let path = path_string(segment);
    assign_attribute(&mut element, "d", path.as_str());
    element
}

/// The group of the layers of a bar.
fn bar_element(bar: &Bar) -> (element: Element)
    ensures
        markup_of(element) == bar_markup(bar@),
{
    let mut element = new_element("g");
    let mut i: usize = 0;
    while i < bar.segments.len()
        invariant
            i <= bar.segments.len(),
            markup_of(element).tag == "g"@,
            markup_of(element).attributes == Map::<Seq<char>, Seq<char>>::empty(),
            markup_of(element).children.len() == i,
            forall|k: int|
                0 <= k < i ==> #[trigger] markup_of(element).children[k] == (
                    false,
                    segment_markup(bar@[k]).text(),
                ),
        decreases bar.segments.len() - i,
    {
        append_element(&mut element, segment_element(&bar.segments[i]));
        i = i + 1;
    }
    assert(markup_of(element).children =~= bar_markup(bar@).children);
    element
}

/// The group of all bars.
fn bars_element(bars: &Vec<Bar>) -> (element: Element)
    ensures
        markup_of(element) == bars_markup(bars@.map_values(|bar: Bar| bar@)),
{
    let ghost model = bars@.map_values(|bar: Bar| bar@);
    let mut element = new_element("g");
    let mut i: usize = 0;
    while i < bars.len()
        invariant
            i <= bars.len(),
            model == bars@.map_values(|bar: Bar| bar@),
            markup_of(element).tag == "g"@,
            markup_of(element).attributes == Map::<Seq<char>, Seq<char>>::empty(),
            markup_of(element).children.len() == i,
            forall|k: int|
                0 <= k < i ==> #[trigger] markup_of(element).children[k] == (
                    false,
                    bar_markup(model[k]).text(),
                ),
        decreases bars.len() - i,
    {
        append_element(&mut element, bar_element(&bars[i]));
        i = i + 1;
    }
    assert(markup_of(element).children =~= bars_markup(model).children);
    element
}

/// The element of the axis.
fn axis_element(points: &Vec<Point>) -> (element: Element)
    ensures
        markup_of(element) == axis_markup(
            points@.map_values(|point: Point| (point.x as int, point.y as int)),
        ),
{
    let mut element = new_element("polyline");
    assign_attribute(&mut element, "class", "axis");
    let coordinates = points_string(points);
    assign_attribute(&mut element, "points", coordinates.as_str());
    element
}

/// The element of the title.
fn title_element(title: &Label) -> (element: Element)
    ensures
        markup_of(element) == title_markup(title@),
{
    let mut element = new_element("text");
    append_text(&mut element, title.text.as_str());
    assign_attribute(&mut element, "class", "title");
    let x = px_string(title.x);
    assign_attribute(&mut element, "x", x.as_str());
    let y = px_string(title.y);
    assign_attribute(&mut element, "y", y.as_str());
    element
}

/// The element of the square of a legend entry.
fn swatch_element(swatch: &Swatch) -> (element: Element)
    ensures
        markup_of(element) == swatch_markup(swatch@),
{
    let mut element = new_element("rect");
    let class = category_class_string(swatch.category);
    assign_attribute(&mut element, "class", class.as_str());
    let x = px_string(swatch.x);
    assign_attribute(&mut element, "x", x.as_str());
    let y = px_string(swatch.y);
    assign_attribute(&mut element, "y", y.as_str());
    let radius = px_string(swatch.corner_radius as i128);
    assign_attribute(&mut element, "rx", radius.as_str());
    assign_attribute(&mut element, "ry", radius.as_str());
    let size = px_string(swatch.size as i128);
    assign_attribute(&mut element, "width", size.as_str());
    assign_attribute(&mut element, "height", size.as_str());
    element
}

/// The element of the name of a legend entry.
fn swatch_label_element(label: &Label) -> (element: Element)
    ensures
        markup_of(element) == swatch_label_markup(label@),
{
    let mut element = new_element("text");
    append_text(&mut element, label.text.as_str());
    assign_attribute(&mut element, "class", "legend");
    let transform = transform_string(label.x, label.y, true);
    assign_attribute(&mut element, "transform", transform.as_str());
    element
}

/// The element of the legend.
fn legend_element(legend: &Vec<Swatch>) -> (element: Element)
    ensures
        markup_of(element) == legend_markup(legend@.map_values(|entry: Swatch| entry@)),
{
    let ghost model = legend@.map_values(|entry: Swatch| entry@);
    let mut element = new_element("g");
    let mut i: usize = 0;
    while i < legend.len()
        invariant
            i <= legend.len(),
            model == legend@.map_values(|entry: Swatch| entry@),
            markup_of(element).tag == "g"@,
            markup_of(element).attributes == Map::<Seq<char>, Seq<char>>::empty(),
            markup_of(element).children.len() == 2 * i,
            forall|k: int|
                0 <= k < 2 * i ==> #[trigger] markup_of(element).children[k] == legend_child(
                    model,
                    k,
                ),
        decreases legend.len() - i,
    {
        append_element(&mut element, swatch_element(&legend[i]));
        append_element(&mut element, swatch_label_element(&legend[i].label));
        i = i + 1;
    }
    assert(markup_of(element).children =~= legend_markup(model).children);
    element
}

impl Scene {
    /// The SVG document that shows this scene, as an element of the `svg`
    /// crate.
    pub fn to_element(&self) -> (document: Element)
        ensures
            markup_of(document) == document_markup(self@),
    {
        let mut document = new_element("svg");
        assign_attribute(&mut document, "xmlns", "http://www.w3.org/2000/svg");
        let width = px_string(self.width);
        assign_attribute(&mut document, "width", width.as_str());
        let height = px_string(self.height);
        assign_attribute(&mut document, "height", height.as_str());
        let mut view_box = String::from_str("0 0 ");
        view_box.append(width.as_str());
        view_box.append(" ");
        view_box.append(height.as_str());
        assign_attribute(&mut document, "viewBox", view_box.as_str());
        assign_attribute(&mut document, "style", "background-color: white;");
        append_element(&mut document, style_element(&self.styles));
        append_element(&mut document, bars_element(&self.bars));
        append_element(&mut document, axis_element(&self.axis));
        append_element(&mut document, labels_element(&self.x_labels, "labels", true));
        append_element(&mut document, labels_element(&self.y_labels, "labels y-labels", false));
        append_element(&mut document, title_element(&self.title));
        append_element(&mut document, legend_element(&self.legend));
        document
    }

    /// The text of the SVG document that shows this scene.
    pub fn to_svg(&self) -> (text: String)
        ensures
            text@ == document_text(self@),
    {
        let document = self.to_element();
        render_element(&document)
    }
}

} // verus!
