//! The entry point of the chart pipeline.

use crate::color::HUE_ONE;
use crate::data::{chart_error, ChartData, ChartError, ChartView};
use crate::document::{document_markup, document_text};
use crate::markup::{markup_of, Markup};
use crate::layout::{
    layout_outcome, render_plan, RenderData, RenderPlan, PLOT_MARGIN, X_AXIS_ITEM_WIDTH,
};
use crate::random::random_below;
use crate::scene::{scene_of, Scene};
use svg::node::element::Element;
use vstd::prelude::*;

verus! {

/// Turns chart data into a render plan, a plan into a scene, and a scene
/// into a document. It holds no state: every step is a function of its
/// arguments.
#[derive(Clone, Copy, Debug)]
pub struct StackedBarChartTool {}

/// The document of a chart that `chart_error` accepts, with `seed` as the
/// hue of the first colour.
pub open spec fn chart_markup(chart: ChartView, seed: int) -> Markup {
    document_markup(scene_of(render_plan(chart, seed)))
}

/// The canvas of an accepted chart is as wide as thirty pixels for each item
/// and forty on either side.
pub proof fn lemma_chart_canvas_width(chart: ChartView, seed: int)
    ensures
        scene_of(render_plan(chart, seed)).width == PLOT_MARGIN + chart.items.len()
            * X_AXIS_ITEM_WIDTH + PLOT_MARGIN,
{
}

/// Laying out and drawing the same chart with the same first hue gives the
/// same plan, the same scene and the same document, whenever it is done.
pub proof fn lemma_same_input_same_output(
    first: ChartData,
    second: ChartData,
    seed: int,
    first_plan: RenderData,
    second_plan: RenderData,
    first_scene: Scene,
    second_scene: Scene,
)
    requires
        first@ == second@,
        layout_outcome(first@, seed) == Ok::<RenderPlan, ChartError>(first_plan@),
        layout_outcome(second@, seed) == Ok::<RenderPlan, ChartError>(second_plan@),
        first_scene@ == scene_of(first_plan@),
        second_scene@ == scene_of(second_plan@),
    ensures
        first_plan@ == second_plan@,
        first_scene@ == second_scene@,
        document_markup(first_scene@) == document_markup(second_scene@),
        document_text(first_scene@) == document_text(second_scene@),
{
}

impl StackedBarChartTool {
    /// Makes a tool. It has no settings.
    pub fn new() -> (tool: StackedBarChartTool)
        ensures
            tool == (StackedBarChartTool {  }),
    {
        StackedBarChartTool {  }
    }

    /// Draws a plan: the SVG document of its scene, as an element of the
    /// `svg` crate.
    pub fn render_chart(&self, rd: &RenderData) -> (document: Element)
        requires
            rd@.well_formed(),
        ensures
            markup_of(document) == document_markup(scene_of(rd@)),
    {
        let scene = self.build_scene(rd);
        scene.to_element()
    }

    /// The document of a chart whose first colour has the hue `hue_seed`, or
    /// the error that the chart is rejected with.
    pub fn chart_document(&self, cd: &ChartData, hue_seed: u64) -> (result: Result<
        Element,
        ChartError,
    >)
        requires
            hue_seed < HUE_ONE,
        ensures
            match result {
                Ok(document) => chart_error(cd@) is None && markup_of(document) == chart_markup(
                    cd@,
                    hue_seed as int,
                ),
                Err(error) => chart_error(cd@) == Some(error),
            },
    {
        match self.process_chart_data(cd, hue_seed) {
            Ok(rd) => Ok(self.render_chart(&rd)),
            Err(error) => Err(error),
        }
    }

    /// The document of a chart, with colours that start at a hue drawn at
    /// random, or the error that the chart is rejected with. Whether a chart
    /// is rejected, and with which error, does not depend on the hue.
    pub fn run(&self, cd: &ChartData) -> (result: Result<Element, ChartError>)
        ensures
            match result {
                Ok(document) => chart_error(cd@) is None && exists|seed: int|
                    0 <= seed < HUE_ONE && markup_of(document) == #[trigger] chart_markup(
                        cd@,
                        seed,
                    ),
                Err(error) => chart_error(cd@) == Some(error),
            },
    {
        let hue_seed: u64 = random_below(HUE_ONE);
        self.chart_document(cd, hue_seed)
    }
}

} // verus!
