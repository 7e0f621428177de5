//! An interactive annotation surface: freehand strokes and oriented text
//! labels on a canvas, proximity-based erasing, and a lifecycle controller
//! for an external recording pipeline.
//!
//! The canvas model owns the committed strokes and placed annotations and
//! proves exactly what `erase_near`, `commit_stroke`, `place_annotation`,
//! `clear` and `snapshot` do. The input state machine turns pointer events
//! and mode toggles into canvas mutations, with the interaction modes
//! mutually exclusive by construction. The recording controller validates a
//! recording target, plans the exact textual media-graph launch description,
//! and tracks the pipeline lifecycle; the unverified shell around the
//! library performs the actual media-subsystem calls and reports each
//! outcome back.

mod canvas;
mod fonts;
mod geometry;
mod input;
mod recorder;

pub use canvas::Annotation;
pub use canvas::Canvas;
pub use canvas::Orientation;
pub use canvas::Snapshot;
pub use canvas::display_form;
pub use canvas::display_of;
pub use canvas::retained_annotations;
pub use canvas::retained_strokes;
pub use canvas::stroke_hit;
pub use canvas::vertical_prefix;
pub use fonts::FontCatalog;
pub use fonts::FontEntry;
pub use geometry::Point;
pub use geometry::dist_sq;
pub use geometry::in_disk;
pub use geometry::point_in_disk;
pub use input::ERASE_RADIUS;
pub use input::InputState;
pub use input::Mode;
pub use input::erased_at;
pub use input::lemma_modes_mutually_exclusive;
pub use recorder::ElementKind;
pub use recorder::GraphPlan;
pub use recorder::PipelineError;
pub use recorder::PipelineState;
pub use recorder::PipelineTarget;
pub use recorder::RecordingController;
pub use recorder::SinkKind;
pub use recorder::StartOutcome;
pub use recorder::StopOutcome;
pub use recorder::build_graph;
pub use recorder::launch_description;
pub use recorder::location_is_valid;
pub use recorder::location_of;
pub use recorder::serialize_graph;
pub use recorder::valid_location;
