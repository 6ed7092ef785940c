use ratzilla_widgets::draw_queue::DrawQueue;
use ratzilla_widgets::error::{make_error, Error};
use ratzilla_widgets::geometry::{fill_region, webgl_surface_ready, CellArea};
use ratzilla_widgets::gl::{texture_filter, PostProcessingShaderOptions, ShaderType};
use ratzilla_widgets::hooks::{overlay_target, BackendKind, OverlayTarget, RenderHookContext};

#[test]
fn context_reports_backend_and_sizes() {
    let context = RenderHookContext::new(BackendKind::Canvas, 120, 40);
    assert_eq!(context.backend(), BackendKind::Canvas);
    assert_eq!(context.canvas_size(), (120, 40));
    assert_eq!(context.cell_size(), None);
    assert!(context.webgl_context().is_none());
    assert!(context.canvas_2d_context().is_none());
    assert!(context.webgl2_context().is_none());

    let with_cells = context.with_cell_size(10, 19);
    assert_eq!(with_cells.cell_size(), Some((10, 19)));
    assert_eq!(with_cells.canvas_size(), (120, 40));
}

#[test]
fn overlay_targets_need_their_context() {
    let dom = RenderHookContext::new(BackendKind::Dom, 80, 24).with_cell_size(10, 10);
    assert_eq!(overlay_target(&dom), OverlayTarget::Skip);
    let canvas = RenderHookContext::new(BackendKind::Canvas, 80, 24);
    assert_eq!(overlay_target(&canvas), OverlayTarget::Skip);
    let webgl = RenderHookContext::new(BackendKind::WebGl2, 160, 50).with_cell_size(10, 10);
    assert_eq!(overlay_target(&webgl), OverlayTarget::Skip);
}

#[test]
fn fill_region_is_the_intersection() {
    let buffer = CellArea { x: 0, y: 0, width: 80, height: 24 };
    let inside = CellArea { x: 10, y: 5, width: 20, height: 4 };
    assert_eq!(fill_region(buffer, inside), inside);

    let overhanging = CellArea { x: 70, y: 20, width: 20, height: 10 };
    assert_eq!(fill_region(buffer, overhanging), CellArea { x: 70, y: 20, width: 10, height: 4 });

    let outside = CellArea { x: 100, y: 30, width: 5, height: 5 };
    let region = fill_region(buffer, outside);
    assert!(region.is_empty());
    assert_eq!(region, CellArea { x: 100, y: 30, width: 0, height: 0 });
}

#[test]
fn fill_region_saturates_far_edges() {
    let buffer = CellArea { x: 0, y: 0, width: u16::MAX, height: u16::MAX };
    let edge = CellArea { x: u16::MAX - 2, y: 4, width: 10, height: 1 };
    assert_eq!(fill_region(buffer, edge), CellArea { x: u16::MAX - 2, y: 4, width: 2, height: 1 });
    assert_eq!(edge.right(), u16::MAX);
    assert_eq!(edge.bottom(), 5);
}

#[test]
fn webgl_surface_needs_positive_sizes() {
    assert!(webgl_surface_ready(160, 120, (10, 10)));
    assert!(!webgl_surface_ready(0, 120, (10, 10)));
    assert!(!webgl_surface_ready(160, -1, (10, 10)));
    assert!(!webgl_surface_ready(160, 120, (0, 10)));
    assert!(!webgl_surface_ready(160, 120, (10, -3)));
}

#[test]
fn gl_constants_match_webgl() {
    assert_eq!(ShaderType::Vertex.as_gl_shader_type(), 0x8B31);
    assert_eq!(ShaderType::Fragment.as_gl_shader_type(), 0x8B30);
    assert_eq!(texture_filter(true), 0x2601);
    assert_eq!(texture_filter(false), 0x2600);
}

#[test]
fn shader_options_keep_sources() {
    let options = PostProcessingShaderOptions::new("vertex".to_string(), "fragment".to_string());
    assert_eq!(options.vertex_shader_source(), "vertex");
    assert_eq!(options.fragment_shader_source(), "fragment");
}

#[test]
fn make_error_carries_message() {
    match make_error("Failed to create WebGL texture".to_string()) {
        Error::UnableToRetrieveElementById(message) => {
            assert_eq!(message, "Failed to create WebGL texture")
        }
        other => panic!("unexpected error {other:?}"),
    }
}

#[test]
fn draw_queue_submits_and_drains_in_order() {
    let mut queue: DrawQueue<&str> = DrawQueue::new();
    assert!(queue.is_empty());
    assert!(queue.submit(CellArea { x: 0, y: 0, width: 1, height: 1 }, "a"));
    assert!(!queue.submit(CellArea { x: 0, y: 0, width: 0, height: 1 }, "hidden"));
    queue.enqueue("b");
    assert_eq!(queue.len(), 2);
    assert_eq!(queue.drain_queue(), vec!["a", "b"]);
    assert!(queue.is_empty());
}
