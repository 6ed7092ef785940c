use ratzilla_widgets::geometry::CellArea;
use ratzilla_widgets::hooks::{BackendKind, OverlayTarget, RenderHookContext};
use ratzilla_widgets::image::{
    cross_origin_attribute, texture_upload_needed, CachedImage, ImageCrossOrigin, ImageDrawCommand,
    ImageFit, CanvasImageLayerState, ImageStep, ImageTextureCache, WebGlTextureState,
};

fn test_command(src: &str) -> ImageDrawCommand {
    ImageDrawCommand {
        src: src.to_string(),
        area: CellArea { x: 0, y: 0, width: 4, height: 2 },
        fit: ImageFit::Contain,
        smoothing: true,
        cross_origin: None,
    }
}

#[test]
fn command_order_is_stable() {
    let mut state: CanvasImageLayerState<u32> = CanvasImageLayerState::new();
    state.enqueue(test_command("first"));
    state.enqueue(test_command("second"));
    state.enqueue(test_command("third"));

    let drained = state.drain_queue();
    let sources: Vec<_> = drained.iter().map(|command| command.src.as_str()).collect();
    assert_eq!(sources, vec!["first", "second", "third"]);
}

#[test]
fn post_render_drains_queue_even_without_backend_context() {
    let mut state: CanvasImageLayerState<u32> = CanvasImageLayerState::new();
    state.enqueue(test_command("pending"));

    let (commands, target) = state.begin_overlay(&RenderHookContext::new(BackendKind::WebGl2, 80, 24));

    assert_eq!(commands.len(), 1);
    assert_eq!(target, OverlayTarget::Skip);
    assert_eq!(state.queue_len(), 0);
    assert!(state.cache_is_empty());
}

#[test]
fn non_canvas_backend_is_a_no_op() {
    let mut state: CanvasImageLayerState<u32> = CanvasImageLayerState::new();
    state.enqueue(test_command("pending"));

    let (_, target) = state.begin_overlay(&RenderHookContext::new(BackendKind::Dom, 80, 24));

    assert_eq!(target, OverlayTarget::Skip);
    assert_eq!(state.queue_len(), 0);
    assert!(state.cache_is_empty());
}

#[test]
fn failed_texture_state_suppresses_reupload() {
    assert!(texture_upload_needed::<u32>(None));
    assert!(!texture_upload_needed::<u32>(Some(&WebGlTextureState::Failed)));
}

#[test]
fn ready_texture_state_suppresses_reupload() {
    assert!(!texture_upload_needed(Some(&WebGlTextureState::Ready(7u32))));
}

#[test]
fn widget_with_empty_area_queues_nothing() {
    let mut state: CanvasImageLayerState<u32> = CanvasImageLayerState::new();
    let mut command = test_command("zero-width");
    command.area = CellArea { x: 3, y: 3, width: 0, height: 5 };
    assert!(!state.submit(command));
    let mut command = test_command("zero-height");
    command.area = CellArea { x: 3, y: 3, width: 5, height: 0 };
    assert!(!state.submit(command));
    assert_eq!(state.queue_len(), 0);

    assert!(state.submit(test_command("visible")));
    assert_eq!(state.queue_len(), 1);
}

#[test]
fn image_is_requested_once() {
    let mut state: CanvasImageLayerState<u32> = CanvasImageLayerState::new();
    let src = "data:image/png;base64,AAAA".to_string();
    assert!(state.ensure_image_in_cache(&src));
    assert!(matches!(state.cache_entry(&src), Some(CachedImage::Loading)));
    assert!(!state.ensure_image_in_cache(&src));
    assert!(matches!(state.cache_entry(&src), Some(CachedImage::Loading)));
    assert!(state.get_cached_image(&src).is_none());
}

#[test]
fn finished_load_becomes_ready() {
    let mut state: CanvasImageLayerState<u32> = CanvasImageLayerState::new();
    let src = "picture.png".to_string();
    assert!(state.ensure_image_in_cache(&src));
    state.finish_image_load(&src, Some(42));
    assert_eq!(state.get_cached_image(&src), Some(&42));
    assert_eq!(state.prepare_image(&src), ImageStep::Draw);
}

#[test]
fn failed_load_is_not_retried() {
    let mut state: CanvasImageLayerState<u32> = CanvasImageLayerState::new();
    let src = "broken.png".to_string();
    assert_eq!(state.prepare_image(&src), ImageStep::StartLoad);
    assert_eq!(state.prepare_image(&src), ImageStep::Wait);
    state.finish_image_load(&src, None);
    assert!(matches!(state.cache_entry(&src), Some(CachedImage::Failed)));
    assert_eq!(state.prepare_image(&src), ImageStep::Wait);
    assert!(!state.ensure_image_in_cache(&src));
    assert!(state.get_cached_image(&src).is_none());
}

#[test]
fn load_of_forgotten_source_creates_no_entry() {
    let mut state: CanvasImageLayerState<u32> = CanvasImageLayerState::new();
    let src = "never-requested.png".to_string();
    state.finish_image_load(&src, Some(1));
    assert!(state.cache_entry(&src).is_none());
    assert!(state.cache_is_empty());
}

#[test]
fn cross_origin_attribute_values() {
    assert_eq!(cross_origin_attribute(None), None);
    assert_eq!(cross_origin_attribute(Some(ImageCrossOrigin::Anonymous)), Some("anonymous"));
    assert_eq!(
        cross_origin_attribute(Some(ImageCrossOrigin::UseCredentials)),
        Some("use-credentials")
    );
}

#[test]
fn image_fit_defaults_to_contain() {
    assert_eq!(ImageFit::default(), ImageFit::Contain);
}

#[test]
fn texture_cache_reuses_uploaded_texture() {
    let mut cache: ImageTextureCache<u32> = ImageTextureCache::new();
    let src = "a.png".to_string();
    assert!(texture_upload_needed(cache.lookup(&src)));
    cache.record_upload(src.clone(), Some(9));
    assert!(matches!(cache.lookup(&src), Some(WebGlTextureState::Ready(9))));
    assert!(!texture_upload_needed(cache.lookup(&src)));
    assert_eq!(cache.len(), 1);

    let other = "b.png".to_string();
    cache.record_upload(other.clone(), None);
    assert!(matches!(cache.lookup(&other), Some(WebGlTextureState::Failed)));
    assert!(!texture_upload_needed(cache.lookup(&other)));
    assert_eq!(cache.len(), 2);
}
