use ratzilla_widgets::geometry::CellArea;
use ratzilla_widgets::image::ImageFit;
use ratzilla_widgets::video::{
    frame_available, source_changed, video_cross_origin_attribute, SourceUpdate, VideoCommand,
    VideoCrossOrigin, VideoError, VideoLayerState, VideoPreload, VideoTexture,
};

fn command(id: &str, src: &str) -> VideoCommand {
    VideoCommand {
        id: id.into(),
        src: src.into(),
        area: CellArea { x: 0, y: 0, width: 4, height: 2 },
        fit: ImageFit::Contain,
        smoothing: true,
        cross_origin: None,
        looping: false,
        muted: true,
        preload: VideoPreload::Metadata,
        plays_inline: true,
        autoplay: false,
    }
}

#[test]
fn source_replacement_is_predictable() {
    assert!(!source_changed(&"movie.mp4".to_string(), None, &"movie.mp4".to_string(), None));
    assert!(source_changed(&"movie.mp4".to_string(), None, &"next.webm".to_string(), None));
    assert!(source_changed(
        &"movie.mp4".to_string(),
        None,
        &"movie.mp4".to_string(),
        Some(VideoCrossOrigin::Anonymous)
    ));
}

#[test]
fn creates_and_reuses_a_video_instance() {
    let mut state: VideoLayerState<u32> = VideoLayerState::new();
    let mut cmd = command("player", "first.mp4");
    assert!(state.needs_element(&cmd.id));
    let first = state.ensure_instance(&cmd, Some(100)).expect("instance should be created");
    assert_eq!(first.source, SourceUpdate::Created);
    assert!(!first.set_muted);
    assert!(!state.needs_element(&cmd.id));

    let second = state.ensure_instance(&cmd, None).expect("instance should be reused");
    assert_eq!(second.source, SourceUpdate::Kept);
    assert!(!second.set_muted);
    assert_eq!(second.generation, first.generation);
    assert_eq!(state.element(&cmd.id), Some(&100));

    cmd.src = "second.webm".into();
    let replaced = state.ensure_instance(&cmd, None).expect("source should be replaced");
    assert_eq!(replaced.source, SourceUpdate::Replaced);
    assert!(replaced.generation > second.generation);
    assert_eq!(state.instance_count(), 1);
    assert_eq!(state.element(&cmd.id), Some(&100));
}

#[test]
fn unknown_id_without_element_is_an_error() {
    let mut state: VideoLayerState<u32> = VideoLayerState::new();
    let cmd = command("ghost", "a.mp4");
    assert!(state.ensure_instance(&cmd, None).is_err());
    assert_eq!(state.instance_count(), 0);
}

#[test]
fn muted_change_is_applied_once() {
    let mut state: VideoLayerState<u32> = VideoLayerState::new();
    let mut cmd = command("player", "a.mp4");
    state.ensure_instance(&cmd, Some(1)).expect("created");
    cmd.muted = false;
    let update = state.ensure_instance(&cmd, None).expect("kept");
    assert_eq!(update.source, SourceUpdate::Kept);
    assert!(update.set_muted);
    let again = state.ensure_instance(&cmd, None).expect("kept");
    assert!(!again.set_muted);
}

#[test]
fn cross_origin_change_replaces_source() {
    let mut state: VideoLayerState<u32> = VideoLayerState::new();
    let mut cmd = command("player", "a.mp4");
    let created = state.ensure_instance(&cmd, Some(1)).expect("created");
    cmd.cross_origin = Some(VideoCrossOrigin::UseCredentials);
    let replaced = state.ensure_instance(&cmd, None).expect("replaced");
    assert_eq!(replaced.source, SourceUpdate::Replaced);
    assert_eq!(replaced.generation, created.generation + 1);
}

#[test]
fn generations_are_distinct_across_ids() {
    let mut state: VideoLayerState<u32> = VideoLayerState::new();
    let a = state.ensure_instance(&command("a", "x.mp4"), Some(1)).expect("a");
    let b = state.ensure_instance(&command("b", "x.mp4"), Some(2)).expect("b");
    assert_ne!(a.generation, b.generation);
}

#[test]
fn release_drops_instance_and_queued_commands() {
    let mut state: VideoLayerState<u32> = VideoLayerState::new();
    state.ensure_instance(&command("a", "a.mp4"), Some(1)).expect("a");
    state.ensure_instance(&command("b", "b.mp4"), Some(2)).expect("b");
    assert!(state.submit(command("a", "a.mp4")));
    assert!(state.submit(command("b", "b.mp4")));
    assert!(state.submit(command("a", "a.mp4")));

    let removed = state.release(&"a".to_string());
    assert_eq!(removed.map(|instance| instance.element), Some(1));
    assert_eq!(state.instance_count(), 1);
    assert_eq!(state.queue_len(), 1);
    assert!(state.release(&"a".to_string()).is_none());

    let frame = state.begin_frame();
    assert_eq!(frame.queue.len(), 1);
    assert_eq!(frame.queue[0].id, "b");
    assert_eq!(frame.released, vec!["a".to_string()]);
    assert!(!frame.clear_resources);
}

#[test]
fn clear_releases_everything() {
    let mut state: VideoLayerState<u32> = VideoLayerState::new();
    state.ensure_instance(&command("a", "a.mp4"), Some(1)).expect("a");
    state.ensure_instance(&command("b", "b.mp4"), Some(2)).expect("b");
    assert!(state.submit(command("a", "a.mp4")));

    let mut former: Vec<u32> = state.clear().into_iter().map(|(_, instance)| instance.element).collect();
    former.sort();
    assert_eq!(former, vec![1, 2]);
    assert_eq!(state.instance_count(), 0);
    assert_eq!(state.queue_len(), 0);

    let frame = state.begin_frame();
    let mut released = frame.released.clone();
    released.sort();
    assert_eq!(released, vec!["a".to_string(), "b".to_string()]);
    assert!(frame.clear_resources);
    assert!(frame.queue.is_empty());

    let next = state.begin_frame();
    assert!(next.released.is_empty());
    assert!(!next.clear_resources);
}

#[test]
fn controls_before_render_are_not_initialized() {
    let state: VideoLayerState<u32> = VideoLayerState::new();
    assert!(matches!(state.instance(&"nobody".to_string()), Err(VideoError::NotInitialized)));
}

#[test]
fn empty_video_widget_is_not_queued() {
    let mut state: VideoLayerState<u32> = VideoLayerState::new();
    let mut cmd = command("a", "a.mp4");
    cmd.area = CellArea { x: 1, y: 1, width: 0, height: 0 };
    assert!(!state.submit(cmd));
    assert_eq!(state.queue_len(), 0);
}

#[test]
fn preload_attribute_values() {
    assert_eq!(VideoPreload::Disabled.attribute(), "none");
    assert_eq!(VideoPreload::Metadata.attribute(), "metadata");
    assert_eq!(VideoPreload::Auto.attribute(), "auto");
    assert_eq!(VideoPreload::default(), VideoPreload::Auto);
}

#[test]
fn video_cross_origin_attribute_values() {
    assert_eq!(video_cross_origin_attribute(None), None);
    assert_eq!(video_cross_origin_attribute(Some(VideoCrossOrigin::Anonymous)), Some("anonymous"));
    assert_eq!(
        video_cross_origin_attribute(Some(VideoCrossOrigin::UseCredentials)),
        Some("use-credentials")
    );
}

#[test]
fn frame_available_from_ready_state() {
    assert!(!frame_available(0));
    assert!(!frame_available(1));
    assert!(frame_available(2));
    assert!(frame_available(4));
}

#[test]
fn texture_slot_tracks_uploads() {
    let mut slot: VideoTexture<u32, f64> = VideoTexture::new(5, 1);
    assert!(slot.begin_use(1));
    assert!(slot.needs_upload(false));
    slot.record_upload(0.5, true);
    assert!(slot.uploaded);
    assert_eq!(slot.last_time, Some(0.5));
    assert!(!slot.needs_upload(true));
    assert!(slot.needs_upload(false));

    slot.record_upload(1.0, false);
    assert!(!slot.begin_use(1));

    assert!(slot.begin_use(2));
    assert_eq!(slot.generation, 2);
    assert!(!slot.uploaded);
    assert_eq!(slot.last_time, None);
    assert_eq!(slot.texture, 5);
}
