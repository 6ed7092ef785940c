use vstd::prelude::*;

use crate::draw_queue::DrawQueue;
use crate::geometry::CellArea;
use crate::hooks::{overlay_target, spec_overlay_target, OverlayTarget, RenderHookContext};
use crate::string_map::StringMap;

verus! {

/// Image fitting strategy within the widget rectangle.
#[derive(Clone, Copy, Debug, PartialEq, Eq, Structural)]
pub enum ImageFit {
    /// Stretch the image to the full rectangle.
    Fill,
    /// Preserve aspect ratio and letterbox inside the rectangle.
    Contain,
    /// Preserve aspect ratio and crop to fill the rectangle.
    Cover,
    /// Like contain, but never upscale past the intrinsic image size.
    ScaleDown,
}

impl Default for ImageFit {
    fn default() -> (r: Self)
        ensures
            r == ImageFit::Contain,
    {
        ImageFit::Contain
    }
}

/// Cross-origin setting applied before image loading starts.
#[derive(Clone, Copy, Debug, PartialEq, Eq, Structural)]
pub enum ImageCrossOrigin {
    /// Use anonymous CORS mode.
    Anonymous,
    /// Use credentialed CORS mode.
    UseCredentials,
}

/// The browser `crossOrigin` attribute value for a cross-origin setting.
pub fn cross_origin_attribute(value: Option<ImageCrossOrigin>) -> (r: Option<&'static str>)
    ensures
        match value {
            None => r is None,
            Some(ImageCrossOrigin::Anonymous) => r matches Some(s) && s@ == "anonymous"@,
            Some(ImageCrossOrigin::UseCredentials) => r matches Some(s) && s@
                == "use-credentials"@,
        },
{
    match value {
        Some(ImageCrossOrigin::Anonymous) => Some("anonymous"),
        Some(ImageCrossOrigin::UseCredentials) => Some("use-credentials"),
        None => None,
    }
}

/// Whether painting with this fit is clipped to the widget's rectangle on a 2D
/// canvas: every fit but `ScaleDown` is (a scaled-down image never overflows it).
pub fn clips_to_widget(fit: ImageFit) -> (r: bool)
    ensures
        r == (fit != ImageFit::ScaleDown),
{
    match fit {
        ImageFit::Fill | ImageFit::Contain | ImageFit::Cover => true,
        ImageFit::ScaleDown => false,
    }
}

/// Whether a decoded image can be drawn: both of its natural dimensions are
/// positive.  An image without pixels counts as a failed load.
pub fn decoded_size_valid(natural_width: u32, natural_height: u32) -> (r: bool)
    ensures
        r == (natural_width > 0 && natural_height > 0),
{
    natural_width > 0 && natural_height > 0
}

/// An image widget queued for painting: its source URL, its cell area, how it fits
/// there, whether it is smoothed and the cross-origin mode of its load.
pub struct ImageDrawCommand {
    pub src: String,
    pub area: CellArea,
    pub fit: ImageFit,
    pub smoothing: bool,
    pub cross_origin: Option<ImageCrossOrigin>,
}

/// The load state of one image source.
pub enum CachedImage<T> {
    /// The browser is still loading and decoding the image.
    Loading,
    /// The decoded image.
    Ready(T),
    /// Loading or decoding failed; the source is not tried again.
    Failed,
}

/// What a load that finished turns the cache entry into.
pub open spec fn loaded_entry<T>(image: Option<T>) -> CachedImage<T> {
    match image {
        Some(t) => CachedImage::Ready(t),
        None => CachedImage::Failed,
    }
}

/// The cache after a load of `src` is requested: an unknown source starts loading,
/// a known one is left as it is.
pub open spec fn cache_after_request<T>(cache: Map<Seq<char>, CachedImage<T>>, src: Seq<char>) -> Map<
    Seq<char>,
    CachedImage<T>,
> {
    if cache.dom().contains(src) {
        cache
    } else {
        cache.insert(src, CachedImage::Loading)
    }
}

/// The cache after the load of `src` finished: an entry still present takes the
/// outcome, and no entry is created.
pub open spec fn cache_after_load<T>(
    cache: Map<Seq<char>, CachedImage<T>>,
    src: Seq<char>,
    image: Option<T>,
) -> Map<Seq<char>, CachedImage<T>> {
    if cache.dom().contains(src) {
        cache.insert(src, loaded_entry(image))
    } else {
        cache
    }
}

/// Whether the cache holds a decoded image for `src`.
pub open spec fn image_ready<T>(cache: Map<Seq<char>, CachedImage<T>>, src: Seq<char>) -> bool {
    cache.dom().contains(src) && cache[src] is Ready
}

/// What the render hook does with a queued image command.
#[derive(Clone, Copy, Debug, PartialEq, Eq, Structural)]
pub enum ImageStep {
    /// The image is decoded: paint it.
    Draw,
    /// The image was unknown: it is now marked loading and the load must start.
    StartLoad,
    /// The image is loading or failed: skip it this frame.
    Wait,
}

/// Shared state of an image overlay layer: the decoded-image cache keyed by source
/// and the commands queued since the last render hook.
pub struct CanvasImageLayerState<T> {
    cache: StringMap<CachedImage<T>>,
    queue: DrawQueue<ImageDrawCommand>,
}

impl<T> CanvasImageLayerState<T> {
    /// The image cache, keyed by source.
    pub closed spec fn cache_view(&self) -> Map<Seq<char>, CachedImage<T>> {
        self.cache@
    }

    /// The queued commands, oldest first.
    pub closed spec fn queue_view(&self) -> Seq<ImageDrawCommand> {
        self.queue@
    }

    /// Creates a layer state with an empty cache and an empty queue.
    pub fn new() -> (r: Self)
        ensures
            r.cache_view() == Map::<Seq<char>, CachedImage<T>>::empty(),
            r.queue_view() == Seq::<ImageDrawCommand>::empty(),
    {
        CanvasImageLayerState { cache: StringMap::new(), queue: DrawQueue::new() }
    }

    /// Queues a command behind those already queued.
    pub fn enqueue(&mut self, command: ImageDrawCommand)
        ensures
            final(self).queue_view() == old(self).queue_view().push(command),
            final(self).cache_view() == old(self).cache_view(),
    {
        self.queue.enqueue(command);
    }

    /// Queues the command of an image widget, unless its area holds no cell.
    /// Returns whether it was queued.
    pub fn submit(&mut self, command: ImageDrawCommand) -> (r: bool)
        ensures
            r == !(command.area.width == 0 || command.area.height == 0),
            final(self).queue_view() == (if r {
                old(self).queue_view().push(command)
            } else {
                old(self).queue_view()
            }),
            final(self).cache_view() == old(self).cache_view(),
    {
        let area = command.area;
        self.queue.submit(area, command)
    }

    /// Hands out every queued command in queue order and empties the queue.
    pub fn drain_queue(&mut self) -> (r: Vec<ImageDrawCommand>)
        ensures
            r@ == old(self).queue_view(),
            final(self).queue_view() == Seq::<ImageDrawCommand>::empty(),
            final(self).cache_view() == old(self).cache_view(),
    {
        self.queue.drain_queue()
    }

    /// Starts a flush of the layer: hands out every queued command in queue order
    /// (the queue is emptied whatever the backend) together with the target the
    /// commands are painted to.  The cache is left as it is.
    pub fn begin_overlay(&mut self, context: &RenderHookContext<'_>) -> (r: (
        Vec<ImageDrawCommand>,
        OverlayTarget,
    ))
        ensures
            r.0@ == old(self).queue_view(),
            r.1 == spec_overlay_target(*context),
            final(self).queue_view() == Seq::<ImageDrawCommand>::empty(),
            final(self).cache_view() == old(self).cache_view(),
    {
        let commands = self.queue.drain_queue();
        (commands, overlay_target(context))
    }

    /// The number of queued commands.
    pub fn queue_len(&self) -> (r: usize)
        ensures
            r == self.queue_view().len(),
    {
        self.queue.len()
    }

    /// True when the cache knows no source.
    pub fn cache_is_empty(&self) -> (r: bool)
        ensures
            r == (self.cache_view() == Map::<Seq<char>, CachedImage<T>>::empty()),
    {
        self.cache.is_empty()
    }

    /// The cache entry of `src`, if the source is known.
    pub fn cache_entry(&self, src: &String) -> (r: Option<&CachedImage<T>>)
        ensures
            match r {
                Some(e) => self.cache_view().dom().contains(src@) && *e == self.cache_view()[src@],
                None => !self.cache_view().dom().contains(src@),
            },
    {
        self.cache.get(src)
    }

    /// The decoded image of `src`, when its load has succeeded.
    pub fn get_cached_image(&self, src: &String) -> (r: Option<&T>)
        ensures
            match r {
                Some(t) => image_ready(self.cache_view(), src@) && self.cache_view()[src@]
                    == CachedImage::Ready(*t),
                None => !image_ready(self.cache_view(), src@),
            },
    {
        match self.cache.get(src) {
            Some(CachedImage::Ready(image)) => Some(image),
            _ => None,
        }
    }

    /// Marks an unknown source as loading and returns `true`, meaning the caller must
    /// start its load; a known source is left as it is and `false` is returned.
    pub fn ensure_image_in_cache(&mut self, src: &String) -> (r: bool)
        ensures
            r == !old(self).cache_view().dom().contains(src@),
            final(self).cache_view() == cache_after_request(old(self).cache_view(), src@),
            final(self).queue_view() == old(self).queue_view(),
    {
        if self.cache.contains_key(src) {
            false
        } else {
            self.cache.insert(src.clone(), CachedImage::Loading);
            true
        }
    }

    /// Records the outcome of the load of `src`: the decoded image, or `None` when
    /// loading or decoding failed.  A source no longer in the cache stays absent.
    pub fn finish_image_load(&mut self, src: &String, image: Option<T>)
        ensures
            final(self).cache_view() == cache_after_load(old(self).cache_view(), src@, image),
            final(self).queue_view() == old(self).queue_view(),
    {
        if self.cache.contains_key(src) {
            let entry = match image {
                Some(t) => CachedImage::Ready(t),
                None => CachedImage::Failed,
            };
            self.cache.insert(src.clone(), entry);
        }
    }

    /// Decides what to do with a queued command for `src`: paint a decoded image,
    /// start the load of an unknown source (marking it loading), or wait.
    pub fn prepare_image(&mut self, src: &String) -> (r: ImageStep)
        ensures
            r == (if image_ready(old(self).cache_view(), src@) {
                ImageStep::Draw
            } else if old(self).cache_view().dom().contains(src@) {
                ImageStep::Wait
            } else {
                ImageStep::StartLoad
            }),
            final(self).cache_view() == cache_after_request(old(self).cache_view(), src@),
            final(self).queue_view() == old(self).queue_view(),
    {
        match self.cache.get(src) {
            Some(CachedImage::Ready(_)) => ImageStep::Draw,
            Some(_) => ImageStep::Wait,
            None => {
                self.cache.insert(src.clone(), CachedImage::Loading);
                ImageStep::StartLoad
            },
        }
    }
}

/// Upload state of the WebGL texture of one image source.
pub enum WebGlTextureState<X> {
    /// The uploaded texture.
    Ready(X),
    /// The upload failed; it is not tried again.
    Failed,
}

/// Whether a texture must be uploaded for a source with this cached state: only a
/// source with no state at all is uploaded.
pub fn texture_upload_needed<X>(state: Option<&WebGlTextureState<X>>) -> (r: bool)
    ensures
        r == state is None,
{
    state.is_none()
}

/// The WebGL textures of an image renderer, keyed by image source.
pub struct ImageTextureCache<X> {
    states: StringMap<WebGlTextureState<X>>,
}

/// The texture state recorded for an upload outcome.
pub open spec fn uploaded_state<X>(texture: Option<X>) -> WebGlTextureState<X> {
    match texture {
        Some(t) => WebGlTextureState::Ready(t),
        None => WebGlTextureState::Failed,
    }
}

impl<X> ImageTextureCache<X> {
    /// The recorded states, keyed by source.
    pub closed spec fn states_view(&self) -> Map<Seq<char>, WebGlTextureState<X>> {
        self.states@
    }

    /// Creates a cache that knows no texture.
    pub fn new() -> (r: Self)
        ensures
            r.states_view() == Map::<Seq<char>, WebGlTextureState<X>>::empty(),
    {
        ImageTextureCache { states: StringMap::new() }
    }

    /// The number of sources with a recorded state.
    pub fn len(&self) -> (r: usize)
        ensures
            r == self.states_view().dom().len(),
    {
        self.states.len()
    }

    /// The recorded state of `src`.
    pub fn lookup(&self, src: &String) -> (r: Option<&WebGlTextureState<X>>)
        ensures
            match r {
                Some(s) => self.states_view().dom().contains(src@) && *s == self.states_view()[src@],
                None => !self.states_view().dom().contains(src@),
            },
    {
        self.states.get(src)
    }

    /// Records the outcome of the upload for `src`: the texture, or `None` when the
    /// upload failed.
    pub fn record_upload(&mut self, src: String, texture: Option<X>)
        ensures
            final(self).states_view() == old(self).states_view().insert(src@, uploaded_state(texture)),
    {
        let state = match texture {
            Some(t) => WebGlTextureState::Ready(t),
            None => WebGlTextureState::Failed,
        };
        self.states.insert(src, state);
    }
}

/// Requesting a source twice starts one load: after a request the source is known,
/// so a second request changes nothing (and reports that no load must start).
pub proof fn law_image_requested_once<T>(cache: Map<Seq<char>, CachedImage<T>>, src: Seq<char>)
    ensures
        cache_after_request(cache, src).dom().contains(src),
        cache_after_request(cache_after_request(cache, src), src) == cache_after_request(cache, src),
{
}

/// Requests and finished loads never forget a source: the known sources only grow,
/// and a finished load adds none.
pub proof fn law_image_cache_keeps_sources<T>(
    cache: Map<Seq<char>, CachedImage<T>>,
    src: Seq<char>,
    image: Option<T>,
)
    ensures
        cache.dom().subset_of(cache_after_request(cache, src).dom()),
        cache_after_load(cache, src, image).dom() == cache.dom(),
{
    assert(cache_after_load(cache, src, image).dom() =~= cache.dom());
}

/// A load that finished after its source was requested leaves the decoded image
/// ready for drawing, or marks the source failed so that it is not loaded again.
pub proof fn law_image_load_outcome<T>(
    cache: Map<Seq<char>, CachedImage<T>>,
    src: Seq<char>,
    image: Option<T>,
)
    ensures
        ({
            let after = cache_after_load(cache_after_request(cache, src), src, image);
            &&& image is Some ==> image_ready(after, src) && after[src] == CachedImage::Ready(
                image.unwrap(),
            )
            &&& image is None ==> after[src] is Failed && cache_after_request(after, src) == after
        }),
{
}

/// A texture is uploaded at most once per source: after an upload is recorded,
/// successful or not, the source never needs another upload, and a recorded texture
/// is the one handed out afterwards.
pub proof fn law_texture_uploaded_once<X>(
    states: Map<Seq<char>, WebGlTextureState<X>>,
    src: Seq<char>,
    texture: Option<X>,
)
    ensures
        ({
            let after = states.insert(src, uploaded_state(texture));
            &&& after.dom().contains(src)
            &&& texture matches Some(t) ==> after[src] == WebGlTextureState::Ready(t)
            &&& texture is None ==> after[src] is Failed
        }),
{
}

} // verus!
