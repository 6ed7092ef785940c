use vstd::prelude::*;

use crate::draw_queue::DrawQueue;
use crate::error::{make_error, Error};
use crate::geometry::CellArea;
use crate::image::ImageFit;
use crate::string_map::{entries_map, keys_distinct, StringMap};

verus! {

/// Cross-origin mode assigned before the video's `src`.
#[derive(Clone, Copy, Debug, PartialEq, Eq, Structural)]
pub enum VideoCrossOrigin {
    /// Send no credentials.
    Anonymous,
    /// Send credentials when the server permits them.
    UseCredentials,
}

/// The browser `crossOrigin` attribute value for a video cross-origin mode.
pub fn video_cross_origin_attribute(mode: Option<VideoCrossOrigin>) -> (r: Option<&'static str>)
    ensures
        match mode {
            None => r is None,
            Some(VideoCrossOrigin::Anonymous) => r matches Some(s) && s@ == "anonymous"@,
            Some(VideoCrossOrigin::UseCredentials) => r matches Some(s) && s@
                == "use-credentials"@,
        },
{
    match mode {
        Some(VideoCrossOrigin::Anonymous) => Some("anonymous"),
        Some(VideoCrossOrigin::UseCredentials) => Some("use-credentials"),
        None => None,
    }
}

/// Browser preload hint.
#[derive(Clone, Copy, Debug, PartialEq, Eq, Structural)]
pub enum VideoPreload {
    /// Do not preload media data.
    Disabled,
    /// Preload metadata only.
    Metadata,
    /// Let the browser preload media data.
    Auto,
}

impl Default for VideoPreload {
    fn default() -> (r: Self)
        ensures
            r == VideoPreload::Auto,
    {
        VideoPreload::Auto
    }
}

impl VideoPreload {
    /// The value of the browser `preload` attribute.
    pub fn attribute(self) -> (r: &'static str)
        ensures
            self == VideoPreload::Disabled ==> r@ == "none"@,
            self == VideoPreload::Metadata ==> r@ == "metadata"@,
            self == VideoPreload::Auto ==> r@ == "auto"@,
    {
        match self {
            VideoPreload::Disabled => "none",
            VideoPreload::Metadata => "metadata",
            VideoPreload::Auto => "auto",
        }
    }
}

/// A browser media error snapshot.
#[derive(Clone, Debug, PartialEq, Eq)]
pub struct VideoMediaError {
    /// Browser `MediaError.code` value.
    pub code: u16,
    /// Browser-provided diagnostic message, when available.
    pub message: String,
}

/// Errors returned by video controls.
#[derive(Debug)]
pub enum VideoError {
    /// No widget with this ID has reached its render hook yet.
    NotInitialized,
    /// A numeric control value was outside its valid range.
    InvalidValue(&'static str),
    /// The browser rejected the operation (including autoplay-policy rejections).
    Browser(web_sys::wasm_bindgen::JsValue),
}

impl From<web_sys::wasm_bindgen::JsValue> for VideoError {
    fn from(value: web_sys::wasm_bindgen::JsValue) -> (r: Self) {
        VideoError::Browser(value)
    }
}

impl vstd::std_specs::convert::FromSpecImpl<web_sys::wasm_bindgen::JsValue> for VideoError {
    open spec fn obeys_from_spec() -> bool {
        true
    }

    open spec fn from_spec(v: web_sys::wasm_bindgen::JsValue) -> Self {
        VideoError::Browser(v)
    }
}

/// Whether a media element has a current frame to draw: its `readyState` is at
/// least `HAVE_CURRENT_DATA` (2).
pub fn frame_available(ready_state: u16) -> (r: bool)
    ensures
        r == (ready_state >= 2),
{
    ready_state >= 2
}

/// A video widget queued for painting, with the playback settings it declares.
pub struct VideoCommand {
    pub id: String,
    pub src: String,
    pub area: CellArea,
    pub fit: ImageFit,
    pub smoothing: bool,
    pub cross_origin: Option<VideoCrossOrigin>,
    pub looping: bool,
    pub muted: bool,
    pub preload: VideoPreload,
    pub plays_inline: bool,
    pub autoplay: bool,
}

/// The persistent playback instance of one video id: its media element, the source
/// and cross-origin mode it was configured with, the muted state last applied, and
/// the generation that identifies its current source.
pub struct VideoInstance<E> {
    pub element: E,
    pub src: String,
    pub cross_origin: Option<VideoCrossOrigin>,
    pub configured_muted: bool,
    pub generation: u64,
}

/// Whether an element configured with `current_src` and `current_cors` must be given
/// a new source to play `next_src` with `next_cors`.
pub fn source_changed(
    current_src: &String,
    current_cors: Option<VideoCrossOrigin>,
    next_src: &String,
    next_cors: Option<VideoCrossOrigin>,
) -> (r: bool)
    ensures
        r == (current_src@ != next_src@ || current_cors != next_cors),
{
    let same_cors = match (current_cors, next_cors) {
        (None, None) => true,
        (Some(a), Some(b)) => a == b,
        _ => false,
    };
    !(*current_src == *next_src) || !same_cors
}

/// How `ensure_instance` treated the source of the element.
#[derive(Clone, Copy, Debug, PartialEq, Eq, Structural)]
pub enum SourceUpdate {
    /// A new element was registered: configure its source.
    Created,
    /// The source or cross-origin mode changed: pause the element, forget its last
    /// playback error and configure the new source.
    Replaced,
    /// The element keeps its source.
    Kept,
}

/// What the caller must do to the element after `ensure_instance`.
#[derive(Clone, Copy, Debug, PartialEq, Eq, Structural)]
pub struct InstanceUpdate {
    pub source: SourceUpdate,
    /// Apply the command's muted state to the element.
    pub set_muted: bool,
    /// The generation of the element's current source.
    pub generation: u64,
}

/// Whether an instance must be given the command's source.
pub open spec fn source_differs<E>(instance: VideoInstance<E>, command: VideoCommand) -> bool {
    instance.src@ != command.src@ || instance.cross_origin != command.cross_origin
}

/// The value stored for `k`, if any.
pub open spec fn lookup<V>(m: Map<Seq<char>, V>, k: Seq<char>) -> Option<V> {
    if m.dom().contains(k) {
        Some(m[k])
    } else {
        None
    }
}

/// The instance of the command's id after `ensure_instance`: a known instance keeps
/// its element and takes the command's source (with generation `next + 1`) when the
/// source changed, and the command's muted state in any case; an unknown id is
/// registered with the fresh element and generation `next + 1`, if one was given.
pub open spec fn instance_after<E>(
    current: Option<VideoInstance<E>>,
    command: VideoCommand,
    fresh: Option<E>,
    next: u64,
) -> Option<VideoInstance<E>> {
    match current {
        Some(o) => if source_differs(o, command) {
            Some(
                VideoInstance {
                    element: o.element,
                    src: command.src,
                    cross_origin: command.cross_origin,
                    configured_muted: command.muted,
                    generation: (next + 1) as u64,
                },
            )
        } else {
            Some(
                VideoInstance {
                    element: o.element,
                    src: o.src,
                    cross_origin: o.cross_origin,
                    configured_muted: command.muted,
                    generation: o.generation,
                },
            )
        },
        None => match fresh {
            Some(e) => Some(
                VideoInstance {
                    element: e,
                    src: command.src,
                    cross_origin: command.cross_origin,
                    configured_muted: command.muted,
                    generation: (next + 1) as u64,
                },
            ),
            None => None,
        },
    }
}

/// Whether `ensure_instance` configures a source (and so draws a new generation).
pub open spec fn configures_source<E>(
    current: Option<VideoInstance<E>>,
    command: VideoCommand,
    fresh: Option<E>,
) -> bool {
    match current {
        Some(o) => source_differs(o, command),
        None => fresh is Some,
    }
}

/// The update reported to the caller by `ensure_instance`.
pub open spec fn update_after<E>(
    current: Option<VideoInstance<E>>,
    command: VideoCommand,
    fresh: Option<E>,
    next: u64,
) -> InstanceUpdate {
    let generation = instance_after(current, command, fresh, next).unwrap().generation;
    match current {
        Some(o) => if source_differs(o, command) {
            InstanceUpdate { source: SourceUpdate::Replaced, set_muted: false, generation }
        } else {
            InstanceUpdate {
                source: SourceUpdate::Kept,
                set_muted: o.configured_muted != command.muted,
                generation,
            }
        },
        None => InstanceUpdate { source: SourceUpdate::Created, set_muted: false, generation },
    }
}

/// Whether the id is kept out of the queue by a release.
pub open spec fn command_kept(id: Seq<char>) -> spec_fn(VideoCommand) -> bool {
    |c: VideoCommand| c.id@ != id
}

/// The strings of a list, as a set.
pub open spec fn string_set(s: Seq<String>) -> Set<Seq<char>> {
    Set::new(|k: Seq<char>| exists|j: int| 0 <= j < s.len() && #[trigger] s[j]@ == k)
}

/// Whether no string occurs twice in a list.
pub open spec fn strings_distinct(s: Seq<String>) -> bool {
    forall|a: int, b: int| 0 <= a < s.len() && 0 <= b < s.len() && a != b ==> #[trigger] s[a]@ != #[trigger] s[b]@
}

/// What the render hook takes from the layer at the start of a flush.
pub struct VideoFrameWork {
    /// The queued commands, oldest first.
    pub queue: Vec<VideoCommand>,
    /// Ids whose cached textures must be deleted.
    pub released: Vec<String>,
    /// Whether all cached textures must be deleted.
    pub clear_resources: bool,
}

/// The fields of a video layer's state, with their well-formedness made explicit.
struct LayerParts<E> {
    instances: StringMap<VideoInstance<E>>,
    queue: DrawQueue<VideoCommand>,
    released: StringMap<()>,
    clear_resources: bool,
    next_generation: u64,
}

impl<E> LayerParts<E> {
    /// The playback instances, keyed by id.
    spec fn instances_view(&self) -> Map<Seq<char>, VideoInstance<E>> {
        self.instances@
    }

    /// The queued commands, oldest first.
    spec fn queue_view(&self) -> Seq<VideoCommand> {
        self.queue@
    }

    /// The ids released since the last flush.
    spec fn released_view(&self) -> Set<Seq<char>> {
        self.released@.dom()
    }

    /// Whether every backend resource must be dropped at the next flush.
    spec fn clear_pending(&self) -> bool {
        self.clear_resources
    }

    /// The last generation handed out.
    spec fn generation_counter(&self) -> u64 {
        self.next_generation
    }

    /// Every instance's generation was handed out already, and no two instances share
    /// one.
    spec fn wf(&self) -> bool {
        &&& forall|k: Seq<char>| #[trigger]
            self.instances@.dom().contains(k) ==> self.instances@[k].generation
                <= self.next_generation
        &&& forall|a: Seq<char>, b: Seq<char>|
            #![trigger self.instances@.dom().contains(a), self.instances@.dom().contains(b)]
            self.instances@.dom().contains(a) && self.instances@.dom().contains(b) && a != b
                ==> self.instances@[a].generation != self.instances@[b].generation
    }

    /// Creates an empty layer state.
    fn new() -> (r: Self)
        ensures
            r.wf(),
            r.instances_view() == Map::<Seq<char>, VideoInstance<E>>::empty(),
            r.queue_view() == Seq::<VideoCommand>::empty(),
            r.released_view() == Set::<Seq<char>>::empty(),
            !r.clear_pending(),
            r.generation_counter() == 0,
    {
        LayerParts {
            instances: StringMap::new(),
            queue: DrawQueue::new(),
            released: StringMap::new(),
            clear_resources: false,
            next_generation: 0,
        }
    }

    /// Queues the command of a video widget, unless its area holds no cell.
    /// Returns whether it was queued.
    fn submit(&mut self, command: VideoCommand) -> (r: bool)
        requires
            old(self).wf(),
        ensures
            final(self).wf(),
            r == !(command.area.width == 0 || command.area.height == 0),
            final(self).queue_view() == (if r {
                old(self).queue_view().push(command)
            } else {
                old(self).queue_view()
            }),
            final(self).instances_view() == old(self).instances_view(),
            final(self).released_view() == old(self).released_view(),
            final(self).clear_pending() == old(self).clear_pending(),
            final(self).generation_counter() == old(self).generation_counter(),
    {
        let area = command.area;
        self.queue.submit(area, command)
    }

    /// The last generation handed out.
    fn last_generation(&self) -> (r: u64)
        ensures
            r == self.generation_counter(),
    {
        self.next_generation
    }

    /// The number of playback instances.
    fn instance_count(&self) -> (r: usize)
        ensures
            r == self.instances_view().dom().len(),
    {
        self.instances.len()
    }

    /// The number of queued commands.
    fn queue_len(&self) -> (r: usize)
        ensures
            r == self.queue_view().len(),
    {
        self.queue.len()
    }

    /// Whether `id` has no playback instance yet, so that its element must be created
    /// before `ensure_instance`.
    fn needs_element(&self, id: &String) -> (r: bool)
        ensures
            r == !self.instances_view().dom().contains(id@),
    {
        !self.instances.contains_key(id)
    }

    /// The playback instance of `id`; controls of an id whose widget has not reached a
    /// render hook yet fail with `NotInitialized`.
    fn instance(&self, id: &String) -> (r: Result<&VideoInstance<E>, VideoError>)
        ensures
            match r {
                Ok(i) => self.instances_view().dom().contains(id@) && *i == self.instances_view()[id@],
                Err(e) => !self.instances_view().dom().contains(id@) && e is NotInitialized,
            },
    {
        match self.instances.get(id) {
            Some(i) => Ok(i),
            None => Err(VideoError::NotInitialized),
        }
    }

    /// Releases the instance of `id`: it leaves the registry, its queued commands are
    /// dropped and the id is recorded as released so that its texture is deleted at
    /// the next flush.  Returns the instance, whose element the caller releases.
    fn release(&mut self, id: &String) -> (r: Option<VideoInstance<E>>)
        requires
            old(self).wf(),
        ensures
            final(self).wf(),
            r == lookup(old(self).instances_view(), id@),
            final(self).instances_view() == old(self).instances_view().remove(id@),
            final(self).queue_view() == old(self).queue_view().filter(command_kept(id@)),
            final(self).released_view() == old(self).released_view().insert(id@),
            final(self).clear_pending() == old(self).clear_pending(),
            final(self).generation_counter() == old(self).generation_counter(),
    {
        let removed = self.instances.remove(id);
        let mut pending = self.queue.drain_queue();
        let ghost original = pending@;
        let mut kept: DrawQueue<VideoCommand> = DrawQueue::new();
        let ghost mut k: int = 0;
        while pending.len() > 0
            invariant
                0 <= k <= original.len(),
                pending@ == original.skip(k),
                kept@ == original.take(k).filter(command_kept(id@)),
            decreases pending@.len(),
        {
            let command = pending.remove(0);
            proof {
                assert(command == original[k]);
                assert(original.take(k + 1) =~= original.take(k) + seq![original[k]]);
                Seq::filter_distributes_over_add(original.take(k), seq![original[k]], command_kept(id@));
                reveal_with_fuel(Seq::filter, 2);
                assert(seq![original[k]].drop_last() =~= Seq::<VideoCommand>::empty());
                assert(original.skip(k + 1) =~= original.skip(k).drop_first());
            }
            if !(command.id == *id) {
                kept.enqueue(command);
            } else {
                assert(seq![original[k]].filter(command_kept(id@)) =~= Seq::<VideoCommand>::empty());
            }
            proof {
                k = k + 1;
            }
        }
        assert(original.take(k) =~= original);
        self.queue = kept;
        self.released.insert(id.clone(), ());
        assert(self.released@.dom() =~= old(self).released@.dom().insert(id@));
        removed
    }

    /// Releases every instance: the registry and the queue are emptied, every former
    /// id is recorded as released and every backend resource is dropped at the next
    /// flush.  Returns the former instances with their ids, whose elements the caller
    /// releases.
    fn clear(&mut self) -> (r: Vec<(String, VideoInstance<E>)>)
        requires
            old(self).wf(),
        ensures
            final(self).wf(),
            keys_distinct(r@),
            entries_map(r@) == old(self).instances_view(),
            final(self).instances_view() == Map::<Seq<char>, VideoInstance<E>>::empty(),
            final(self).queue_view() == Seq::<VideoCommand>::empty(),
            final(self).released_view() == old(self).released_view().union(
                old(self).instances_view().dom(),
            ),
            final(self).clear_pending(),
            final(self).generation_counter() == old(self).generation_counter(),
    {
        let taken = self.instances.take_all();
        let mut i: usize = 0;
        while i < taken.len()
            invariant
                i <= taken@.len(),
                keys_distinct(taken@),
                entries_map(taken@) == old(self).instances_view(),
                self.instances@ == Map::<Seq<char>, VideoInstance<E>>::empty(),
                self.next_generation == old(self).next_generation,
                self.released@.dom() == old(self).released@.dom().union(
                    Set::new(|k: Seq<char>| exists|j: int| 0 <= j < i && #[trigger] taken@[j].0@ == k),
                ),
            decreases taken@.len() - i,
        {
            let id = taken[i].0.clone();
            self.released.insert(id, ());
            assert(self.released@.dom() =~= old(self).released@.dom().union(
                Set::new(|k: Seq<char>| exists|j: int| 0 <= j < i + 1 && #[trigger] taken@[j].0@ == k),
            ));
            i = i + 1;
        }
        assert(Set::new(|k: Seq<char>| exists|j: int| 0 <= j < i && #[trigger] taken@[j].0@ == k)
            =~= old(self).instances@.dom());
        let _ = self.queue.drain_queue();
        self.clear_resources = true;
        taken
    }

    /// Takes what a flush works on: the queued commands, the released ids and the
    /// pending full clear, resetting all three.
    fn begin_frame(&mut self) -> (r: VideoFrameWork)
        requires
            old(self).wf(),
        ensures
            final(self).wf(),
            r.queue@ == old(self).queue_view(),
            string_set(r.released@) == old(self).released_view(),
            strings_distinct(r.released@),
            r.clear_resources == old(self).clear_pending(),
            final(self).queue_view() == Seq::<VideoCommand>::empty(),
            final(self).released_view() == Set::<Seq<char>>::empty(),
            !final(self).clear_pending(),
            final(self).instances_view() == old(self).instances_view(),
            final(self).generation_counter() == old(self).generation_counter(),
    {
        let queue = self.queue.drain_queue();
        let taken = self.released.take_all();
        let mut released: Vec<String> = Vec::new();
        let mut i: usize = 0;
        while i < taken.len()
            invariant
                i <= taken@.len(),
                released@.len() == i,
                keys_distinct(taken@),
                forall|j: int| 0 <= j < i ==> #[trigger] released@[j]@ == taken@[j].0@,
            decreases taken@.len() - i,
        {
            released.push(taken[i].0.clone());
            i = i + 1;
        }
        proof {
            assert forall|k: Seq<char>| string_set(released@).contains(k) <==> old(self).released@.dom().contains(k) by {
                if string_set(released@).contains(k) {
                    let j = choose|j: int| 0 <= j < released@.len() && #[trigger] released@[j]@ == k;
                    assert(taken@[j].0@ == k);
                }
                if old(self).released@.dom().contains(k) {
                    let j = choose|j: int| 0 <= j < taken@.len() && #[trigger] taken@[j].0@ == k;
                    assert(released@[j]@ == k);
                }
            }
            assert(string_set(released@) =~= old(self).released@.dom());
            assert forall|a: int, b: int|
                0 <= a < released@.len() && 0 <= b < released@.len() && a != b implies #[trigger] released@[a]@
                != #[trigger] released@[b]@ by {
                assert(released@[a]@ == taken@[a].0@);
                assert(released@[b]@ == taken@[b].0@);
            }
            assert(self.released@.dom() =~= Set::<Seq<char>>::empty());
        }
        let clear_resources = self.clear_resources;
        self.clear_resources = false;
        VideoFrameWork { queue, released, clear_resources }
    }

    /// The element of `id`, if it has a playback instance.
    fn element(&self, id: &String) -> (r: Option<&E>)
        ensures
            match r {
                Some(e) => self.instances_view().dom().contains(id@) && *e == self.instances_view()[id@].element,
                None => !self.instances_view().dom().contains(id@),
            },
    {
        match self.instances.get(id) {
            Some(i) => Some(&i.element),
            None => None,
        }
    }

    /// Makes sure the command's id has a playback instance playing the command's
    /// source.  `fresh` is the element to register when the id is unknown (see
    /// `needs_element`).  A changed source or cross-origin mode is recorded with a new
    /// generation; the command's muted state is recorded in any case.  The result
    /// tells the caller which element updates to perform; an unknown id with no fresh
    /// element is an error and changes nothing.
    fn ensure_instance(&mut self, command: &VideoCommand, fresh: Option<E>) -> (r: Result<
        InstanceUpdate,
        Error,
    >)
        requires
            old(self).wf(),
            old(self).generation_counter() < u64::MAX,
        ensures
            final(self).wf(),
            ({
                let current = lookup(old(self).instances_view(), command.id@);
                match instance_after(current, *command, fresh, old(self).generation_counter()) {
                    Some(next) => {
                        &&& final(self).instances_view() == old(self).instances_view().insert(
                            command.id@,
                            next,
                        )
                        &&& r == Ok::<InstanceUpdate, Error>(
                            update_after(current, *command, fresh, old(self).generation_counter()),
                        )
                    },
                    None => {
                        &&& final(self).instances_view() == old(self).instances_view()
                        &&& r matches Err(Error::UnableToRetrieveElementById(m)) && m@
                            == "video instance was not created"@
                    },
                }
            }),
            lookup(old(self).instances_view(), command.id@) matches Some(o) ==> (if o.src@
                == command.src@ && o.cross_origin == command.cross_origin {
                r matches Ok(u) && u.source == SourceUpdate::Kept && u.set_muted == (
                o.configured_muted != command.muted) && u.generation == o.generation
            } else {
                r matches Ok(u) && u.source == SourceUpdate::Replaced && !u.set_muted
                    && u.generation == old(self).generation_counter() + 1
            }),
            r is Ok ==> final(self).instances_view().dom().contains(command.id@)
                && final(self).instances_view()[command.id@].configured_muted == command.muted,
            final(self).generation_counter() == (if configures_source(
                lookup(old(self).instances_view(), command.id@),
                *command,
                fresh,
            ) {
                old(self).generation_counter() + 1
            } else {
                old(self).generation_counter() as int
            }),
            final(self).queue_view() == old(self).queue_view(),
            final(self).released_view() == old(self).released_view(),
            final(self).clear_pending() == old(self).clear_pending(),
    {
        let ghost before = self.instances@;
        let ghost next = self.next_generation;
        match self.instances.remove(&command.id) {
            None => {
                match fresh {
                    None => Err(make_error("video instance was not created".to_string())),
                    Some(element) => {
                        self.next_generation = self.next_generation + 1;
                        let generation = self.next_generation;
                        let instance = VideoInstance {
                            element,
                            src: command.src.clone(),
                            cross_origin: command.cross_origin,
                            configured_muted: command.muted,
                            generation,
                        };
                        self.instances.insert(command.id.clone(), instance);
                        assert(self.instances@ =~= before.insert(command.id@, self.instances@[command.id@]));
                        Ok(InstanceUpdate { source: SourceUpdate::Created, set_muted: false, generation })
                    },
                }
            },
            Some(instance) => {
                let mut instance = instance;
                if source_changed(&instance.src, instance.cross_origin, &command.src, command.cross_origin) {
                    self.next_generation = self.next_generation + 1;
                    instance.src = command.src.clone();
                    instance.cross_origin = command.cross_origin;
                    instance.configured_muted = command.muted;
                    instance.generation = self.next_generation;
                    let generation = instance.generation;
                    self.instances.insert(command.id.clone(), instance);
                    assert(self.instances@ =~= before.insert(command.id@, self.instances@[command.id@]));
                    Ok(InstanceUpdate { source: SourceUpdate::Replaced, set_muted: false, generation })
                } else {
                    let set_muted = instance.configured_muted != command.muted;
                    instance.configured_muted = command.muted;
                    let generation = instance.generation;
                    self.instances.insert(command.id.clone(), instance);
                    assert(self.instances@ =~= before.insert(command.id@, self.instances@[command.id@]));
                    Ok(InstanceUpdate { source: SourceUpdate::Kept, set_muted, generation })
                }
            },
        }
    }
}

/// Shared state of a video layer: the playback instances keyed by id, the commands
/// queued since the last flush, the ids released since then, whether every backend
/// resource must be dropped, and the last generation handed out.
pub struct VideoLayerState<E> {
    parts: LayerParts<E>,
}

impl<E> VideoLayerState<E> {
    /// The playback instances, keyed by id.
    pub closed spec fn instances_view(&self) -> Map<Seq<char>, VideoInstance<E>> {
        self.parts.instances_view()
    }

    /// The queued commands, oldest first.
    pub closed spec fn queue_view(&self) -> Seq<VideoCommand> {
        self.parts.queue_view()
    }

    /// The ids released since the last flush.
    pub closed spec fn released_view(&self) -> Set<Seq<char>> {
        self.parts.released_view()
    }

    /// Whether every backend resource must be dropped at the next flush.
    pub closed spec fn clear_pending(&self) -> bool {
        self.parts.clear_pending()
    }

    /// The last generation handed out.
    pub closed spec fn generation_counter(&self) -> u64 {
        self.parts.generation_counter()
    }

    /// Every instance's generation was handed out already, and no two instances share
    /// one.
    #[verifier::type_invariant]
    spec fn wf(&self) -> bool {
        self.parts.wf()
    }

    /// Creates an empty layer state.
    pub fn new() -> (r: Self)
        ensures
            r.instances_view() == Map::<Seq<char>, VideoInstance<E>>::empty(),
            r.queue_view() == Seq::<VideoCommand>::empty(),
            r.released_view() == Set::<Seq<char>>::empty(),
            !r.clear_pending(),
            r.generation_counter() == 0,
    {
        VideoLayerState { parts: LayerParts::new() }
    }

    /// Queues the command of a video widget, unless its area holds no cell.
    /// Returns whether it was queued.
    pub fn submit(&mut self, command: VideoCommand) -> (r: bool)
        ensures
            r == !(command.area.width == 0 || command.area.height == 0),
            final(self).queue_view() == (if r {
                old(self).queue_view().push(command)
            } else {
                old(self).queue_view()
            }),
            final(self).instances_view() == old(self).instances_view(),
            final(self).released_view() == old(self).released_view(),
            final(self).clear_pending() == old(self).clear_pending(),
            final(self).generation_counter() == old(self).generation_counter(),
    {
        proof {
            use_type_invariant(&*self);
        }
        let mut parts = LayerParts::new();
        std::mem::swap(&mut parts, &mut self.parts);
        let r = parts.submit(command);
        self.parts = parts;
        r
    }

    /// The last generation handed out.
    pub fn last_generation(&self) -> (r: u64)
        ensures
            r == self.generation_counter(),
    {
        self.parts.last_generation()
    }

    /// The number of playback instances.
    pub fn instance_count(&self) -> (r: usize)
        ensures
            r == self.instances_view().dom().len(),
    {
        self.parts.instance_count()
    }

    /// The number of queued commands.
    pub fn queue_len(&self) -> (r: usize)
        ensures
            r == self.queue_view().len(),
    {
        self.parts.queue_len()
    }

    /// Whether `id` has no playback instance yet, so that its element must be created
    /// before `ensure_instance`.
    pub fn needs_element(&self, id: &String) -> (r: bool)
        ensures
            r == !self.instances_view().dom().contains(id@),
    {
        self.parts.needs_element(id)
    }

    /// The playback instance of `id`; controls of an id whose widget has not reached a
    /// render hook yet fail with `NotInitialized`.
    pub fn instance(&self, id: &String) -> (r: Result<&VideoInstance<E>, VideoError>)
        ensures
            match r {
                Ok(i) => self.instances_view().dom().contains(id@) && *i == self.instances_view()[id@],
                Err(e) => !self.instances_view().dom().contains(id@) && e is NotInitialized,
            },
    {
        self.parts.instance(id)
    }

    /// Releases the instance of `id`: it leaves the registry, its queued commands are
    /// dropped and the id is recorded as released so that its texture is deleted at
    /// the next flush.  Returns the instance, whose element the caller releases.
    pub fn release(&mut self, id: &String) -> (r: Option<VideoInstance<E>>)
        ensures
            r == lookup(old(self).instances_view(), id@),
            final(self).instances_view() == old(self).instances_view().remove(id@),
            final(self).queue_view() == old(self).queue_view().filter(command_kept(id@)),
            final(self).released_view() == old(self).released_view().insert(id@),
            final(self).clear_pending() == old(self).clear_pending(),
            final(self).generation_counter() == old(self).generation_counter(),
    {
        proof {
            use_type_invariant(&*self);
        }
        let mut parts = LayerParts::new();
        std::mem::swap(&mut parts, &mut self.parts);
        let r = parts.release(id);
        self.parts = parts;
        r
    }

    /// Releases every instance: the registry and the queue are emptied, every former
    /// id is recorded as released and every backend resource is dropped at the next
    /// flush.  Returns the former instances with their ids, whose elements the caller
    /// releases.
    pub fn clear(&mut self) -> (r: Vec<(String, VideoInstance<E>)>)
        ensures
            keys_distinct(r@),
            entries_map(r@) == old(self).instances_view(),
            final(self).instances_view() == Map::<Seq<char>, VideoInstance<E>>::empty(),
            final(self).queue_view() == Seq::<VideoCommand>::empty(),
            final(self).released_view() == old(self).released_view().union(
                old(self).instances_view().dom(),
            ),
            final(self).clear_pending(),
            final(self).generation_counter() == old(self).generation_counter(),
    {
        proof {
            use_type_invariant(&*self);
        }
        let mut parts = LayerParts::new();
        std::mem::swap(&mut parts, &mut self.parts);
        let r = parts.clear();
        self.parts = parts;
        r
    }

    /// Takes what a flush works on: the queued commands, the released ids and the
    /// pending full clear, resetting all three.
    pub fn begin_frame(&mut self) -> (r: VideoFrameWork)
        ensures
            r.queue@ == old(self).queue_view(),
            string_set(r.released@) == old(self).released_view(),
            strings_distinct(r.released@),
            r.clear_resources == old(self).clear_pending(),
            final(self).queue_view() == Seq::<VideoCommand>::empty(),
            final(self).released_view() == Set::<Seq<char>>::empty(),
            !final(self).clear_pending(),
            final(self).instances_view() == old(self).instances_view(),
            final(self).generation_counter() == old(self).generation_counter(),
    {
        proof {
            use_type_invariant(&*self);
        }
        let mut parts = LayerParts::new();
        std::mem::swap(&mut parts, &mut self.parts);
        let r = parts.begin_frame();
        self.parts = parts;
        r
    }

    /// The element of `id`, if it has a playback instance.
    pub fn element(&self, id: &String) -> (r: Option<&E>)
        ensures
            match r {
                Some(e) => self.instances_view().dom().contains(id@) && *e == self.instances_view()[id@].element,
                None => !self.instances_view().dom().contains(id@),
            },
    {
        self.parts.element(id)
    }

    /// Makes sure the command's id has a playback instance playing the command's
    /// source.  `fresh` is the element to register when the id is unknown (see
    /// `needs_element`).  A changed source or cross-origin mode is recorded with a new
    /// generation; the command's muted state is recorded in any case.  The result
    /// tells the caller which element updates to perform; an unknown id with no fresh
    /// element is an error and changes nothing.
    pub fn ensure_instance(&mut self, command: &VideoCommand, fresh: Option<E>) -> (r: Result<
        InstanceUpdate,
        Error,
    >)
        requires
            old(self).generation_counter() < u64::MAX,
        ensures
            ({
                let current = lookup(old(self).instances_view(), command.id@);
                match instance_after(current, *command, fresh, old(self).generation_counter()) {
                    Some(next) => {
                        &&& final(self).instances_view() == old(self).instances_view().insert(
                            command.id@,
                            next,
                        )
                        &&& r == Ok::<InstanceUpdate, Error>(
                            update_after(current, *command, fresh, old(self).generation_counter()),
                        )
                    },
                    None => {
                        &&& final(self).instances_view() == old(self).instances_view()
                        &&& r matches Err(Error::UnableToRetrieveElementById(m)) && m@
                            == "video instance was not created"@
                    },
                }
            }),
            lookup(old(self).instances_view(), command.id@) matches Some(o) ==> (if o.src@
                == command.src@ && o.cross_origin == command.cross_origin {
                r matches Ok(u) && u.source == SourceUpdate::Kept && u.set_muted == (
                o.configured_muted != command.muted) && u.generation == o.generation
            } else {
                r matches Ok(u) && u.source == SourceUpdate::Replaced && !u.set_muted
                    && u.generation == old(self).generation_counter() + 1
            }),
            r is Ok ==> final(self).instances_view().dom().contains(command.id@)
                && final(self).instances_view()[command.id@].configured_muted == command.muted,
            final(self).generation_counter() == (if configures_source(
                lookup(old(self).instances_view(), command.id@),
                *command,
                fresh,
            ) {
                old(self).generation_counter() + 1
            } else {
                old(self).generation_counter() as int
            }),
            final(self).queue_view() == old(self).queue_view(),
            final(self).released_view() == old(self).released_view(),
            final(self).clear_pending() == old(self).clear_pending(),
    {
        proof {
            use_type_invariant(&*self);
        }
        let mut parts = LayerParts::new();
        std::mem::swap(&mut parts, &mut self.parts);
        let r = parts.ensure_instance(command, fresh);
        self.parts = parts;
        r
    }
}

/// Upload tracking of the WebGL texture of one video id: the texture, the generation
/// of the source it shows, the playback time of the last uploaded frame, and whether
/// a frame was uploaded or an upload failed for this generation.
pub struct VideoTexture<X, T> {
    pub texture: X,
    pub generation: u64,
    pub last_time: Option<T>,
    pub uploaded: bool,
    pub upload_failed: bool,
}

/// Tracking for a texture of the given source generation, with nothing uploaded yet.
pub open spec fn fresh_texture<X, T>(texture: X, generation: u64) -> VideoTexture<X, T> {
    VideoTexture { texture, generation, last_time: None, uploaded: false, upload_failed: false }
}

/// The tracking as used for a video of `generation`: tracking of another generation starts
/// over (keeping its texture), one of the same generation is unchanged.
pub open spec fn texture_for_generation<X, T>(state: VideoTexture<X, T>, generation: u64) -> VideoTexture<X, T> {
    if state.generation != generation {
        fresh_texture(state.texture, generation)
    } else {
        state
    }
}

/// The tracking after an upload attempt of the frame at `time`.
pub open spec fn texture_after_upload<X, T>(state: VideoTexture<X, T>, time: T, succeeded: bool) -> VideoTexture<X, T> {
    if succeeded {
        VideoTexture { last_time: Some(time), uploaded: true, ..state }
    } else {
        VideoTexture { upload_failed: true, ..state }
    }
}

impl<X, T> VideoTexture<X, T> {
    /// Tracking for a new texture showing the given source generation.
    pub fn new(texture: X, generation: u64) -> (r: Self)
        ensures
            r == fresh_texture::<X, T>(texture, generation),
    {
        VideoTexture { texture, generation, last_time: None, uploaded: false, upload_failed: false }
    }

    /// Prepares the tracking for a video of `generation` and tells whether the texture may
    /// be used: a texture whose upload failed for this generation is not used again.
    pub fn begin_use(&mut self, generation: u64) -> (r: bool)
        ensures
            *final(self) == texture_for_generation(*old(self), generation),
            r == !final(self).upload_failed,
    {
        if self.generation != generation {
            self.generation = generation;
            self.last_time = None;
            self.uploaded = false;
            self.upload_failed = false;
        }
        !self.upload_failed
    }

    /// Whether the current frame must be uploaded: nothing was uploaded yet, or the
    /// playback time differs from that of the last upload (`same_time` tells whether
    /// it is the same).
    pub fn needs_upload(&self, same_time: bool) -> (r: bool)
        ensures
            r == (!self.uploaded || !same_time),
    {
        !self.uploaded || !same_time
    }

    /// Records an upload attempt of the frame at `time`.
    pub fn record_upload(&mut self, time: T, succeeded: bool)
        ensures
            *final(self) == texture_after_upload(*old(self), time, succeeded),
            succeeded ==> final(self).upload_failed == old(self).upload_failed && final(self).uploaded
                && final(self).last_time == Some(time),
            !succeeded ==> final(self).upload_failed && final(self).uploaded == old(self).uploaded
                && final(self).last_time == old(self).last_time,
            final(self).texture == old(self).texture,
            final(self).generation == old(self).generation,
    {
        if succeeded {
            self.uploaded = true;
            self.last_time = Some(time);
        } else {
            self.upload_failed = true;
        }
    }
}

/// Rebuilding a video widget every frame does not restart playback: once
/// `ensure_instance` has run for a command, running it again for the same command
/// (whatever element is offered) keeps the instance as it is, with its element and
/// generation, and asks for no element update.
pub proof fn law_video_instance_reused<E>(
    current: Option<VideoInstance<E>>,
    command: VideoCommand,
    fresh: Option<E>,
    next: u64,
    fresh_again: Option<E>,
    next_again: u64,
)
    requires
        instance_after(current, command, fresh, next) is Some,
    ensures
        ({
            let inst = instance_after(current, command, fresh, next).unwrap();
            &&& instance_after(Some(inst), command, fresh_again, next_again) == Some(inst)
            &&& update_after(Some(inst), command, fresh_again, next_again) == (InstanceUpdate {
                source: SourceUpdate::Kept,
                set_muted: false,
                generation: inst.generation,
            })
            &&& !configures_source(Some(inst), command, fresh_again)
        }),
{
}

/// A known id keeps its media element whatever command it is given: only its source
/// settings, muted state and generation change.
pub proof fn law_video_element_kept<E>(
    instance: VideoInstance<E>,
    command: VideoCommand,
    fresh: Option<E>,
    next: u64,
)
    ensures
        instance_after(Some(instance), command, fresh, next) matches Some(after) && after.element
            == instance.element,
{
}

/// Every configured source gets a generation newer than every generation in the
/// registry, so the generations of a source change tell textures to start over.
pub proof fn law_video_generation_is_newest<E>(
    instances: Map<Seq<char>, VideoInstance<E>>,
    next: u64,
    command: VideoCommand,
    fresh: Option<E>,
)
    requires
        next < u64::MAX,
        forall|k: Seq<char>| #[trigger] instances.dom().contains(k) ==> instances[k].generation <= next,
        configures_source(lookup(instances, command.id@), command, fresh),
    ensures
        ({
            let after = instance_after(lookup(instances, command.id@), command, fresh, next).unwrap();
            &&& after.generation == next + 1
            &&& forall|k: Seq<char>| #[trigger] instances.dom().contains(k) ==> instances[k].generation < after.generation
        }),
{
}

/// A texture upload that failed is not tried again while the video keeps its source
/// generation; a new generation starts the tracking over, so the new source is uploaded.
pub proof fn law_failed_video_upload_not_retried<X, T>(state: VideoTexture<X, T>, time: T, generation: u64, other: u64)
    requires
        other != generation,
    ensures
        ({
            let failed = texture_after_upload(texture_for_generation(state, generation), time, false);
            &&& texture_for_generation(failed, generation).upload_failed
            &&& !texture_for_generation(failed, other).upload_failed
            &&& !texture_for_generation(failed, other).uploaded
        }),
{
}

/// After a successful upload of the frame at `time`, the tracking holds that time and
/// counts as uploaded, so the same frame is not uploaded twice.
pub proof fn law_video_frame_uploaded_once<X, T>(state: VideoTexture<X, T>, time: T)
    ensures
        ({
            let after = texture_after_upload(state, time, true);
            after.uploaded && after.last_time == Some(time) && after.texture == state.texture
        }),
{
}

/// Releasing an id drops exactly its queued commands: no command of the id remains
/// queued, and every queued command of another id does.
pub proof fn law_release_drops_only_its_commands(queue: Seq<VideoCommand>, id: Seq<char>)
    ensures
        forall|i: int|
            0 <= i < queue.filter(command_kept(id)).len() ==> (#[trigger] queue.filter(
                command_kept(id),
            )[i]).id@ != id,
        forall|i: int|
            0 <= i < queue.len() && (#[trigger] queue[i]).id@ != id ==> queue.filter(
                command_kept(id),
            ).contains(queue[i]),
{
    assert forall|i: int| 0 <= i < queue.filter(command_kept(id)).len() implies (#[trigger] queue.filter(
        command_kept(id),
    )[i]).id@ != id by {
        queue.lemma_filter_pred(command_kept(id), i);
    }
    assert forall|i: int| 0 <= i < queue.len() && (#[trigger] queue[i]).id@ != id implies queue.filter(
        command_kept(id),
    ).contains(queue[i]) by {
        queue.lemma_filter_contains(command_kept(id), i);
    }
}

/// For a known id whose source and cross-origin mode are unchanged, the instance is
/// kept with its element and generation, and a change of the muted setting in either
/// direction is reported for the element, after which the instance records the
/// command's muted setting.
pub proof fn law_mute_change_reported<E>(
    instance: VideoInstance<E>,
    command: VideoCommand,
    fresh: Option<E>,
    next: u64,
)
    requires
        instance.src@ == command.src@,
        instance.cross_origin == command.cross_origin,
    ensures
        update_after(Some(instance), command, fresh, next).source == SourceUpdate::Kept,
        update_after(Some(instance), command, fresh, next).set_muted == (instance.configured_muted
            != command.muted),
        update_after(Some(instance), command, fresh, next).generation == instance.generation,
        instance_after(Some(instance), command, fresh, next) matches Some(after) && after.element
            == instance.element && after.generation == instance.generation && after.src
            == instance.src && after.configured_muted == command.muted,
        instance.configured_muted != command.muted && command.muted ==> update_after(
            Some(instance),
            command,
            fresh,
            next,
        ).set_muted,
        instance.configured_muted != command.muted && !command.muted ==> update_after(
            Some(instance),
            command,
            fresh,
            next,
        ).set_muted,
{
}

/// For a known id whose source or cross-origin mode changed, the element is kept and
/// given the new source under generation `next + 1`; no separate muted update is
/// reported, since configuring the source applies the command's muted setting.
pub proof fn law_source_change_replaces<E>(
    instance: VideoInstance<E>,
    command: VideoCommand,
    fresh: Option<E>,
    next: u64,
)
    requires
        instance.src@ != command.src@ || instance.cross_origin != command.cross_origin,
        next < u64::MAX,
    ensures
        update_after(Some(instance), command, fresh, next).source == SourceUpdate::Replaced,
        !update_after(Some(instance), command, fresh, next).set_muted,
        update_after(Some(instance), command, fresh, next).generation == next + 1,
        instance_after(Some(instance), command, fresh, next) matches Some(after) && after.element
            == instance.element && after.src@ == command.src@ && after.cross_origin
            == command.cross_origin && after.configured_muted == command.muted,
{
}

/// Only a failed upload marks a texture failed: a successful upload leaves the failure
/// mark as it was and records the frame's time, a failed one sets the mark and keeps
/// what was uploaded before.
pub proof fn law_upload_failure_only_on_failure<X, T>(state: VideoTexture<X, T>, time: T)
    ensures
        texture_after_upload(state, time, true).upload_failed == state.upload_failed,
        texture_after_upload(state, time, true).uploaded,
        texture_after_upload(state, time, true).last_time == Some(time),
        texture_after_upload(state, time, false).upload_failed,
        texture_after_upload(state, time, false).uploaded == state.uploaded,
        texture_after_upload(state, time, false).last_time == state.last_time,
        texture_after_upload(state, time, true).texture == state.texture,
        texture_after_upload(state, time, false).texture == state.texture,
{
}

/// A texture whose frames upload successfully stays usable: starting fresh for a
/// generation, using it, and uploading a frame successfully, any number of times,
/// leaves the next use for the same generation allowed.
pub proof fn law_successful_uploads_keep_texture_usable<X, T>(
    texture: X,
    generation: u64,
    first: T,
    second: T,
)
    ensures
        ({
            let start = texture_for_generation(fresh_texture::<X, T>(texture, generation), generation);
            let once = texture_after_upload(start, first, true);
            let twice = texture_after_upload(texture_for_generation(once, generation), second, true);
            &&& !start.upload_failed
            &&& !texture_for_generation(once, generation).upload_failed
            &&& !texture_for_generation(twice, generation).upload_failed
            &&& twice.last_time == Some(second)
        }),
{
}

} // verus!
