//! The view context: what an element is handed in each pass of a frame.
//!
//! The context performs nothing itself. It carries the ambient values that
//! the host supplies (root font size, pointer position, group regions, scroll
//! offsets, the layout solver's answers) and records what the elements ask
//! for: layout requests, draw calls in paint order, detached watchers of
//! pending resources, and callbacks for the next frame. The host carries
//! these out and reports back what happened.

use crate::element::{DivState, ElementId, EventListeners, Listener};
use crate::geometry::{Bounds, Corners, Pixels, Point, Size};
use crate::resource::{CacheModel, FetchError, ImageData, ResourceCache, ResourceHandle};
use crate::style::{Hsla, Style, Theme};
use vstd::prelude::*;

verus! {

/// What the layout solver knows a node by: the place of its request among
/// the requests of the frame.
#[derive(Clone, Copy, Debug, PartialEq, Eq, Structural)]
pub struct LayoutId(pub usize);

/// What a node asks of the layout solver.
#[derive(Debug, PartialEq, Eq)]
pub struct LayoutRequest {
    pub style: Style,
    pub children: Vec<LayoutId>,
}

/// A layout request as a value.
pub struct LayoutModel {
    pub style: Style,
    pub children: Seq<LayoutId>,
}

impl View for LayoutRequest {
    type V = LayoutModel;

    open spec fn view(&self) -> LayoutModel {
        LayoutModel { style: self.style, children: self.children@ }
    }
}

/// One call into the paint backend. `order` is the stacking index under
/// which it was issued.
#[derive(Clone, Copy, Debug, PartialEq, Eq)]
pub enum DrawCall {
    Quad { order: u32, bounds: Bounds<Pixels>, fill: Hsla, corner_radii: Corners<Pixels> },
    Image {
        order: u32,
        bounds: Bounds<Pixels>,
        corner_radii: Corners<Pixels>,
        data: ImageData,
        grayscale: bool,
    },
}

/// Why the paint backend turned a draw call down.
#[derive(Clone, Copy, Debug, PartialEq, Eq, Structural)]
pub enum PaintError {
    /// The bounds have a negative extent.
    InvalidBounds,
}

/// What may be scheduled to run before the next frame is rendered.
#[derive(Clone, Copy, Debug, PartialEq, Eq, Structural)]
pub enum FrameCallback {
    /// Marks the view dirty, so that it is painted again.
    Notify,
}

/// A handle to a scroll position that the host keeps across frames.
#[derive(Clone, Copy, Debug, PartialEq, Eq, Structural)]
pub struct ScrollState(pub u64);

/// The offset that the host keeps under a scroll handle.
#[derive(Clone, Copy, Debug, PartialEq, Eq)]
pub struct ScrollEntry {
    pub handle: ScrollState,
    pub offset: Point<Pixels>,
}

/// The state of an identified element, as it is kept from one frame to the
/// next.
#[derive(Clone, Copy, Debug, PartialEq, Eq)]
pub struct StoredState {
    pub id: ElementId,
    pub state: DivState,
}

/// A listener as an element has registered it for the frame: the hit region
/// and the stacking index of the element, and its identity if it has one.
#[derive(Clone, Copy, Debug, PartialEq, Eq)]
pub struct Registration {
    pub bounds: Bounds<Pixels>,
    pub order: u32,
    pub element: Option<ElementId>,
    pub listener: Listener,
}

/// The hit region of a named group, and whether the group is pressed.
#[derive(Debug, PartialEq, Eq)]
pub struct GroupRegion {
    pub name: String,
    pub bounds: Bounds<Pixels>,
    pub active: bool,
}

/// A group region as a value.
pub struct GroupModel {
    pub name: Seq<char>,
    pub bounds: Bounds<Pixels>,
    pub active: bool,
}

impl View for GroupRegion {
    type V = GroupModel;

    open spec fn view(&self) -> GroupModel {
        GroupModel { name: self.name@, bounds: self.bounds, active: self.active }
    }
}

/// What an element is handed in each pass: the ambient values of the
/// frame, and the records of what the elements have asked for.
pub struct ViewContext {
    pub rem_size: Pixels,
    pub theme: Theme,
    pub mouse_position: Option<Point<Pixels>>,
    pub groups: Vec<GroupRegion>,
    pub scroll_offsets: Vec<ScrollEntry>,
    pub stacking_order: u32,
    pub layout_requests: Vec<LayoutRequest>,
    pub layout_bounds: Vec<Bounds<Pixels>>,
    pub scene: Vec<DrawCall>,
    pub image_cache: ResourceCache,
    pub tasks: Vec<ResourceHandle>,
    pub next_frame: Vec<FrameCallback>,
    pub dirty: bool,
    pub prior_states: Vec<StoredState>,
    pub element_states: Vec<StoredState>,
    pub registrations: Vec<Registration>,
}

/// The context as a value.
pub struct ContextModel {
    pub rem_size: Pixels,
    pub theme: Theme,
    pub mouse_position: Option<Point<Pixels>>,
    pub groups: Seq<GroupModel>,
    pub scroll_offsets: Seq<ScrollEntry>,
    pub stacking_order: u32,
    pub layout_requests: Seq<LayoutModel>,
    pub layout_bounds: Seq<Bounds<Pixels>>,
    pub scene: Seq<DrawCall>,
    pub cache: CacheModel,
    pub tasks: Seq<ResourceHandle>,
    pub next_frame: Seq<FrameCallback>,
    pub dirty: bool,
    /// The states that the identified elements of the last frame left.
    pub prior_states: Seq<StoredState>,
    /// The states that the identified elements of this frame have left so
    /// far.
    pub element_states: Seq<StoredState>,
    /// The listeners that the elements of this frame have registered, in
    /// paint order.
    pub registrations: Seq<Registration>,
}

impl View for ViewContext {
    type V = ContextModel;

    open spec fn view(&self) -> ContextModel {
        ContextModel {
            rem_size: self.rem_size,
            theme: self.theme,
            mouse_position: self.mouse_position,
            groups: self.groups@.map_values(|g: GroupRegion| g@),
            scroll_offsets: self.scroll_offsets@,
            stacking_order: self.stacking_order,
            layout_requests: self.layout_requests@.map_values(|l: LayoutRequest| l@),
            layout_bounds: self.layout_bounds@,
            scene: self.scene@,
            cache: self.image_cache@,
            tasks: self.tasks@,
            next_frame: self.next_frame@,
            dirty: self.dirty,
            prior_states: self.prior_states@,
            element_states: self.element_states@,
            registrations: self.registrations@,
        }
    }
}

/// The empty box at the origin.
pub open spec fn no_bounds() -> Bounds<Pixels> {
    Bounds {
        origin: Point { x: Pixels(0), y: Pixels(0) },
        size: Size { width: Pixels(0), height: Pixels(0) },
    }
}

/// The offset of content that is not scrolled.
pub open spec fn no_offset() -> Point<Pixels> {
    Point { x: Pixels(0), y: Pixels(0) }
}

/// The region of the group called `name` among the first `n` of `groups`:
/// the one entered last.
pub open spec fn region_among(groups: Seq<GroupModel>, name: Seq<char>, n: int) -> Option<
    GroupModel,
>
    decreases n,
{
    if n <= 0 || n > groups.len() {
        None
    } else if groups[n - 1].name == name {
        Some(groups[n - 1])
    } else {
        region_among(groups, name, n - 1)
    }
}

/// The state kept for `id` among the first `n` of `entries`: the one kept
/// last.
pub open spec fn state_among(entries: Seq<StoredState>, id: ElementId, n: int) -> Option<DivState>
    decreases n,
{
    if n <= 0 || n > entries.len() {
        None
    } else if entries[n - 1].id == id {
        Some(entries[n - 1].state)
    } else {
        state_among(entries, id, n - 1)
    }
}

/// The offset kept for `handle` among the entries from `from` on: that of the
/// first entry for it, and none where there is no entry.
pub open spec fn offset_among(entries: Seq<ScrollEntry>, handle: ScrollState, from: int) -> Point<
    Pixels,
>
    decreases entries.len() - from,
{
    if from < 0 || from >= entries.len() {
        no_offset()
    } else if entries[from].handle == handle {
        entries[from].offset
    } else {
        offset_among(entries, handle, from + 1)
    }
}

/// The watchers among `tasks` whose resource is still pending in `cache`, in
/// order.
pub open spec fn waiting(tasks: Seq<ResourceHandle>, cache: CacheModel) -> Seq<ResourceHandle>
    decreases tasks.len(),
{
    if tasks.len() == 0 {
        Seq::empty()
    } else if cache.outcome(tasks.last().0 as int) is None {
        waiting(tasks.drop_last(), cache).push(tasks.last())
    } else {
        waiting(tasks.drop_last(), cache)
    }
}

/// One notification for each watcher among `tasks` whose resource has
/// arrived in `cache`. A watcher of a failed resource schedules nothing.
pub open spec fn arrivals(tasks: Seq<ResourceHandle>, cache: CacheModel) -> Seq<FrameCallback>
    decreases tasks.len(),
{
    if tasks.len() == 0 {
        Seq::empty()
    } else if cache.outcome(tasks.last().0 as int) matches Some(Ok(_)) {
        arrivals(tasks.drop_last(), cache).push(FrameCallback::Notify)
    } else {
        arrivals(tasks.drop_last(), cache)
    }
}

impl ContextModel {
    /// The context before the first frame.
    pub open spec fn initial(rem_size: Pixels, theme: Theme) -> ContextModel {
        ContextModel {
            rem_size,
            theme,
            mouse_position: None,
            groups: Seq::empty(),
            scroll_offsets: Seq::empty(),
            stacking_order: 0,
            layout_requests: Seq::empty(),
            layout_bounds: Seq::empty(),
            scene: Seq::empty(),
            cache: CacheModel::empty(),
            tasks: Seq::empty(),
            next_frame: Seq::empty(),
            dirty: false,
            prior_states: Seq::empty(),
            element_states: Seq::empty(),
            registrations: Seq::empty(),
        }
    }

    /// The context after an element has registered its listeners, in their
    /// order, for the given hit region under the current stacking index.
    pub open spec fn listeners_registered(
        self,
        bounds: Bounds<Pixels>,
        element: Option<ElementId>,
        listeners: Seq<Listener>,
    ) -> ContextModel {
        ContextModel {
            registrations: self.registrations + listeners.map_values(
                |listener: Listener|
                    Registration { bounds, order: self.stacking_order, element, listener },
            ),
            ..self
        }
    }

    /// The state that the element of the given identity left in the last
    /// frame, if it was part of it.
    pub open spec fn prior_state(self, id: ElementId) -> Option<DivState> {
        state_among(self.prior_states, id, self.prior_states.len() as int)
    }

    /// The context after an element has left its state at the end of its
    /// paint pass. Only the state of an identified element is kept.
    pub open spec fn state_kept(self, id: Option<ElementId>, state: DivState) -> ContextModel {
        match id {
            Some(id) => ContextModel {
                element_states: self.element_states.push(StoredState { id, state }),
                ..self
            },
            None => self,
        }
    }

    /// The context under another stacking index.
    pub open spec fn with_order(self, order: u32) -> ContextModel {
        ContextModel { stacking_order: order, ..self }
    }

    /// The context with another state of the cache.
    pub open spec fn with_cache(self, cache: CacheModel) -> ContextModel {
        ContextModel { cache, ..self }
    }

    /// The region of the group called `name`, if one is entered.
    pub open spec fn region(self, name: Seq<char>) -> Option<GroupModel> {
        region_among(self.groups, name, self.groups.len() as int)
    }

    /// Whether the pointer is in `bounds`.
    pub open spec fn pointer_in(self, bounds: Bounds<Pixels>) -> bool {
        match self.mouse_position {
            Some(p) => bounds.holds(p),
            None => false,
        }
    }

    /// The offset kept under `handle`; none where the host keeps none.
    pub open spec fn scroll_offset(self, handle: ScrollState) -> Point<Pixels> {
        offset_among(self.scroll_offsets, handle, 0)
    }

    /// The box the solver gave the node of `id`; an empty box where it gave
    /// none.
    pub open spec fn bounds_of(self, id: LayoutId) -> Bounds<Pixels> {
        if id.0 < self.layout_bounds.len() {
            self.layout_bounds[id.0 as int]
        } else {
            no_bounds()
        }
    }

    /// The context after a node has submitted its style and the ids of its
    /// children.
    pub open spec fn layout_requested(self, style: Style, children: Seq<LayoutId>) -> ContextModel {
        ContextModel {
            layout_requests: self.layout_requests.push(LayoutModel { style, children }),
            ..self
        }
    }

    /// The context after a draw call was recorded.
    pub open spec fn drawn(self, call: DrawCall) -> ContextModel {
        ContextModel { scene: self.scene.push(call), ..self }
    }

    /// The context after a filled box was recorded under the current
    /// stacking index.
    pub open spec fn quad_painted(
        self,
        bounds: Bounds<Pixels>,
        fill: Hsla,
        corner_radii: Corners<Pixels>,
    ) -> ContextModel {
        self.drawn(DrawCall::Quad { order: self.stacking_order, bounds, fill, corner_radii })
    }

    /// The context after an image draw call was asked for: recorded, unless
    /// the bounds have a negative extent.
    pub open spec fn image_painted(
        self,
        bounds: Bounds<Pixels>,
        corner_radii: Corners<Pixels>,
        data: ImageData,
        grayscale: bool,
    ) -> ContextModel {
        if bounds.inverted() {
            self
        } else {
            self.drawn(
                DrawCall::Image {
                    order: self.stacking_order,
                    bounds,
                    corner_radii,
                    data,
                    grayscale,
                },
            )
        }
    }

    /// The context after a group was entered.
    pub open spec fn group_entered(self, group: GroupModel) -> ContextModel {
        ContextModel { groups: self.groups.push(group), ..self }
    }

    /// The context after the group entered last was left.
    pub open spec fn group_left(self) -> ContextModel {
        if self.groups.len() > 0 {
            ContextModel { groups: self.groups.drop_last(), ..self }
        } else {
            self
        }
    }

    /// The context after a watcher of the resource was detached.
    pub open spec fn watching(self, handle: ResourceHandle) -> ContextModel {
        ContextModel { tasks: self.tasks.push(handle), ..self }
    }

    /// The context after a callback was scheduled for the next frame.
    pub open spec fn scheduled(self, callback: FrameCallback) -> ContextModel {
        ContextModel { next_frame: self.next_frame.push(callback), ..self }
    }

    /// The context after every watcher whose resource is resolved has run to
    /// its end: it is gone, and has scheduled a notification if the resource
    /// arrived.
    pub open spec fn settled(self) -> ContextModel {
        ContextModel {
            tasks: waiting(self.tasks, self.cache),
            next_frame: self.next_frame + arrivals(self.tasks, self.cache),
            ..self
        }
    }

    /// The context after the host has reported the outcome of a fetch.
    pub open spec fn resource_resolved(
        self,
        uri: Seq<char>,
        outcome: Result<ImageData, FetchError>,
    ) -> ContextModel {
        self.with_cache(self.cache.resolved(uri, outcome)).settled()
    }

    /// The context at the start of the next frame: the scheduled callbacks
    /// have run, and the records of the last frame are gone. The states that
    /// the identified elements of the last frame left are there to recover;
    /// those of elements that were not part of it are gone. The cache and
    /// the watchers stay.
    pub open spec fn next_frame_begun(self) -> ContextModel {
        ContextModel {
            groups: Seq::empty(),
            stacking_order: 0,
            layout_requests: Seq::empty(),
            layout_bounds: Seq::empty(),
            scene: Seq::empty(),
            next_frame: Seq::empty(),
            dirty: self.dirty || self.next_frame.len() > 0,
            prior_states: self.element_states,
            element_states: Seq::empty(),
            registrations: Seq::empty(),
            ..self
        }
    }
}

impl ViewContext {
    /// A context before the first frame, with an empty cache.
    pub fn new(rem_size: Pixels, theme: Theme) -> (r: ViewContext)
        ensures
            r@ == ContextModel::initial(rem_size, theme),
    {
        let r = ViewContext {
            rem_size,
            theme,
            mouse_position: None,
            groups: Vec::new(),
            scroll_offsets: Vec::new(),
            stacking_order: 0,
            layout_requests: Vec::new(),
            layout_bounds: Vec::new(),
            scene: Vec::new(),
            image_cache: ResourceCache::new(),
            tasks: Vec::new(),
            next_frame: Vec::new(),
            dirty: false,
            prior_states: Vec::new(),
            element_states: Vec::new(),
            registrations: Vec::new(),
        };
        assert(r@.groups =~= Seq::empty());
        assert(r@.layout_requests =~= Seq::empty());
        r
    }

    /// The root font size, against which rems resolve.
    pub fn rem_size(&self) -> (r: Pixels)
        ensures
            r == self@.rem_size,
    {
        self.rem_size
    }

    /// The colors of the theme in force.
    pub fn theme(&self) -> (r: Theme)
        ensures
            r == self@.theme,
    {
        self.theme
    }

    /// Sets the stacking index for the draw calls that follow and returns
    /// the one that held before.
    pub fn set_stacking_order(&mut self, order: u32) -> (previous: u32)
        ensures
            previous == old(self)@.stacking_order,
            final(self)@ == old(self)@.with_order(order),
    {
        let previous: u32 = self.stacking_order;
        self.stacking_order = order;
        previous
    }

    /// Submits a node's style and the ids of its children to the solver.
    pub fn request_layout(&mut self, style: Style, children: Vec<LayoutId>) -> (id: LayoutId)
        ensures
            id.0 == old(self)@.layout_requests.len(),
            final(self)@ == old(self)@.layout_requested(style, children@),
    {
        let id = LayoutId(self.layout_requests.len());
        self.layout_requests.push(LayoutRequest { style, children });
        assert(self@.layout_requests =~= old(self)@.layout_requests.push(
            LayoutModel { style, children: children@ },
        ));
        assert(self@.groups =~= old(self)@.groups);
        id
    }

    /// The box that the solver resolved for a node.
    pub fn layout_bounds(&self, id: LayoutId) -> (r: Bounds<Pixels>)
        ensures
            r == self@.bounds_of(id),
    {
        if id.0 < self.layout_bounds.len() {
            self.layout_bounds[id.0]
        } else {
            Bounds {
                origin: Point { x: Pixels(0), y: Pixels(0) },
                size: Size { width: Pixels(0), height: Pixels(0) },
            }
        }
    }

    /// Records a filled box under the current stacking index.
    pub fn paint_quad(&mut self, bounds: Bounds<Pixels>, fill: Hsla, corner_radii: Corners<Pixels>)
        ensures
            final(self)@ == old(self)@.quad_painted(bounds, fill, corner_radii),
    {
        self.scene.push(DrawCall::Quad { order: self.stacking_order, bounds, fill, corner_radii });
        assert(self@.groups =~= old(self)@.groups);
        assert(self@.layout_requests =~= old(self)@.layout_requests);
    }

    /// Records an image under the current stacking index. Bounds with a
    /// negative extent are turned down and nothing is recorded.
    pub fn paint_image(
        &mut self,
        bounds: Bounds<Pixels>,
        corner_radii: Corners<Pixels>,
        data: ImageData,
        grayscale: bool,
    ) -> (r: Result<(), PaintError>)
        ensures
            final(self)@ == old(self)@.image_painted(bounds, corner_radii, data, grayscale),
            r == (if bounds.inverted() {
                Err::<(), PaintError>(PaintError::InvalidBounds)
            } else {
                Ok::<(), PaintError>(())
            }),
    {
        if bounds.is_inverted() {
            return Err(PaintError::InvalidBounds);
        }
        self.scene.push(
            DrawCall::Image { order: self.stacking_order, bounds, corner_radii, data, grayscale },
        );
        assert(self@.groups =~= old(self)@.groups);
        assert(self@.layout_requests =~= old(self)@.layout_requests);
        Ok(())
    }

    /// Enters a named group: until it is left, its region answers for the
    /// name.
    pub fn push_group(&mut self, name: String, bounds: Bounds<Pixels>, active: bool)
        ensures
            final(self)@ == old(self)@.group_entered(GroupModel { name: name@, bounds, active }),
    {
        self.groups.push(GroupRegion { name, bounds, active });
        assert(self@.groups =~= old(self)@.groups.push(GroupModel { name: name@, bounds, active }));
        assert(self@.layout_requests =~= old(self)@.layout_requests);
    }

    /// Leaves the group entered last.
    pub fn pop_group(&mut self)
        ensures
            final(self)@ == old(self)@.group_left(),
    {
        if self.groups.len() > 0 {
            self.groups.pop();
            assert(self@.groups =~= old(self)@.groups.drop_last());
        }
        assert(self@.layout_requests =~= old(self)@.layout_requests);
    }

    /// The region of the group called `name` that was entered last.
    pub fn group_region(&self, name: &String) -> (r: Option<(Bounds<Pixels>, bool)>)
        ensures
            match r {
                Some((bounds, active)) => self@.region(name@) == Some(
                    GroupModel { name: name@, bounds, active },
                ),
                None => self@.region(name@) is None,
            },
    {
        let mut n: usize = self.groups.len();
        while n > 0
            invariant
                n <= self.groups.len(),
                self@.region(name@) == region_among(self@.groups, name@, n as int),
            decreases n,
        {
            if self.groups[n - 1].name == *name {
                return Some((self.groups[n - 1].bounds, self.groups[n - 1].active));
            }
            n -= 1;
        }
        None
    }

    /// Whether the pointer is in `bounds`.
    pub fn is_pointer_in(&self, bounds: &Bounds<Pixels>) -> (r: bool)
        ensures
            r == self@.pointer_in(*bounds),
    {
        match self.mouse_position {
            Some(p) => bounds.contains_point(p),
            None => false,
        }
    }

    /// The offset that the host keeps for a scroll handle.
    pub fn scroll_offset(&self, handle: ScrollState) -> (r: Point<Pixels>)
        ensures
            r == self@.scroll_offset(handle),
    {
        let mut i: usize = 0;
        while i < self.scroll_offsets.len()
            invariant
                i <= self.scroll_offsets.len(),
                self@.scroll_offset(handle) == offset_among(self@.scroll_offsets, handle, i as int),
            decreases self.scroll_offsets.len() - i,
        {
            if self.scroll_offsets[i].handle.0 == handle.0 {
                return self.scroll_offsets[i].offset;
            }
            i += 1;
        }
        Point { x: Pixels(0), y: Pixels(0) }
    }

    /// The state that the element of the given identity left in the last
    /// frame.
    pub fn element_state(&self, id: ElementId) -> (r: Option<DivState>)
        ensures
            r == self@.prior_state(id),
    {
        let mut n: usize = self.prior_states.len();
        while n > 0
            invariant
                n <= self.prior_states.len(),
                self@.prior_state(id) == state_among(self@.prior_states, id, n as int),
            decreases n,
        {
            if self.prior_states[n - 1].id == id {
                return Some(self.prior_states[n - 1].state);
            }
            n -= 1;
        }
        None
    }

    /// Keeps the state of an element for the next frame, if the element is
    /// identified.
    pub fn keep_element_state(&mut self, id: Option<ElementId>, state: DivState)
        ensures
            final(self)@ == old(self)@.state_kept(id, state),
    {
        match id {
            Some(id) => {
                self.element_states.push(StoredState { id, state });
            },
            None => {},
        }
        assert(self@.groups =~= old(self)@.groups);
        assert(self@.layout_requests =~= old(self)@.layout_requests);
    }

    /// Registers the listeners of an element for the frame, so that the
    /// dispatch of the host finds them.
    pub fn register_listeners(
        &mut self,
        bounds: Bounds<Pixels>,
        element: Option<ElementId>,
        listeners: &EventListeners,
    )
        ensures
            final(self)@ == old(self)@.listeners_registered(bounds, element, listeners@),
    {
        let order: u32 = self.stacking_order;
        let ghost before = self@;
        let ghost wanted = listeners@.map_values(
            |listener: Listener| Registration { bounds, order, element, listener },
        );
        let count: usize = listeners.len();
        let mut i: usize = 0;
        while i < count
            invariant
                i <= count,
                count == listeners@.len(),
                wanted == listeners@.map_values(
                    |listener: Listener| Registration { bounds, order, element, listener },
                ),
                self@ == (ContextModel {
                    registrations: before.registrations + wanted.take(i as int),
                    ..before
                }),
            decreases count - i,
        {
            match listeners.get(i) {
                Some(listener) => {
                    self.registrations.push(Registration { bounds, order, element, listener });
                },
                None => {},
            }
            assert(self@.groups =~= before.groups);
            assert(self@.layout_requests =~= before.layout_requests);
            assert(self@.registrations =~= before.registrations + wanted.take(i + 1));
            i += 1;
        }
        assert(wanted.take(i as int) =~= wanted);
    }

    /// Detaches a watcher of a pending resource. When the resource arrives
    /// the watcher schedules a notification for the next frame.
    pub fn spawn_watch(&mut self, handle: ResourceHandle)
        ensures
            final(self)@ == old(self)@.watching(handle),
    {
        self.tasks.push(handle);
        assert(self@.groups =~= old(self)@.groups);
        assert(self@.layout_requests =~= old(self)@.layout_requests);
    }

    /// Schedules a callback to run before the next frame is rendered.
    pub fn on_next_frame(&mut self, callback: FrameCallback)
        ensures
            final(self)@ == old(self)@.scheduled(callback),
    {
        self.next_frame.push(callback);
        assert(self@.groups =~= old(self)@.groups);
        assert(self@.layout_requests =~= old(self)@.layout_requests);
    }

    /// Marks the view dirty.
    pub fn notify(&mut self)
        ensures
            final(self)@ == (ContextModel { dirty: true, ..old(self)@ }),
    {
        self.dirty = true;
        assert(self@.groups =~= old(self)@.groups);
        assert(self@.layout_requests =~= old(self)@.layout_requests);
    }

    /// Runs every watcher whose resource is resolved to its end.
    pub fn settle_tasks(&mut self)
        ensures
            final(self)@ == old(self)@.settled(),
    {
        let mut kept: Vec<ResourceHandle> = Vec::new();
        let mut i: usize = 0;
        let ghost before = self@;
        while i < self.tasks.len()
            invariant
                i <= self.tasks.len(),
                self.tasks@ == before.tasks,
                self.image_cache@ == before.cache,
                kept@ == waiting(before.tasks.take(i as int), before.cache),
                self@ == (ContextModel {
                    next_frame: before.next_frame + arrivals(
                        before.tasks.take(i as int),
                        before.cache,
                    ),
                    ..before
                }),
            decreases self.tasks.len() - i,
        {
            let handle = self.tasks[i];
            proof {
                assert(before.tasks.take(i + 1).drop_last() =~= before.tasks.take(i as int));
                assert(before.tasks.take(i + 1).last() == handle);
            }
            match self.image_cache.poll(handle) {
                None => {
                    kept.push(handle);
                },
                Some(Ok(_)) => {
                    self.next_frame.push(FrameCallback::Notify);
                    assert(self@.groups =~= before.groups);
                    assert(self@.layout_requests =~= before.layout_requests);
                    assert(self@.next_frame =~= before.next_frame + arrivals(
                        before.tasks.take(i + 1),
                        before.cache,
                    ));
                },
                Some(Err(_)) => {},
            }
            i += 1;
        }
        assert(before.tasks.take(i as int) =~= before.tasks);
        self.tasks = kept;
        assert(self@.groups =~= before.groups);
        assert(self@.layout_requests =~= before.layout_requests);
    }

    /// Takes the host's report of the outcome of a fetch: the cache records
    /// it, and the watchers of the resource run to their end.
    pub fn resource_resolved(&mut self, uri: &String, outcome: Result<ImageData, FetchError>)
        ensures
            final(self)@ == old(self)@.resource_resolved(uri@, outcome),
    {
        self.image_cache.resolve(uri, outcome);
        assert(self@.groups =~= old(self)@.groups);
        assert(self@.layout_requests =~= old(self)@.layout_requests);
        assert(self@ == old(self)@.with_cache(old(self)@.cache.resolved(uri@, outcome)));
        self.settle_tasks();
    }

    /// Starts the next frame: runs the scheduled callbacks and clears the
    /// records of the last frame. Returns whether the view is dirty and has
    /// to be painted.
    pub fn begin_frame(&mut self) -> (r: bool)
        ensures
            final(self)@ == old(self)@.next_frame_begun(),
            r == final(self)@.dirty,
    {
        if self.next_frame.len() > 0 {
            self.dirty = true;
        }
        self.groups = Vec::new();
        self.stacking_order = 0;
        self.layout_requests = Vec::new();
        self.layout_bounds = Vec::new();
        self.scene = Vec::new();
        self.next_frame = Vec::new();
        let mut kept: Vec<StoredState> = Vec::new();
        std::mem::swap(&mut self.element_states, &mut kept);
        self.prior_states = kept;
        self.registrations = Vec::new();
        assert(self@.groups =~= Seq::empty());
        assert(self@.layout_requests =~= Seq::empty());
        self.dirty
    }
}

} // verus!
