//! Render-side state of each open window, and the phases that move frames to it:
//! poll (reallocate the render target when the reported size changes), extract
//! (take the pending frame) and publish (hand it to the window's thread).

use atomicbox::AtomicOptionBox;
use std::collections::HashMap;
use std::sync::atomic::{AtomicBool, AtomicI32, Ordering};
use std::sync::Arc;
use vstd::prelude::*;
use vstd::seq_lib::seq_to_set_is_finite;
use vstd::set_lib::{lemma_int_range, lemma_len_subset, set_int_range};

use crate::config::{AdwaitaWindowConfig, WindowCommand};
use crate::frame::{publish_to_cell, shared_cell, DmabufInfo, FrameInfo, FrameSlot, TextureView};
use crate::size::{requested_size, size_from_report, Size, UNSET_DIMENSION};

verus! {

broadcast use vstd::std_specs::hash::group_hash_axioms;

/// Room in a window's command channel.
pub const COMMAND_CAPACITY: usize = 16;

/// Random draws tried for a fresh render-target handle before probing upwards from zero.
pub const HANDLE_DRAWS: usize = 64;

/// The sending end of a flume channel, carried as an opaque value.
#[verifier::external_type_specification]
#[verifier::external_body]
#[verifier::reject_recursive_types(T)]
pub struct ExSender<T>(flume::Sender<T>);

/// The receiving end of a flume channel, carried as an opaque value.
#[verifier::external_type_specification]
#[verifier::external_body]
#[verifier::reject_recursive_types(T)]
pub struct ExReceiver<T>(flume::Receiver<T>);

/// The capacity a command channel was made with, as its sending end reports it.
pub uninterp spec fn sender_capacity(sender: flume::Sender<WindowCommand>) -> Option<usize>;

/// The capacity a command channel was made with, as its receiving end reports it.
pub uninterp spec fn receiver_capacity(receiver: flume::Receiver<WindowCommand>) -> Option<usize>;

/// Relies on `flume::bounded`: a connected sender and receiver of a channel bounded to
/// `cap` messages, whose `capacity` is then `Some(cap)` at both ends. It does not panic
/// for any capacity.
#[verifier::external_body]
fn command_channel(cap: usize) -> (r: (flume::Sender<WindowCommand>, flume::Receiver<WindowCommand>))
    ensures
        sender_capacity(r.0) == Some(cap),
        receiver_capacity(r.1) == Some(cap),
{
    flume::bounded(cap)
}

/// Relies on `flume::Sender::capacity`: the capacity the channel was made with, if bounded.
#[verifier::external_body]
fn capacity_of(sender: &flume::Sender<WindowCommand>) -> (r: Option<usize>)
    ensures
        r == sender_capacity(*sender),
{
    sender.capacity()
}

/// Relies on `rand::random`: a value drawn from the thread-local generator. Nothing is
/// said of it; it can be any value of the type.
pub assume_specification<T>[ rand::random::<T> ]() -> (r: T)
    where
        rand::distributions::Standard: rand::distributions::Distribution<T>,
;

/// Relies on `Arc::clone`: another pointer to the same value.
#[verifier::external_body]
fn share<T>(a: &Arc<T>) -> (r: Arc<T>)
    ensures
        r == *a,
{
    Arc::clone(a)
}

/// What one poll of a window calls for.
#[derive(Debug, Clone, Copy, PartialEq, Eq, Structural)]
pub enum PollAction {
    /// The window was closed: drop it and all it owns.
    Close,
    /// Nothing to do on this tick.
    Skip,
    /// Allocate a render target of this size.
    Reallocate(Size),
}

/// The decision for one window on one tick, from its closed flag, the two values read
/// from its size cells, and the size of the target allocated last.
pub open spec fn poll_action(closed: bool, width: i32, height: i32, last: Size) -> PollAction {
    if closed {
        PollAction::Close
    } else {
        match requested_size(width, height) {
            Option::None => PollAction::Skip,
            Option::Some(s) => if s == last {
                PollAction::Skip
            } else {
                PollAction::Reallocate(s)
            },
        }
    }
}

/// Decides what one poll of a window does with the values it read.
pub fn decide_poll(closed: bool, width: i32, height: i32, last: Size) -> (r: PollAction)
    ensures
        r == poll_action(closed, width, height, last),
        r matches PollAction::Reallocate(s) ==> s.is_allocatable() && s != last,
{
    if closed {
        return PollAction::Close;
    }
    match size_from_report(width, height) {
        Option::None => PollAction::Skip,
        Option::Some(s) => if s == last {
            PollAction::Skip
        } else {
            PollAction::Reallocate(s)
        },
    }
}

/// The one-time request that opens a window on the UI thread: its settings and the
/// shared handles through which the two threads talk.
pub struct WindowOpen {
    pub config: AdwaitaWindowConfig,
    pub recv_command: flume::Receiver<WindowCommand>,
    pub render_target_width: Arc<AtomicI32>,
    pub render_target_height: Arc<AtomicI32>,
    pub shared_next_frame: Arc<AtomicOptionBox<FrameInfo>>,
    pub closed: Arc<AtomicBool>,
}

/// The render side of one open window.
pub struct AdwaitaWindow {
    send_command: flume::Sender<WindowCommand>,
    render_target_width: Arc<AtomicI32>,
    render_target_height: Arc<AtomicI32>,
    shared_next_frame: Arc<AtomicOptionBox<FrameInfo>>,
    closed: Arc<AtomicBool>,
    render_target_handle: u32,
    last_render_target_size: Size,
    next_frame_info: FrameSlot,
}

impl AdwaitaWindow {
    /// The handle under which this window's render target is registered.
    pub closed spec fn handle(&self) -> u32 {
        self.render_target_handle
    }

    /// The size of the render target allocated last; zero by zero before the first.
    pub closed spec fn last_size(&self) -> Size {
        self.last_render_target_size
    }

    /// The frame waiting to be extracted, if any.
    pub closed spec fn pending(&self) -> Option<FrameInfo> {
        self.next_frame_info@
    }

    /// The cell the window's thread takes frames from.
    pub closed spec fn consumer_cell(&self) -> Arc<AtomicOptionBox<FrameInfo>> {
        self.shared_next_frame
    }

    /// The cell the window's thread writes its width into.
    pub closed spec fn width_cell(&self) -> Arc<AtomicI32> {
        self.render_target_width
    }

    /// The cell the window's thread writes its height into.
    pub closed spec fn height_cell(&self) -> Arc<AtomicI32> {
        self.render_target_height
    }

    /// The flag the window's thread sets when the window is closed.
    pub closed spec fn closed_flag(&self) -> Arc<AtomicBool> {
        self.closed
    }

    /// The sending end of the window's command channel.
    pub closed spec fn command_sender(&self) -> flume::Sender<WindowCommand> {
        self.send_command
    }

    /// `self` and `other` differ at most in their pending frame.
    pub open spec fn same_but_pending(&self, other: &AdwaitaWindow) -> bool {
        &&& self.handle() == other.handle()
        &&& self.last_size() == other.last_size()
        &&& self.consumer_cell() == other.consumer_cell()
        &&& self.width_cell() == other.width_cell()
        &&& self.height_cell() == other.height_cell()
        &&& self.closed_flag() == other.closed_flag()
        &&& self.command_sender() == other.command_sender()
    }

    /// A pending frame is well formed and has the size of the target allocated last.
    pub open spec fn wf(&self) -> bool {
        self.pending() matches Option::Some(f) ==> f.wf() && f.dmabuf.size == self.last_size()
    }

    /// Sets up the channels and shared cells of a new window, with a render-target
    /// handle that no live window and no registered target holds. Returns the window's
    /// render side and the request to hand to the UI thread.
    pub fn open(config: AdwaitaWindowConfig, windows: &Windows) -> (r: (AdwaitaWindow, WindowOpen))
        requires
            windows.wf(),
            windows.live().len() < u32::MAX,
        ensures
            !windows.handle_taken(r.0.handle()),
            r.0.last_size() == (Size { width: 0, height: 0 }),
            r.0.pending() == Option::<FrameInfo>::None,
            r.0.wf(),
            r.1.config == config,
            r.1.render_target_width == r.0.width_cell(),
            r.1.render_target_height == r.0.height_cell(),
            r.1.shared_next_frame == r.0.consumer_cell(),
            r.1.closed == r.0.closed_flag(),
            sender_capacity(r.0.command_sender()) == Some(COMMAND_CAPACITY),
            receiver_capacity(r.1.recv_command) == Some(COMMAND_CAPACITY),
    {
        let (send_command, recv_command) = command_channel(COMMAND_CAPACITY);
        let render_target_width = Arc::new(AtomicI32::new(UNSET_DIMENSION));
        let render_target_height = Arc::new(AtomicI32::new(UNSET_DIMENSION));
        let shared_next_frame = Arc::new(shared_cell());
        let closed = Arc::new(AtomicBool::new(false));
        let request = WindowOpen {
            config,
            recv_command,
            render_target_width: share(&render_target_width),
            render_target_height: share(&render_target_height),
            shared_next_frame: share(&shared_next_frame),
            closed: share(&closed),
        };
        let render_target_handle = windows.unused_handle();
        let window = AdwaitaWindow {
            send_command,
            render_target_width,
            render_target_height,
            shared_next_frame,
            closed,
            render_target_handle,
            last_render_target_size: Size { width: 0, height: 0 },
            next_frame_info: FrameSlot::new(),
        };
        (window, request)
    }

    pub fn render_target_handle(&self) -> (r: u32)
        ensures
            r == self.handle(),
    {
        self.render_target_handle
    }

    /// The capacity of the window's command channel.
    pub fn command_capacity(&self) -> (r: Option<usize>)
        ensures
            r == sender_capacity(self.command_sender()),
    {
        capacity_of(&self.send_command)
    }

    pub fn last_render_target_size(&self) -> (r: Size)
        ensures
            r == self.last_size(),
    {
        self.last_render_target_size
    }

    /// Reads the window's closed flag and size cells and decides what this tick does.
    /// The UI thread writes them at any moment, so the result is the decision for some
    /// values they may hold.
    pub fn poll(&self) -> (r: PollAction)
        ensures
            observed(r, self.last_size()),
            r matches PollAction::Reallocate(s) ==> s.is_allocatable() && s != self.last_size(),
    {
        let closed = self.closed.load(Ordering::SeqCst);
        let width = self.render_target_width.load(Ordering::SeqCst);
        let height = self.render_target_height.load(Ordering::SeqCst);
        decide_poll(closed, width, height, self.last_render_target_size)
    }
}

/// A window is among `s` with handle `h`.
pub open spec fn holds_handle(s: Seq<AdwaitaWindow>, h: u32) -> bool {
    exists|i: int| 0 <= i < s.len() && #[trigger] s[i].handle() == h
}

/// No two windows of `s` share a handle.
pub open spec fn distinct_handles(s: Seq<AdwaitaWindow>) -> bool {
    forall|i: int, j: int|
        0 <= i < s.len() && 0 <= j < s.len() && i != j ==> s[i].handle() != s[j].handle()
}

/// Each window of `s` with a target in `targets` has that target at its last size.
pub open spec fn targets_match(s: Seq<AdwaitaWindow>, targets: Map<u32, Arc<TextureView>>) -> bool {
    forall|i: int| 0 <= i < s.len() && targets.contains_key(#[trigger] s[i].handle())
        ==> (*targets[s[i].handle()]).size == s[i].last_size()
}

/// Every window of `s` is well formed.
pub open spec fn all_wf(s: Seq<AdwaitaWindow>) -> bool {
    forall|i: int| 0 <= i < s.len() ==> #[trigger] s[i].wf()
}

/// `action` is the decision of a poll for some values of the closed flag and size cells.
pub open spec fn observed(action: PollAction, last: Size) -> bool {
    exists|closed: bool, width: i32, height: i32| action == poll_action(closed, width, height, last)
}

/// The decisions that close the windows of `s` with handle `h` and keep the others.
pub open spec fn closing(s: Seq<AdwaitaWindow>, h: u32) -> Seq<PollAction> {
    Seq::new(s.len(), |i: int| if s[i].handle() == h { PollAction::Close } else { PollAction::Skip })
}

/// The windows of `s` that `actions` keeps open, in order.
pub open spec fn kept_windows(s: Seq<AdwaitaWindow>, actions: Seq<PollAction>) -> Seq<AdwaitaWindow>
    decreases s.len(),
{
    if s.len() == 0 {
        Seq::empty()
    } else {
        let earlier = kept_windows(s.drop_last(), actions);
        if actions[s.len() - 1] == PollAction::Close {
            earlier
        } else {
            earlier.push(s.last())
        }
    }
}

/// The handles of the windows of `s` that `actions` closes.
pub open spec fn closed_handles(s: Seq<AdwaitaWindow>, actions: Seq<PollAction>) -> Set<u32>
    decreases s.len(),
{
    if s.len() == 0 {
        Set::empty()
    } else {
        let earlier = closed_handles(s.drop_last(), actions);
        if actions[s.len() - 1] == PollAction::Close {
            earlier.insert(s.last().handle())
        } else {
            earlier
        }
    }
}

/// One request per window of `s` whose action is a reallocation, in window order.
pub open spec fn reallocations(s: Seq<AdwaitaWindow>, actions: Seq<PollAction>) -> Seq<Reallocation>
    decreases s.len(),
{
    if s.len() == 0 {
        Seq::empty()
    } else {
        let earlier = reallocations(s.drop_last(), actions);
        match actions[s.len() - 1] {
            PollAction::Reallocate(size) => earlier.push(Reallocation { handle: s.last().handle(), size }),
            _ => earlier,
        }
    }
}

/// A frame and the cell it is bound for.
pub type Handoff = (Arc<AtomicOptionBox<FrameInfo>>, FrameInfo);

/// The pending frame of each window of `s` that has one, with the window's consumer
/// cell, in window order.
pub open spec fn pending_handoffs(s: Seq<AdwaitaWindow>) -> Seq<Handoff>
    decreases s.len(),
{
    if s.len() == 0 {
        Seq::empty()
    } else {
        let earlier = pending_handoffs(s.drop_last());
        match s.last().pending() {
            Option::Some(f) => earlier.push((s.last().consumer_cell(), f)),
            Option::None => earlier,
        }
    }
}

/// The frame of each record of `s` that holds one, with the record's cell, in order.
pub open spec fn record_handoffs(s: Seq<RenderWindow>) -> Seq<Handoff>
    decreases s.len(),
{
    if s.len() == 0 {
        Seq::empty()
    } else {
        let earlier = record_handoffs(s.drop_last());
        match s.last().frame() {
            Option::Some(f) => earlier.push((s.last().cell(), f)),
            Option::None => earlier,
        }
    }
}

/// A frame taken from a window during extraction, on its way to the window's thread.
pub struct RenderWindow {
    shared_next_frame: Arc<AtomicOptionBox<FrameInfo>>,
    next_frame_info: Option<FrameInfo>,
}

impl RenderWindow {
    /// The frame not yet published.
    pub closed spec fn frame(&self) -> Option<FrameInfo> {
        self.next_frame_info
    }

    /// The consumer cell of the window the frame belongs to.
    pub closed spec fn cell(&self) -> Arc<AtomicOptionBox<FrameInfo>> {
        self.shared_next_frame
    }

    /// The size of the frame not yet published, if any.
    pub fn frame_size(&self) -> (r: Option<Size>)
        ensures
            r == match self.frame() {
                Option::Some(f) => Option::Some(f.dmabuf.size),
                Option::None => Option::None,
            },
    {
        match &self.next_frame_info {
            Option::Some(f) => Option::Some(f.dmabuf.size),
            Option::None => Option::None,
        }
    }
}

/// Empties every record, keeping its cell, and returns the frame each held with the
/// cell it is bound for, in record order.
pub fn take_frames(windows: &mut Vec<RenderWindow>) -> (r: Vec<Handoff>)
    ensures
        final(windows)@.len() == old(windows)@.len(),
        forall|i: int| 0 <= i < final(windows)@.len() ==> {
            &&& #[trigger] final(windows)@[i].frame() == Option::<FrameInfo>::None
            &&& final(windows)@[i].cell() == old(windows)@[i].cell()
        },
        r@ == record_handoffs(old(windows)@),
{
    let mut remaining: Vec<RenderWindow> = Vec::new();
    std::mem::swap(windows, &mut remaining);
    let ghost orig = remaining@;
    assert(orig.take(0) =~= Seq::<RenderWindow>::empty());
    assert(orig.skip(0) =~= orig);
    let mut out: Vec<Handoff> = Vec::new();
    while remaining.len() > 0
        invariant
            orig == old(windows)@,
            windows@.len() <= orig.len(),
            remaining@ == orig.skip(windows@.len() as int),
            out@ == record_handoffs(orig.take(windows@.len() as int)),
            forall|i: int| 0 <= i < windows@.len() ==> {
                &&& #[trigger] windows@[i].frame() == Option::<FrameInfo>::None
                &&& windows@[i].cell() == orig[i].cell()
            },
        decreases remaining@.len(),
    {
        let ghost n = windows@.len() as int;
        let record = remaining.remove(0);
        assert(record == orig[n]);
        assert(orig.take(n + 1).drop_last() =~= orig.take(n));
        assert(remaining@ =~= orig.skip(n + 1));
        let RenderWindow { shared_next_frame, next_frame_info } = record;
        match next_frame_info {
            Option::Some(frame) => out.push((share(&shared_next_frame), frame)),
            Option::None => {},
        }
        windows.push(RenderWindow { shared_next_frame, next_frame_info: Option::None });
    }
    assert(orig.take(orig.len() as int) =~= orig);
    out
}

/// The publish phase, after the render pass: each record's frame is stored into its
/// record's cell, which the window's thread takes from and where it replaces any
/// frame not yet shown; records without a frame store nothing, and every record is
/// left empty, so a second call publishes nothing. What the cells hold afterwards is
/// not stated: the window's thread may take from them at any moment.
pub fn send_frame_info_to_windows(windows: &mut Vec<RenderWindow>)
    ensures
        final(windows)@.len() == old(windows)@.len(),
        forall|i: int| 0 <= i < final(windows)@.len() ==> {
            &&& #[trigger] final(windows)@[i].frame() == Option::<FrameInfo>::None
            &&& final(windows)@[i].cell() == old(windows)@[i].cell()
        },
{
    let mut handoffs = take_frames(windows);
    while handoffs.len() > 0
        decreases handoffs@.len(),
    {
        let (cell, frame) = handoffs.remove(0);
        publish_to_cell(&cell, frame);
    }
}

/// A render target asked for by a poll: the window's handle and the size to allocate.
#[derive(Debug, Clone, Copy, PartialEq, Eq, Structural)]
pub struct Reallocation {
    pub handle: u32,
    pub size: Size,
}

/// The live windows, in the order they were opened, and the registry of render
/// targets by handle.
pub struct Windows {
    entries: Vec<AdwaitaWindow>,
    render_targets: HashMap<u32, Arc<TextureView>>,
}

impl Windows {
    pub closed spec fn live(&self) -> Seq<AdwaitaWindow> {
        self.entries@
    }

    pub closed spec fn registered(&self) -> Map<u32, Arc<TextureView>> {
        self.render_targets@
    }

    /// A live window or a registered render target holds handle `h`.
    pub open spec fn handle_taken(&self, h: u32) -> bool {
        self.registered().contains_key(h) || holds_handle(self.live(), h)
    }

    /// Handles are unique among live windows, only live windows have registered
    /// targets, each of the size last allocated for its window, and each window is
    /// well formed.
    pub closed spec fn wf(&self) -> bool {
        &&& distinct_handles(self.entries@)
        &&& all_wf(self.entries@)
        &&& forall|h: u32| #[trigger]
            self.render_targets@.contains_key(h) ==> holds_handle(self.entries@, h)
        &&& targets_match(self.entries@, self.render_targets@)
    }

    pub fn new() -> (r: Windows)
        ensures
            r.wf(),
            r.live().len() == 0,
            r.registered() == Map::<u32, Arc<TextureView>>::empty(),
    {
        Windows { entries: Vec::new(), render_targets: HashMap::new() }
    }

    pub fn len(&self) -> (r: usize)
        ensures
            r == self.live().len(),
    {
        self.entries.len()
    }

    /// The live window with this handle, if any.
    pub fn window(&self, handle: u32) -> (r: Option<&AdwaitaWindow>)
        ensures
            r matches Option::Some(w) ==> w.handle() == handle && self.live().contains(*w),
            r is None <==> !holds_handle(self.live(), handle),
    {
        let mut i: usize = 0;
        while i < self.entries.len()
            invariant
                0 <= i <= self.entries@.len(),
                forall|j: int| 0 <= j < i ==> self.entries@[j].handle() != handle,
            decreases self.entries@.len() - i,
        {
            if self.entries[i].render_target_handle == handle {
                assert(self.entries@[i as int].handle() == handle);
                return Option::Some(&self.entries[i]);
            }
            i = i + 1;
        }
        Option::None
    }

    /// The texture view registered under this handle, if any.
    pub fn registered_view(&self, handle: u32) -> (r: Option<&Arc<TextureView>>)
        ensures
            r matches Option::Some(v) ==> self.registered().contains_key(handle) && *v == self.registered()[handle],
            r is None <==> !self.registered().contains_key(handle),
    {
        self.render_targets.get(&handle)
    }

    /// Whether a live window or a registered target holds handle `h`.
    pub fn is_handle_taken(&self, h: u32) -> (r: bool)
        ensures
            r == self.handle_taken(h),
    {
        if self.render_targets.contains_key(&h) {
            return true;
        }
        let mut i: usize = 0;
        while i < self.entries.len()
            invariant
                0 <= i <= self.entries@.len(),
                forall|j: int| 0 <= j < i ==> self.entries@[j].handle() != h,
                !self.render_targets@.contains_key(h),
            decreases self.entries@.len() - i,
        {
            if self.entries[i].render_target_handle == h {
                assert(self.entries@[i as int].handle() == h);
                return true;
            }
            i = i + 1;
        }
        false
    }

    /// A handle that nothing holds: random draws first, as collisions are rare, and
    /// should every draw collide, the first free value counting up from zero.
    fn unused_handle(&self) -> (r: u32)
        requires
            self.wf(),
            self.live().len() < u32::MAX,
        ensures
            !self.handle_taken(r),
    {
        let mut draw: usize = 0;
        while draw < HANDLE_DRAWS
            decreases HANDLE_DRAWS - draw,
        {
            let h: u32 = rand::random::<u32>();
            if !self.is_handle_taken(h) {
                return h;
            }
            draw = draw + 1;
        }
        let n: u32 = self.entries.len() as u32;
        let mut h: u32 = 0;
        loop
            invariant
                self.wf(),
                n == self.entries@.len(),
                h <= n,
                forall|k: u32| k < h ==> #[trigger] self.handle_taken(k),
            decreases n - h,
        {
            if !self.is_handle_taken(h) {
                return h;
            }
            if h == n {
                proof {
                    self.lemma_not_all_taken(n);
                }
            }
            h = h + 1;
        }
    }

    /// Opens a window: sets up its render side under a fresh handle, adds it to the live
    /// windows, and returns its handle with the request for the UI thread.
    pub fn open_window(&mut self, config: AdwaitaWindowConfig) -> (r: (u32, WindowOpen))
        requires
            old(self).wf(),
            old(self).live().len() < u32::MAX,
        ensures
            final(self).wf(),
            !old(self).handle_taken(r.0),
            final(self).live().len() == old(self).live().len() + 1,
            final(self).live().drop_last() == old(self).live(),
            final(self).live().last().handle() == r.0,
            final(self).live().last().last_size() == (Size { width: 0, height: 0 }),
            final(self).live().last().pending() == Option::<FrameInfo>::None,
            final(self).registered() == old(self).registered(),
            r.1.config == config,
    {
        let (window, request) = AdwaitaWindow::open(config, self);
        let handle = window.render_target_handle;
        self.entries.push(window);
        proof {
            let s = self.entries@;
            assert(s.drop_last() =~= old(self).entries@);
            assert forall|h: u32| #[trigger] self.render_targets@.contains_key(h) implies holds_handle(s, h) by {
                let i = choose|i: int| 0 <= i < old(self).entries@.len() && #[trigger] old(self).entries@[i].handle() == h;
                assert(s[i] == old(self).entries@[i]);
            }
            assert forall|i: int, j: int| 0 <= i < s.len() && 0 <= j < s.len() && i != j
                implies s[i].handle() != s[j].handle() by {
                if i == s.len() - 1 {
                    assert(old(self).entries@[j] == s[j]);
                } else if j == s.len() - 1 {
                    assert(old(self).entries@[i] == s[i]);
                }
            }
        }
        (handle, request)
    }

    /// Applies one tick's decisions, `actions[i]` being that of the i-th live window:
    /// windows to close are dropped with their registered targets, the others are kept
    /// as they were, in order, and a request is returned for each reallocation, in
    /// window order. Nothing is allocated here: the caller allocates each target and
    /// hands it back through `install_render_target`.
    pub fn apply_polls(&mut self, actions: &Vec<PollAction>) -> (r: Vec<Reallocation>)
        requires
            old(self).wf(),
            actions@.len() == old(self).live().len(),
        ensures
            final(self).wf(),
            final(self).live() == kept_windows(old(self).live(), actions@),
            final(self).registered() == old(self).registered().remove_keys(
                closed_handles(old(self).live(), actions@),
            ),
            r@ == reallocations(old(self).live(), actions@),
    {
        let mut remaining: Vec<AdwaitaWindow> = Vec::new();
        std::mem::swap(&mut self.entries, &mut remaining);
        let ghost orig = remaining@;
        assert(orig.take(0) =~= Seq::<AdwaitaWindow>::empty());
        assert(orig.skip(0) =~= orig);
        let mut requests: Vec<Reallocation> = Vec::new();
        let mut i: usize = 0;
        while i < actions.len()
            invariant
                orig == old(self).entries@,
                actions@.len() == orig.len(),
                0 <= i <= orig.len(),
                remaining@ == orig.skip(i as int),
                self.entries@ == kept_windows(orig.take(i as int), actions@),
                requests@ == reallocations(orig.take(i as int), actions@),
                self.render_targets@ == old(self).render_targets@.remove_keys(
                    closed_handles(orig.take(i as int), actions@),
                ),
                distinct_handles(self.entries@ + remaining@),
                all_wf(self.entries@ + remaining@),
                forall|h: u32| #[trigger] self.render_targets@.contains_key(h)
                    ==> holds_handle(self.entries@ + remaining@, h),
                targets_match(self.entries@ + remaining@, self.render_targets@),
            decreases orig.len() - i,
        {
            let ghost before = self.entries@ + remaining@;
            let ghost kept_len = self.entries@.len();
            let window = remaining.remove(0);
            assert(window == orig[i as int]);
            assert(before[kept_len as int] == window);
            assert(orig.take(i + 1).drop_last() =~= orig.take(i as int));
            assert(orig.take(i + 1).last() == window);
            assert(remaining@ =~= orig.skip(i + 1));
            match actions[i] {
                PollAction::Close => {
                    self.render_targets.remove(&window.render_target_handle);
                    proof {
                        assert(self.render_targets@ =~= old(self).render_targets@.remove_keys(
                            closed_handles(orig.take(i + 1), actions@),
                        ));
                        let after = self.entries@ + remaining@;
                        assert(after =~= before.remove(kept_len as int));
                        assert forall|h: u32| #[trigger] self.render_targets@.contains_key(h)
                            implies holds_handle(after, h) by {
                            let j = choose|j: int| 0 <= j < before.len() && #[trigger] before[j].handle() == h;
                            assert(j != kept_len);
                            if j < kept_len {
                                assert(after[j] == before[j]);
                            } else {
                                assert(after[j - 1] == before[j]);
                            }
                        }
                        assert forall|j: int| 0 <= j < after.len() && self.render_targets@.contains_key(#[trigger] after[j].handle())
                            implies (*self.render_targets@[after[j].handle()]).size == after[j].last_size() by {
                            if j < kept_len {
                                assert(before[j] == after[j]);
                            } else {
                                assert(before[j + 1] == after[j]);
                            }
                        }
                        assert forall|j: int| 0 <= j < after.len() implies #[trigger] after[j].wf() by {
                            if j < kept_len {
                                assert(before[j] == after[j]);
                            } else {
                                assert(before[j + 1] == after[j]);
                            }
                        }
                        assert forall|a: int, b: int| 0 <= a < after.len() && 0 <= b < after.len() && a != b
                            implies after[a].handle() != after[b].handle() by {
                            let ba = if a < kept_len { a } else { a + 1 };
                            let bb = if b < kept_len { b } else { b + 1 };
                            assert(before[ba] == after[a]);
                            assert(before[bb] == after[b]);
                        }
                    }
                },
                PollAction::Skip => {
                    self.entries.push(window);
                    assert(self.entries@ + remaining@ =~= before);
                },
                PollAction::Reallocate(size) => {
                    requests.push(Reallocation { handle: window.render_target_handle, size });
                    self.entries.push(window);
                    assert(self.entries@ + remaining@ =~= before);
                },
            }
            i = i + 1;
        }
        assert(orig.take(orig.len() as int) =~= orig);
        assert(self.entries@ + remaining@ =~= self.entries@);
        requests
    }

    /// Closes the live window with this handle, if any, as a poll that sees its closed
    /// flag does: the window is dropped with its registered target and the others are
    /// kept as they were. Returns whether such a window was live.
    pub fn close_window(&mut self, handle: u32) -> (r: bool)
        requires
            old(self).wf(),
        ensures
            final(self).wf(),
            r == holds_handle(old(self).live(), handle),
            final(self).live() == kept_windows(old(self).live(), closing(old(self).live(), handle)),
            final(self).registered() == old(self).registered().remove_keys(
                closed_handles(old(self).live(), closing(old(self).live(), handle)),
            ),
    {
        let mut actions: Vec<PollAction> = Vec::new();
        let mut found = false;
        let mut i: usize = 0;
        while i < self.entries.len()
            invariant
                0 <= i <= self.entries@.len(),
                actions@.len() == i,
                forall|j: int| 0 <= j < i ==> #[trigger] actions@[j] == closing(self.entries@, handle)[j],
                found == exists|j: int| 0 <= j < i && #[trigger] self.entries@[j].handle() == handle,
            decreases self.entries@.len() - i,
        {
            if self.entries[i].render_target_handle == handle {
                assert(self.entries@[i as int].handle() == handle);
                actions.push(PollAction::Close);
                found = true;
            } else {
                actions.push(PollAction::Skip);
            }
            i = i + 1;
        }
        assert(actions@ =~= closing(self.entries@, handle));
        self.apply_polls(&actions);
        found
    }

    /// The poll phase, once per tick: reads each window's closed flag and size cells,
    /// decides for each as `poll_action` does, and applies the decisions as
    /// `apply_polls` does. The UI thread writes those cells at any moment, so the
    /// decisions are those for some values the cells may hold.
    pub fn poll(&mut self) -> (r: Vec<Reallocation>)
        requires
            old(self).wf(),
        ensures
            final(self).wf(),
            exists|actions: Seq<PollAction>| {
                &&& actions.len() == old(self).live().len()
                &&& forall|i: int| 0 <= i < actions.len()
                    ==> observed(#[trigger] actions[i], old(self).live()[i].last_size())
                &&& final(self).live() == kept_windows(old(self).live(), actions)
                &&& final(self).registered() == old(self).registered().remove_keys(
                    closed_handles(old(self).live(), actions),
                )
                &&& r@ == reallocations(old(self).live(), actions)
            },
    {
        let mut actions: Vec<PollAction> = Vec::new();
        let mut i: usize = 0;
        while i < self.entries.len()
            invariant
                0 <= i <= self.entries@.len(),
                actions@.len() == i,
                forall|j: int| 0 <= j < i ==> observed(#[trigger] actions@[j], self.entries@[j].last_size()),
            decreases self.entries@.len() - i,
        {
            let action = self.entries[i].poll();
            actions.push(action);
            i = i + 1;
        }
        let ghost taken = actions@;
        let r = self.apply_polls(&actions);
        assert(taken.len() == old(self).live().len());
        r
    }

    /// Registers a newly allocated render target for the window with this handle, in
    /// place of any earlier one, records its size as the window's last, and stores the
    /// frame descriptor built from it as the window's pending frame, overwriting any
    /// frame not yet extracted. Returns false, changing nothing, when no live window
    /// has the handle or the view is not at least one pixel each way.
    pub fn install_render_target(&mut self, handle: u32, texture_view: Arc<TextureView>, fd: i32) -> (r: bool)
        requires
            old(self).wf(),
        ensures
            final(self).wf(),
            r == (holds_handle(old(self).live(), handle) && (*texture_view).size.is_allocatable()),
            !r ==> final(self).live() == old(self).live(),
            !r ==> final(self).registered() == old(self).registered(),
            r ==> final(self).registered() == old(self).registered().insert(handle, texture_view),
            final(self).live().len() == old(self).live().len(),
            forall|i: int| 0 <= i < old(self).live().len() ==> {
                let before = #[trigger] old(self).live()[i];
                let after = final(self).live()[i];
                &&& after.handle() == before.handle()
                &&& before.handle() != handle ==> after == before
                &&& r && before.handle() == handle ==> after.last_size() == (*texture_view).size
                    && after.pending() == Some(FrameInfo {
                        dmabuf: DmabufInfo { size: (*texture_view).size, fd },
                        texture_view,
                    })
            },
    {
        let size = texture_view.size;
        if size.width == 0 || size.height == 0 {
            return false;
        }
        let mut i: usize = 0;
        while i < self.entries.len() && self.entries[i].render_target_handle != handle
            invariant
                0 <= i <= self.entries@.len(),
                forall|j: int| 0 <= j < i ==> self.entries@[j].handle() != handle,
            decreases self.entries@.len() - i,
        {
            i = i + 1;
        }
        if i == self.entries.len() {
            assert(!holds_handle(old(self).live(), handle));
            return false;
        }
        let ghost before = self.entries@;
        let mut window = self.entries.remove(i);
        let frame = FrameInfo::new(share(&texture_view), fd);
        window.last_render_target_size = size;
        window.next_frame_info.store(frame);
        self.entries.insert(i, window);
        self.render_targets.insert(handle, texture_view);
        proof {
            let after = self.entries@;
            assert(after =~= before.update(i as int, window));
            assert(before[i as int].handle() == handle);
            assert(holds_handle(before, handle));
            assert forall|h: u32| #[trigger] self.render_targets@.contains_key(h) implies holds_handle(after, h) by {
                if h == handle {
                    assert(after[i as int].handle() == h);
                } else {
                    let j = choose|j: int| 0 <= j < before.len() && #[trigger] before[j].handle() == h;
                    assert(after[j].handle() == h);
                }
            }
            assert(distinct_handles(after));
            assert forall|j: int| 0 <= j < after.len() implies #[trigger] after[j].wf() by {
                if j != i {
                    assert(after[j] == before[j]);
                }
            }
        }
        true
    }

    /// The extract phase: takes each window's pending frame, if any, and returns one
    /// render-window record per frame taken, in window order. Afterwards no window has
    /// a pending frame.
    pub fn extract_windows(&mut self) -> (r: Vec<RenderWindow>)
        requires
            old(self).wf(),
        ensures
            final(self).wf(),
            final(self).registered() == old(self).registered(),
            final(self).live().len() == old(self).live().len(),
            forall|i: int| 0 <= i < old(self).live().len() ==> {
                let before = #[trigger] old(self).live()[i];
                let after = final(self).live()[i];
                &&& after.same_but_pending(&before)
                &&& after.pending() == Option::<FrameInfo>::None
            },
            record_handoffs(r@) == pending_handoffs(old(self).live()),
            forall|k: int| 0 <= k < r@.len() ==> #[trigger] r@[k].frame() is Some,
    {
        let mut remaining: Vec<AdwaitaWindow> = Vec::new();
        std::mem::swap(&mut self.entries, &mut remaining);
        let ghost orig = remaining@;
        let mut out: Vec<RenderWindow> = Vec::new();
        while remaining.len() > 0
            invariant
                self.entries@.len() <= orig.len(),
                remaining@ == orig.subrange(self.entries@.len() as int, orig.len() as int),
                forall|i: int| 0 <= i < self.entries@.len() ==> {
                    let after = #[trigger] self.entries@[i];
                    &&& after.same_but_pending(&orig[i])
                    &&& after.pending() == Option::<FrameInfo>::None
                },
                record_handoffs(out@) == pending_handoffs(orig.subrange(0, self.entries@.len() as int)),
                forall|k: int| 0 <= k < out@.len() ==> #[trigger] out@[k].frame() is Some,
                self.render_targets@ == old(self).render_targets@,
                orig == old(self).entries@,
            decreases remaining@.len(),
        {
            let ghost n = self.entries@.len() as int;
            let ghost out_before = out@;
            let mut window = remaining.remove(0);
            assert(window == orig[n]);
            let taken = window.next_frame_info.take();
            match taken {
                Option::Some(frame) => {
                    out.push(RenderWindow {
                        shared_next_frame: share(&window.shared_next_frame),
                        next_frame_info: Some(frame),
                    });
                    assert(out@.drop_last() =~= out_before);
                },
                Option::None => {},
            }
            self.entries.push(window);
            proof {
                assert(remaining@ =~= orig.subrange(n + 1, orig.len() as int));
                assert(orig.subrange(0, n + 1).drop_last() =~= orig.subrange(0, n));
            }
        }
        proof {
            assert(orig.subrange(0, orig.len() as int) =~= orig);
            let s = self.entries@;
            assert forall|h: u32| #[trigger] self.render_targets@.contains_key(h) implies holds_handle(s, h) by {
                let j = choose|j: int| 0 <= j < orig.len() && #[trigger] orig[j].handle() == h;
                assert(s[j].handle() == h);
            }
            assert forall|i: int, j: int| 0 <= i < s.len() && 0 <= j < s.len() && i != j
                implies s[i].handle() != s[j].handle() by {
                assert(s[i].handle() == orig[i].handle());
                assert(s[j].handle() == orig[j].handle());
            }
            assert forall|i: int| 0 <= i < s.len() implies #[trigger] s[i].wf() by {
                assert(s[i].pending() == Option::<FrameInfo>::None);
            }
        }
        out
    }

    /// Fewer than `n + 1` windows cannot hold all of the handles `0..=n`.
    proof fn lemma_not_all_taken(&self, n: u32)
        requires
            self.wf(),
            n == self.live().len(),
        ensures
            exists|k: u32| k <= n && !#[trigger] self.handle_taken(k),
    {
        broadcast use seq_to_set_is_finite;

        if forall|k: u32| k <= n ==> #[trigger] self.handle_taken(k) {
            let held = self.entries@.map_values(|w: AdwaitaWindow| w.handle() as int);
            let all = set_int_range(0, n + 1);
            assert forall|k: int| all.contains(k) implies held.to_set().contains(k) by {
                let ku = k as u32;
                assert(self.handle_taken(ku));
                let i = choose|i: int| 0 <= i < self.entries@.len() && #[trigger] self.entries@[i].handle() == ku;
                assert(held[i] == k);
            }
            lemma_int_range(0, n + 1);
            held.lemma_cardinality_of_set();
            lemma_len_subset(all, held.to_set());
            assert(false);
        }
    }
}

/// Once a target of the reported size is in place, polling the same report again
/// allocates nothing: a repeated size is a no-op.
pub proof fn lemma_repeated_size_is_noop(width: i32, height: i32, last: Size)
    requires
        requested_size(width, height) == Option::Some(last),
    ensures
        poll_action(false, width, height, last) == PollAction::Skip,
{
}

/// A report that differs from the last allocated size, with both dimensions
/// non-negative, asks for exactly one new target, at the clamped size.
pub proof fn lemma_changed_size_reallocates(width: i32, height: i32, last: Size)
    requires
        width >= 0,
        height >= 0,
        requested_size(width, height) != Option::Some(last),
    ensures
        poll_action(false, width, height, last) == PollAction::Reallocate(
            requested_size(width, height).unwrap(),
        ),
{
}

/// While either size cell holds a negative value (the unset sentinel among them), a
/// poll neither allocates nor changes the last allocated size.
pub proof fn lemma_unreported_size_skips(width: i32, height: i32, last: Size)
    requires
        width < 0 || height < 0,
    ensures
        poll_action(false, width, height, last) == PollAction::Skip,
{
}

/// A window whose closed flag is set is torn down whatever its size cells hold, and no
/// target is allocated for it, even when it never reported a size.
pub proof fn lemma_closed_window_allocates_nothing(width: i32, height: i32, last: Size)
    ensures
        poll_action(true, width, height, last) == PollAction::Close,
{
}

/// No two live windows hold the same render-target handle.
pub proof fn lemma_live_handles_distinct(windows: &Windows)
    requires
        windows.wf(),
    ensures
        distinct_handles(windows.live()),
{
}

} // verus!
