use vstd::prelude::*;
use std::marker::PhantomData;
use std::sync::Arc;

use crate::instance::{
    arc_into_inner, FrameState, Instance, RawSwapchainCreateInfo, Runtime,
};
use crate::query::{
    fill_result, finish_fill, get_arr_init, init_buffer, query_calls, query_outcome, seq_outcome,
    settling_step, CapacityCall, Exchange, Step,
};
use crate::status::{
    cvt, is_success, status_value, Error, ERROR_SIZE_INSUFFICIENT, SPACE_BOUNDS_UNAVAILABLE,
};
use crate::text::{get_str, str_outcome};

verus! {

/// Object type of a session, as debug naming expects it.
pub const OBJECT_TYPE_SESSION: i32 = 2;

/// A graphics API a session can be created for. Each API has its own format
/// type, so a format of one API cannot be handed to a session of another.
pub trait Graphics {
    type Format: Copy;

    /// The native number of a format.
    spec fn spec_lower_format(f: Self::Format) -> i64;

    /// The format a native number stands for.
    spec fn spec_raise_format(x: i64) -> Self::Format;

    fn lower_format(f: Self::Format) -> (r: i64)
        ensures
            r == Self::spec_lower_format(f),
    ;

    fn raise_format(x: i64) -> (r: Self::Format)
        ensures
            r == Self::spec_raise_format(x),
    ;
}

/// OpenGL, whose formats are `GLenum` values.
pub struct OpenGl;

impl Graphics for OpenGl {
    type Format = u32;

    open spec fn spec_lower_format(f: u32) -> i64 {
        f as i64
    }

    open spec fn spec_raise_format(x: i64) -> u32 {
        x as u32
    }

    fn lower_format(f: u32) -> (r: i64) {
        f as i64
    }

    fn raise_format(x: i64) -> (r: u32) {
        x as u32
    }
}

/// The formats of a session's graphics API for the native numbers `raw`,
/// one for one and in order.
pub fn raise_formats<G: Graphics>(raw: &Vec<i64>) -> (r: Vec<G::Format>)
    ensures
        r@.len() == raw@.len(),
        forall|i: int| 0 <= i < raw@.len() ==> r@[i] == G::spec_raise_format(#[trigger] raw@[i]),
{
    let mut out: Vec<G::Format> = Vec::new();
    let mut i: usize = 0;
    while i < raw.len()
        invariant
            i <= raw.len(),
            out@.len() == i,
            forall|j: int| 0 <= j < i ==> out@[j] == G::spec_raise_format(#[trigger] raw@[j]),
        decreases raw.len() - i,
    {
        out.push(G::raise_format(raw[i]));
        i = i + 1;
    }
    out
}

/// The native handles of `sets`, in order, as attaching hands them over.
pub fn action_set_handles<R: Runtime>(sets: &Vec<&ActionSet<R>>) -> (r: Vec<u64>)
    ensures
        r@.len() == sets@.len(),
        forall|j: int| 0 <= j < sets@.len() ==> r@[j] == (#[trigger] sets@[j]).handle,
{
    let mut raw: Vec<u64> = Vec::new();
    let mut i: usize = 0;
    while i < sets.len()
        invariant
            i <= sets.len(),
            raw@.len() == i,
            forall|j: int| 0 <= j < i ==> raw@[j] == (#[trigger] sets@[j]).handle,
        decreases sets.len() - i,
    {
        raw.push(sets[i].as_raw());
        i = i + 1;
    }
    raw
}

/// The (action set, subaction path) pairs of `action_sets`, in order, as
/// synchronisation hands them over.
pub fn active_pairs(action_sets: &Vec<ActiveActionSet<'_>>) -> (r: Vec<(u64, u64)>)
    ensures
        r@.len() == action_sets@.len(),
        forall|j: int| 0 <= j < action_sets@.len() ==> r@[j] == ((#[trigger] action_sets@[j]).spec_action_set(),
            action_sets@[j].spec_subaction_path()),
{
    let mut raw: Vec<(u64, u64)> = Vec::new();
    let mut i: usize = 0;
    while i < action_sets.len()
        invariant
            i <= action_sets.len(),
            raw@.len() == i,
            forall|j: int| 0 <= j < i ==> raw@[j] == ((#[trigger] action_sets@[j]).spec_action_set(),
                action_sets@[j].spec_subaction_path()),
        decreases action_sets.len() - i,
    {
        raw.push((action_sets[i].action_set(), action_sets[i].subaction_path()));
        i = i + 1;
    }
    raw
}

/// A located view: its pose and field of view.
#[derive(Clone, Copy)]
pub struct LocatedView<P, F> {
    pub pose: P,
    pub fov: F,
}

/// Mesh of the visible area of a view.
#[derive(Clone)]
pub struct VisibilityMask<V> {
    pub vertices: Vec<V>,
    pub indices: Vec<u32>,
}

/// The parameters of a swapchain for graphics API `G`.
#[derive(Clone, Copy)]
pub struct SwapchainCreateInfo<G: Graphics> {
    pub create_flags: u64,
    pub usage_flags: u64,
    pub format: G::Format,
    pub sample_count: u32,
    pub width: u32,
    pub height: u32,
    pub face_count: u32,
    pub array_size: u32,
    pub mip_count: u32,
}

/// An action set and, optionally, the subaction path it is limited to. It
/// borrows the action set, so it cannot outlive it.
#[derive(Clone, Copy, Debug)]
pub struct ActiveActionSet<'a> {
    action_set: u64,
    subaction_path: u64,
    marker: PhantomData<&'a ()>,
}

/// A set of actions, owned alongside its instance.
pub struct ActionSet<R: Runtime> {
    pub instance: Instance<R>,
    pub handle: u64,
}

impl<R: Runtime> ActionSet<R> {
    /// Takes ownership of a native action-set handle of `instance`.
    pub fn from_raw(instance: Instance<R>, handle: u64) -> (r: Self)
        ensures
            r.handle == handle,
    {
        ActionSet { instance, handle }
    }

    /// The native handle.
    pub fn as_raw(&self) -> (r: u64)
        ensures
            r == self.handle,
    {
        self.handle
    }
}

impl<'a> ActiveActionSet<'a> {
    /// The handle of the action set.
    pub closed spec fn spec_action_set(&self) -> u64 {
        self.action_set
    }

    /// The subaction path; 0 for none.
    pub closed spec fn spec_subaction_path(&self) -> u64 {
        self.subaction_path
    }

    /// The whole action set, with no subaction path.
    pub fn new<R: Runtime>(action_set: &'a ActionSet<R>) -> (r: Self)
        ensures
            r.spec_action_set() == action_set.handle,
            r.spec_subaction_path() == 0,
    {
        Self::with_subaction(action_set, 0)
    }

    /// The action set limited to `subaction_path`.
    pub fn with_subaction<R: Runtime>(action_set: &'a ActionSet<R>, subaction_path: u64) -> (r: Self)
        ensures
            r.spec_action_set() == action_set.handle,
            r.spec_subaction_path() == subaction_path,
    {
        ActiveActionSet { action_set: action_set.as_raw(), subaction_path, marker: PhantomData }
    }

    /// The handle of the action set.
    pub fn action_set(&self) -> (r: u64)
        ensures
            r == self.spec_action_set(),
    {
        self.action_set
    }

    /// The subaction path; 0 for none.
    pub fn subaction_path(&self) -> (r: u64)
        ensures
            r == self.spec_subaction_path(),
    {
        self.subaction_path
    }
}

/// The result of a bounds query whose call answered `status` and wrote
/// `extent`: the failure, no bounds while they are unavailable, or the extent.
pub fn bounds_from_status<E: Copy>(status: i32, extent: E) -> (r: Result<Option<E>, Error>)
    ensures
        !is_success(status) ==> r == Err::<Option<E>, Error>(Error::Runtime(status)),
        status == SPACE_BOUNDS_UNAVAILABLE ==> r == Ok::<Option<E>, Error>(None),
        is_success(status) && status != SPACE_BOUNDS_UNAVAILABLE ==> r == Ok::<Option<E>, Error>(
            Some(extent),
        ),
{
    let status = cvt(status)?;
    if status == SPACE_BOUNDS_UNAVAILABLE {
        Ok(None)
    } else {
        Ok(Some(extent))
    }
}

/// What the visibility-mask query does after one answer of the runtime.
#[derive(Clone, Copy, Debug, PartialEq, Eq, Structural)]
pub enum MaskStep {
    /// Call again with buffers of these sizes.
    Grow { vertex_capacity: u32, index_capacity: u32 },
    /// The buffers hold the mesh: keep this many vertices and indices.
    Done { vertex_count: u32, index_count: u32 },
    /// Stop and report this failure code.
    Fail { code: i32 },
}

pub open spec fn max_u32(a: u32, b: u32) -> u32 {
    if a >= b {
        a
    } else {
        b
    }
}

/// The decision taken when a call made with buffers of `vertex_capacity` and
/// `index_capacity` elements answered `status` with the two counts.
///
/// Counts that fit end the query. A count beyond its buffer, on success or
/// with `ERROR_SIZE_INSUFFICIENT`, grows that buffer to the count and keeps
/// the other. A size-insufficient answer that grows neither is fatal.
pub open spec fn mask_step_spec(
    vertex_capacity: u32,
    index_capacity: u32,
    status: i32,
    vertex_count: u32,
    index_count: u32,
) -> MaskStep {
    if vertex_count <= vertex_capacity && index_count <= index_capacity {
        if is_success(status) {
            MaskStep::Done { vertex_count, index_count }
        } else {
            MaskStep::Fail { code: status }
        }
    } else if is_success(status) || status == ERROR_SIZE_INSUFFICIENT {
        MaskStep::Grow {
            vertex_capacity: max_u32(vertex_capacity, vertex_count),
            index_capacity: max_u32(index_capacity, index_count),
        }
    } else {
        MaskStep::Fail { code: status }
    }
}

/// Decides the next move of the visibility-mask query.
pub fn next_mask_step(
    vertex_capacity: u32,
    index_capacity: u32,
    status: i32,
    vertex_count: u32,
    index_count: u32,
) -> (r: MaskStep)
    ensures
        r == mask_step_spec(vertex_capacity, index_capacity, status, vertex_count, index_count),
{
    if vertex_count <= vertex_capacity && index_count <= index_capacity {
        if status >= 0 {
            MaskStep::Done { vertex_count, index_count }
        } else {
            MaskStep::Fail { code: status }
        }
    } else if status >= 0 || status == ERROR_SIZE_INSUFFICIENT {
        MaskStep::Grow {
            vertex_capacity: if vertex_capacity >= vertex_count {
                vertex_capacity
            } else {
                vertex_count
            },
            index_capacity: if index_capacity >= index_count {
                index_capacity
            } else {
                index_count
            },
        }
    } else {
        MaskStep::Fail { code: status }
    }
}

/// The located views of a result, or its failure.
pub open spec fn views_of<P, F>(r: Result<(u64, Vec<LocatedView<P, F>>), Error>) -> Result<
    Seq<LocatedView<P, F>>,
    Error,
> {
    match r {
        Ok(p) => Ok(p.1@),
        Err(e) => Err(e),
    }
}

/// The formats a query yields from its raw result: each native number
/// raised, one for one and in order, or the same failure.
pub open spec fn formats_outcome<G: Graphics>(raw: Result<Seq<i64>, Error>, r: Result<
    Vec<G::Format>,
    Error,
>) -> bool {
    match raw {
        Ok(x) => r matches Ok(v) && v@ == x.map_values(|n: i64| G::spec_raise_format(n)),
        Err(e) => r == Err::<Vec<G::Format>, Error>(e),
    }
}

/// One exchange of the visibility-mask query: the vertex and index
/// capacities handed over, the two buffers as the call left them, the status
/// and the two counts the runtime reported.
pub type MaskExchange<V> = (u32, u32, Seq<V>, Seq<u32>, i32, u32, u32);

/// The step the answer of one exchange calls for.
pub open spec fn mask_exchange_step<V>(e: MaskExchange<V>) -> MaskStep {
    mask_step_spec(e.0, e.1, e.4, e.5, e.6)
}

/// The exchanges were made as the query asks: the first with no room, each
/// later one with the capacities the answer before it grew to.
pub open spec fn mask_chain<V>(log: Seq<MaskExchange<V>>) -> bool {
    forall|k: int|
        0 <= k < log.len() ==> (k == 0 ==> (#[trigger] log[k]).0 == 0 && log[k].1 == 0) && (k > 0
            ==> mask_exchange_step(log[k - 1]) == (MaskStep::Grow {
            vertex_capacity: log[k].0,
            index_capacity: log[k].1,
        }))
}

/// What a finished fill of the mesh yields: the reported prefixes of the two
/// buffers, or `InvalidCount` when a buffer holds fewer.
pub open spec fn mask_fill<V>(vertices: Seq<V>, indices: Seq<u32>, vertex_count: u32, index_count: u32) -> Result<
    (Seq<V>, Seq<u32>),
    Error,
> {
    if vertex_count as nat > vertices.len() || index_count as nat > indices.len() {
        Err(Error::InvalidCount)
    } else {
        Ok((vertices.take(vertex_count as int), indices.take(index_count as int)))
    }
}

/// A mesh result seen as two sequences.
pub open spec fn mask_view<V>(r: Result<VisibilityMask<V>, Error>) -> Result<(Seq<V>, Seq<u32>), Error> {
    match r {
        Ok(m) => Ok((m.vertices@, m.indices@)),
        Err(e) => Err(e),
    }
}

/// The query made the exchanges `log` and returned `r`: the exchanges
/// follow the growth rule, and `r` is what the last answer calls for.
pub open spec fn mask_outcome<V>(log: Seq<MaskExchange<V>>, r: Result<(Seq<V>, Seq<u32>), Error>) -> bool {
    &&& log.len() >= 1
    &&& mask_chain(log)
    &&& match mask_exchange_step(log.last()) {
        MaskStep::Done { vertex_count, index_count } => r == mask_fill(
            log.last().2,
            log.last().3,
            vertex_count,
            index_count,
        ),
        MaskStep::Fail { code } => r == Err::<(Seq<V>, Seq<u32>), Error>(Error::Runtime(code)),
        MaskStep::Grow { .. } => false,
    }
}

/// Keeps the first `vertex_count` vertices and `index_count` indices of a
/// filled mesh, or reports `InvalidCount` when a buffer holds fewer.
pub fn finish_mask<V>(vertices: Vec<V>, indices: Vec<u32>, vertex_count: u32, index_count: u32) -> (r:
    Result<VisibilityMask<V>, Error>)
    ensures
        (vertex_count as nat > vertices@.len() || index_count as nat > indices@.len()) <==> r
            == Err::<VisibilityMask<V>, Error>(Error::InvalidCount),
        r matches Ok(m) ==> m.vertices@ == vertices@.take(vertex_count as int) && m.indices@
            == indices@.take(index_count as int),
        r matches Err(e) ==> e == Error::InvalidCount,
{
    if vertex_count as usize > vertices.len() || index_count as usize > indices.len() {
        return Err(Error::InvalidCount);
    }
    let mut vertices = vertices;
    let mut indices = indices;
    let ghost (v0, i0) = (vertices@, indices@);
    vertices.truncate(vertex_count as usize);
    indices.truncate(index_count as usize);
    assert(vertices@ =~= v0.take(vertex_count as int));
    assert(indices@ =~= i0.take(index_count as int));
    Ok(VisibilityMask { vertices, indices })
}

/// Each growth of the visibility-mask buffers keeps both capacities and
/// enlarges at least one to exactly the count the runtime reported, so the
/// query cannot grow forever; counts that fit never lead to a growth.
pub proof fn law_mask_growth_bounded(
    vertex_capacity: u32,
    index_capacity: u32,
    status: i32,
    vertex_count: u32,
    index_count: u32,
)
    ensures
        ({
            let s = mask_step_spec(vertex_capacity, index_capacity, status, vertex_count, index_count);
            &&& s is Grow ==> s->vertex_capacity >= vertex_capacity && s->index_capacity
                >= index_capacity && s->vertex_capacity >= vertex_count && s->index_capacity
                >= index_count && (s->vertex_capacity > vertex_capacity || s->index_capacity
                > index_capacity)
            &&& vertex_count <= vertex_capacity && index_count <= index_capacity ==> !(s is Grow)
        }),
{
}

pub struct SessionInner<R: Runtime> {
    pub instance: Instance<R>,
    pub handle: u64,
}

/// Gives up one owner of a session; the last one destroys the native
/// session and then gives up its owner of the instance.
fn release_session<R: Runtime>(inner: Arc<SessionInner<R>>) -> (r: bool) {
    match arc_into_inner(inner) {
        Some(inner) => {
            let _ = inner.instance.fp().destroy_session(inner.handle);
            let _ = inner.instance.release();
            true
        },
        None => false,
    }
}

struct ReferenceSpaces<'a, R: Runtime> {
    runtime: &'a R,
    session: u64,
    log: Ghost<Seq<Exchange<i32>>>,
}

impl<'a, R: Runtime> CapacityCall<i32> for ReferenceSpaces<'a, R> {
    closed spec fn exchanges(&self) -> Seq<Exchange<i32>> {
        self.log@
    }

    fn call(&mut self, buf: &mut Vec<i32>) -> (r: (i32, u32)) {
        let ghost handed = buf@;
        let r = self.runtime.enumerate_reference_spaces(self.session, buf);
        self.log = Ghost(self.log@.push((handed, buf@, r.0, r.1)));
        r
    }
}

struct SwapchainFormats<'a, R: Runtime> {
    runtime: &'a R,
    session: u64,
    log: Ghost<Seq<Exchange<i64>>>,
}

impl<'a, R: Runtime> CapacityCall<i64> for SwapchainFormats<'a, R> {
    closed spec fn exchanges(&self) -> Seq<Exchange<i64>> {
        self.log@
    }

    fn call(&mut self, buf: &mut Vec<i64>) -> (r: (i32, u32)) {
        let ghost handed = buf@;
        let r = self.runtime.enumerate_swapchain_formats(self.session, buf);
        self.log = Ghost(self.log@.push((handed, buf@, r.0, r.1)));
        r
    }
}

struct LocateViews<'a, R: Runtime> {
    runtime: &'a R,
    session: u64,
    view_configuration_type: i32,
    display_time: i64,
    space: u64,
    view_state_flags: u64,
    log: Ghost<Seq<Exchange<LocatedView<R::Posef, R::Fovf>>>>,
}

impl<'a, R: Runtime> CapacityCall<LocatedView<R::Posef, R::Fovf>> for LocateViews<'a, R> {
    closed spec fn exchanges(&self) -> Seq<Exchange<LocatedView<R::Posef, R::Fovf>>> {
        self.log@
    }

    fn call(&mut self, buf: &mut Vec<LocatedView<R::Posef, R::Fovf>>) -> (r: (i32, u32)) {
        let ghost handed = buf@;
        let r = self.runtime.locate_views(
            self.session,
            self.view_configuration_type,
            self.display_time,
            self.space,
            &mut self.view_state_flags,
            buf,
        );
        self.log = Ghost(self.log@.push((handed, buf@, r.0, r.1)));
        r
    }
}

struct LocalizedName<'a, R: Runtime> {
    runtime: &'a R,
    session: u64,
    source_path: u64,
    which_components: u64,
    log: Ghost<Seq<Exchange<u8>>>,
}

impl<'a, R: Runtime> CapacityCall<u8> for LocalizedName<'a, R> {
    closed spec fn exchanges(&self) -> Seq<Exchange<u8>> {
        self.log@
    }

    fn call(&mut self, buf: &mut Vec<u8>) -> (r: (i32, u32)) {
        let ghost handed = buf@;
        let r = self.runtime.get_input_source_localized_name(
            self.session,
            self.source_path,
            self.which_components,
            buf,
        );
        self.log = Ghost(self.log@.push((handed, buf@, r.0, r.1)));
        r
    }
}

/// The native form of a swapchain's parameters: every field kept, the
/// format lowered to the graphics API's native number.
pub fn lower_swapchain_info<G: Graphics>(info: &SwapchainCreateInfo<G>) -> (r:
    RawSwapchainCreateInfo)
    ensures
        r.create_flags == info.create_flags,
        r.usage_flags == info.usage_flags,
        r.sample_count == info.sample_count,
        r.width == info.width,
        r.height == info.height,
        r.face_count == info.face_count,
        r.array_size == info.array_size,
        r.mip_count == info.mip_count,
        r.format == G::spec_lower_format(info.format),
{
    RawSwapchainCreateInfo {
        create_flags: info.create_flags,
        usage_flags: info.usage_flags,
        format: G::lower_format(info.format),
        sample_count: info.sample_count,
        width: info.width,
        height: info.height,
        face_count: info.face_count,
        array_size: info.array_size,
        mip_count: info.mip_count,
    }
}

/// A rendering session using graphics API `G`.
pub struct Session<G: Graphics, R: Runtime> {
    pub inner: Arc<SessionInner<R>>,
    pub marker: PhantomData<G>,
}

impl<G: Graphics, R: Runtime> Session<G, R> {
    /// Takes ownership of a native session handle of `instance`, created for
    /// graphics API `G`, with the frame waiter and frame stream that share it.
    pub fn from_raw(instance: Instance<R>, handle: u64) -> (r: (Self, FrameWaiter<R>, FrameStream<G, R>))
        ensures
            r.0.inner.handle == handle,
            r.1.session == r.0.inner,
            r.2.session == r.0.inner,
            r.0.inner.instance.inner == instance.inner,
    {
        let inner = Arc::new(SessionInner { instance, handle });
        let waiter = FrameWaiter { session: inner.clone() };
        let stream = FrameStream { session: inner.clone(), marker: PhantomData };
        (Session { inner, marker: PhantomData }, waiter, stream)
    }

    /// The native handle.
    pub fn as_raw(&self) -> (r: u64)
        ensures
            r == self.inner.handle,
    {
        self.inner.handle
    }

    /// The instance the session descends from.
    pub fn instance(&self) -> (r: &Instance<R>)
        ensures
            r.inner == self.inner.instance.inner,
    {
        &self.inner.instance
    }

    fn fp(&self) -> (r: &R)
        ensures
            *r == *self.inner.instance.inner.entry.inner,
    {
        self.inner.instance.fp()
    }

    /// Another owner of the same session.
    pub fn clone(&self) -> (r: Self)
        ensures
            r.inner == self.inner,
    {
        Session { inner: self.inner.clone(), marker: PhantomData }
    }

    /// Gives up this owner; see `Instance::release`.
    pub fn release(self) -> (r: bool) {
        release_session(self.inner)
    }

    /// Sets the debug name of the session; needs the debug-utils extension.
    pub fn set_name(&mut self, name: &str) -> (r: Result<(), Error>)
        ensures
            !old(self).inner.instance.inner.exts.ext_debug_utils ==> r == Err::<(), Error>(
                Error::ExtensionNotEnabled,
            ),
            r matches Err(e) ==> ((e == Error::ExtensionNotEnabled
                && !old(self).inner.instance.inner.exts.ext_debug_utils) || (e matches Error::Runtime(
                code,
            ) && !is_success(code))),
    {
        self.inner.instance.set_name_raw(OBJECT_TYPE_SESSION, self.inner.handle, name)
    }

    /// Asks the runtime to show the application's output; the success code
    /// tells, for instance, whether the session lost focus.
    pub fn begin(&self, view_configuration_type: i32) -> (r: Result<i32, Error>)
        ensures
            r matches Ok(code) ==> is_success(code),
            r matches Err(e) ==> (e matches Error::Runtime(code) && !is_success(code)),
    {
        cvt(self.fp().begin_session(self.inner.handle, view_configuration_type))
    }

    /// Requests the move to the stopping state after which `end` may be
    /// called; the move itself is reported later as an event.
    pub fn request_exit(&self) -> (r: Result<(), Error>)
        ensures
            r matches Err(e) ==> (e matches Error::Runtime(code) && !is_success(code)),
    {
        cvt(self.fp().request_exit_session(self.inner.handle))?;
        Ok(())
    }

    /// Ends a session in the stopping state. In any other state the runtime's
    /// failure code comes back unchanged and the session stays usable.
    pub fn end(&self) -> (r: Result<i32, Error>)
        ensures
            r matches Ok(code) ==> is_success(code),
            r matches Err(e) ==> (e matches Error::Runtime(code) && !is_success(code)),
    {
        cvt(self.fp().end_session(self.inner.handle))
    }

    /// The bounds of a reference space, or `None` while they are unknown.
    pub fn reference_space_bounds_rect(&self, ty: i32) -> (r: Result<Option<R::Extent2Df>, Error>)
        ensures
            r matches Err(e) ==> (e matches Error::Runtime(code) && !is_success(code)),
    {
        let (status, extent) = self.fp().get_reference_space_bounds_rect(self.inner.handle, ty);
        bounds_from_status(status, extent)
    }

    /// The reference space types of the session, constant for its lifetime.
    pub fn enumerate_reference_spaces(&self) -> (r: Result<Vec<i32>, Error>)
        ensures
            exists|ex: Seq<Exchange<i32>>| #[trigger] query_outcome(0i32, ex, seq_outcome(r)),
    {
        let mut call = ReferenceSpaces {
            runtime: self.fp(),
            session: self.inner.handle,
            log: Ghost(Seq::empty()),
        };
        let r = get_arr_init(0i32, &mut call);
        assert(call.exchanges().skip(0) =~= call.exchanges());
        r
    }

    /// Creates a space based on a reference space type.
    pub fn create_reference_space(&self, reference_space_type: i32, pose: R::Posef) -> (r: Result<
        Space<R>,
        Error,
    >)
        ensures
            r matches Ok(s) ==> s.session == self.inner,
            r matches Err(e) ==> (e matches Error::Runtime(code) && !is_success(code)),
    {
        let (status, handle) = self.fp().create_reference_space(
            self.inner.handle,
            reference_space_type,
            pose,
        );
        let handle = status_value(status, handle)?;
        Ok(Space { session: self.inner.clone(), handle })
    }

    /// The texture formats the session supports, in the graphics API's terms.
    pub fn enumerate_swapchain_formats(&self) -> (r: Result<Vec<G::Format>, Error>)
        ensures
            exists|ex: Seq<Exchange<i64>>, raw: Result<Seq<i64>, Error>|
                #[trigger] query_outcome(0i64, ex, raw) && formats_outcome::<G>(raw, r),
    {
        let mut call = SwapchainFormats {
            runtime: self.fp(),
            session: self.inner.handle,
            log: Ghost(Seq::empty()),
        };
        let raw = get_arr_init(0i64, &mut call);
        assert(call.exchanges().skip(0) =~= call.exchanges());
        match raw {
            Ok(raw) => {
                let v = raise_formats::<G>(&raw);
                assert(v@ =~= raw@.map_values(|n: i64| G::spec_raise_format(n)));
                Ok(v)
            },
            Err(e) => Err(e),
        }
    }

    /// Creates a swapchain; its format is lowered through the session's
    /// graphics API before the call.
    pub fn create_swapchain(&self, info: &SwapchainCreateInfo<G>) -> (r: Result<
        Swapchain<G, R>,
        Error,
    >)
        ensures
            r matches Ok(s) ==> s.session == self.inner,
            r matches Err(e) ==> (e matches Error::Runtime(code) && !is_success(code)),
    {
        let raw = lower_swapchain_info(info);
        let (status, handle) = self.fp().create_swapchain(self.inner.handle, &raw);
        let handle = status_value(status, handle)?;
        Ok(Swapchain { session: self.inner.clone(), handle, marker: PhantomData })
    }

    /// The view-state flags and one pose and field of view per view, at
    /// `display_time` in `space`. Call it as late as possible before
    /// rendering, for the most accurate poses. Each view slot holds the
    /// runtime's unset view before a fill.
    pub fn locate_views(&self, view_configuration_type: i32, display_time: i64, space: &Space<R>) -> (r:
        Result<(u64, Vec<LocatedView<R::Posef, R::Fovf>>), Error>)
        ensures
            exists|init: LocatedView<R::Posef, R::Fovf>, ex: Seq<Exchange<LocatedView<R::Posef, R::Fovf>>>|
                #[trigger] query_outcome(init, ex, views_of(r)),
    {
        let runtime = self.fp();
        let mut call = LocateViews {
            runtime,
            session: self.inner.handle,
            view_configuration_type,
            display_time,
            space: space.handle,
            view_state_flags: 0,
            log: Ghost(Seq::empty()),
        };
        let unset = runtime.unset_view();
        let views = get_arr_init(unset, &mut call);
        assert(call.exchanges().skip(0) =~= call.exchanges());
        match views {
            Ok(views) => Ok((call.view_state_flags, views)),
            Err(e) => Err(e),
        }
    }

    /// The interaction profile in use for a top-level user path; 0 when none.
    pub fn current_interaction_profile(&self, top_level_user_path: u64) -> (r: Result<u64, Error>)
        ensures
            r matches Err(e) ==> (e matches Error::Runtime(code) && !is_success(code)),
    {
        let (status, profile) = self.fp().get_current_interaction_profile(
            self.inner.handle,
            top_level_user_path,
        );
        status_value(status, profile)
    }

    /// Attaches action sets to the session, after which they are immutable.
    pub fn attach_action_sets(&self, sets: &Vec<&ActionSet<R>>) -> (r: Result<(), Error>)
        requires
            sets.len() <= u32::MAX,
        ensures
            r matches Err(e) ==> (e matches Error::Runtime(code) && !is_success(code)),
    {
        let raw = action_set_handles(sets);
        cvt(self.fp().attach_session_action_sets(self.inner.handle, &raw))?;
        Ok(())
    }

    /// Chooses the active action sets and updates the state of their actions.
    pub fn sync_actions(&self, action_sets: &Vec<ActiveActionSet<'_>>) -> (r: Result<(), Error>)
        requires
            action_sets.len() <= u32::MAX,
        ensures
            r matches Err(e) ==> (e matches Error::Runtime(code) && !is_success(code)),
    {
        let raw = active_pairs(action_sets);
        cvt(self.fp().sync_actions(self.inner.handle, &raw))?;
        Ok(())
    }

    /// The name of an input source in the user's language: the valid UTF-8
    /// text before the first NUL of what the runtime wrote.
    pub fn input_source_localized_name(&self, source: u64, which_components: u64) -> (r: Result<
        String,
        Error,
    >)
        ensures
            exists|ex: Seq<Exchange<u8>>| #[trigger] str_outcome(ex, r),
    {
        let mut call = LocalizedName {
            runtime: self.fp(),
            session: self.inner.handle,
            source_path: source,
            which_components,
            log: Ghost(Seq::empty()),
        };
        let r = get_str(&mut call);
        assert(call.exchanges().skip(0) =~= call.exchanges());
        r
    }

    /// The mesh of the visible area of a view. Needs the visibility-mask
    /// extension; without it this fails with `ExtensionNotEnabled`.
    pub fn get_visibility_mask_khr(
        &self,
        view_configuration_type: i32,
        view_index: u32,
        visibility_mask_type: i32,
    ) -> (r: Result<VisibilityMask<R::Vector2f>, Error>)
        ensures
            !self.inner.instance.inner.exts.khr_visibility_mask ==> r == Err::<
                VisibilityMask<R::Vector2f>,
                Error,
            >(Error::ExtensionNotEnabled),
            r matches Err(e) ==> ((e == Error::ExtensionNotEnabled
                && !self.inner.instance.inner.exts.khr_visibility_mask) || e == Error::InvalidCount
                || (e matches Error::Runtime(code) && !is_success(code))),
            r matches Ok(m) ==> m.vertices.len() <= u32::MAX && m.indices.len() <= u32::MAX,
            self.inner.instance.inner.exts.khr_visibility_mask ==> exists|
                log: Seq<MaskExchange<R::Vector2f>>,
            | #[trigger] mask_outcome(log, mask_view(r)),
    {
        if !self.inner.instance.inner.exts.khr_visibility_mask {
            return Err(Error::ExtensionNotEnabled);
        }
        let runtime = self.fp();
        let blank = runtime.unset_vertex();
        let mut vertex_capacity: u32 = 0;
        let mut index_capacity: u32 = 0;
        let mut vertices: Vec<R::Vector2f> = Vec::new();
        let mut indices: Vec<u32> = Vec::new();
        let ghost mut log: Seq<MaskExchange<R::Vector2f>> = Seq::empty();
        loop
            invariant
                mask_chain(log),
                log.len() == 0 ==> vertex_capacity == 0 && index_capacity == 0,
                log.len() > 0 ==> mask_exchange_step(log.last()) == (MaskStep::Grow {
                    vertex_capacity,
                    index_capacity,
                }),
                self.inner.instance.inner.exts.khr_visibility_mask,
                vertices.len() == vertex_capacity,
                indices.len() == index_capacity,
            decreases (u32::MAX - vertex_capacity) + (u32::MAX - index_capacity),
        {
            let (status, vertex_count, index_count) = runtime.get_visibility_mask(
                self.inner.handle,
                view_configuration_type,
                view_index,
                visibility_mask_type,
                &mut vertices,
                &mut indices,
            );
            let ghost e = (
                vertex_capacity,
                index_capacity,
                vertices@,
                indices@,
                status,
                vertex_count,
                index_count,
            );
            proof {
                let log2 = log.push(e);
                assert forall|k: int| 0 <= k < log2.len() implies (k == 0 ==> (#[trigger] log2[k]).0
                    == 0 && log2[k].1 == 0) && (k > 0 ==> mask_exchange_step(log2[k - 1]) == (
                MaskStep::Grow { vertex_capacity: log2[k].0, index_capacity: log2[k].1 })) by {
                    if k < log.len() {
                        assert(log2[k] == log[k]);
                    }
                    if k > 0 && k - 1 < log.len() {
                        assert(log2[k - 1] == log[k - 1]);
                    }
                }
                log = log2;
            }
            match next_mask_step(vertex_capacity, index_capacity, status, vertex_count, index_count) {
                MaskStep::Grow { vertex_capacity: v, index_capacity: i } => {
                    vertices = init_buffer(blank, v);
                    indices = init_buffer(0u32, i);
                    vertex_capacity = v;
                    index_capacity = i;
                },
                MaskStep::Done { vertex_count, index_count } => {
                    let r = finish_mask(vertices, indices, vertex_count, index_count);
                    assert(mask_outcome(log, mask_view(r)));
                    return r;
                },
                MaskStep::Fail { code } => {
                    let r = Err(Error::Runtime(code));
                    assert(mask_outcome(log, mask_view::<R::Vector2f>(r)));
                    return r;
                },
            }
        }
    }
}

/// A space created from a session.
pub struct Space<R: Runtime> {
    pub session: Arc<SessionInner<R>>,
    pub handle: u64,
}

impl<R: Runtime> Space<R> {
    /// The native handle.
    pub fn as_raw(&self) -> (r: u64)
        ensures
            r == self.handle,
    {
        self.handle
    }

    /// Destroys the native space and gives up its owner of the session.
    pub fn release(self) -> (r: bool) {
        let _ = self.session.instance.fp().destroy_space(self.handle);
        release_session(self.session)
    }
}

/// A swapchain of graphics API `G`, created from a session of that API.
pub struct Swapchain<G: Graphics, R: Runtime> {
    pub session: Arc<SessionInner<R>>,
    pub handle: u64,
    pub marker: PhantomData<G>,
}

impl<G: Graphics, R: Runtime> Swapchain<G, R> {
    /// The native handle.
    pub fn as_raw(&self) -> (r: u64)
        ensures
            r == self.handle,
    {
        self.handle
    }

    /// Destroys the native swapchain and gives up its owner of the session.
    pub fn release(self) -> (r: bool) {
        let _ = self.session.instance.fp().destroy_swapchain(self.handle);
        release_session(self.session)
    }
}

/// The half of a session's frame loop that waits for the next frame.
pub struct FrameWaiter<R: Runtime> {
    pub session: Arc<SessionInner<R>>,
}

impl<R: Runtime> FrameWaiter<R> {
    /// Blocks until the next frame should begin and reports its timing.
    /// Waiting again before that frame went through begin and end is an
    /// ordering fault: the runtime's failure code comes back unchanged.
    pub fn wait(&mut self) -> (r: Result<FrameState, Error>)
        ensures
            r matches Err(e) ==> (e matches Error::Runtime(code) && !is_success(code)),
    {
        let (status, state) = self.session.instance.fp().wait_frame(self.session.handle);
        status_value(status, state)
    }

    /// Gives up this owner of the session.
    pub fn release(self) -> (r: bool) {
        release_session(self.session)
    }
}

/// The half of a session's frame loop that begins and submits frames.
pub struct FrameStream<G: Graphics, R: Runtime> {
    pub session: Arc<SessionInner<R>>,
    pub marker: PhantomData<G>,
}

impl<G: Graphics, R: Runtime> FrameStream<G, R> {
    /// Marks the start of rendering of the frame the waiter was told of.
    pub fn begin(&mut self) -> (r: Result<i32, Error>)
        ensures
            r matches Ok(code) ==> is_success(code),
            r matches Err(e) ==> (e matches Error::Runtime(code) && !is_success(code)),
    {
        cvt(self.session.instance.fp().begin_frame(self.session.handle))
    }

    /// Submits the frame for `display_time`.
    pub fn end(&mut self, display_time: i64, environment_blend_mode: i32) -> (r: Result<(), Error>)
        ensures
            r matches Err(e) ==> (e matches Error::Runtime(code) && !is_success(code)),
    {
        cvt(
            self.session.instance.fp().end_frame(
                self.session.handle,
                display_time,
                environment_blend_mode,
            ),
        )?;
        Ok(())
    }

    /// Gives up this owner of the session.
    pub fn release(self) -> (r: bool) {
        release_session(self.session)
    }
}

} // verus!
