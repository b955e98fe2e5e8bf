use vstd::prelude::*;
use std::sync::Arc;

use crate::session::LocatedView;
use crate::status::{cvt, is_success, Error};

verus! {

/// The native entry points of a runtime, global and per-instance.
///
/// Every method makes one native call and returns its status code (with the
/// counts or handles it wrote). A method that fills a buffer takes its
/// capacity from `buf.len()`; an empty buffer stands for a null pointer.
/// Types that hold floating-point data stay the implementation's own.
pub trait Runtime {
    type Posef: Copy;
    type Fovf: Copy;
    type Extent2Df: Copy;
    type Vector2f: Copy;

    fn create_instance(&self, info: &InstanceCreateInfo) -> (i32, u64);
    fn enumerate_instance_extension_properties(&self, buf: &mut Vec<ExtensionProperties>) -> (
        i32,
        u32,
    );
    fn destroy_instance(&self, instance: u64) -> i32;
    fn set_debug_utils_object_name(
        &self,
        instance: u64,
        object_type: i32,
        object_handle: u64,
        name: &str,
    ) -> i32;
    fn destroy_session(&self, session: u64) -> i32;
    fn begin_session(&self, session: u64, view_configuration_type: i32) -> i32;
    fn request_exit_session(&self, session: u64) -> i32;
    fn end_session(&self, session: u64) -> i32;
    fn get_reference_space_bounds_rect(&self, session: u64, ty: i32) -> (i32, Self::Extent2Df);
    fn enumerate_reference_spaces(&self, session: u64, buf: &mut Vec<i32>) -> (i32, u32);
    fn create_reference_space(&self, session: u64, ty: i32, pose: Self::Posef) -> (i32, u64);
    fn destroy_space(&self, space: u64) -> i32;
    fn enumerate_swapchain_formats(&self, session: u64, buf: &mut Vec<i64>) -> (i32, u32);
    fn create_swapchain(&self, session: u64, info: &RawSwapchainCreateInfo) -> (i32, u64);
    fn destroy_swapchain(&self, swapchain: u64) -> i32;
    /// The "typed, unset" view element each output slot holds before a fill.
    fn unset_view(&self) -> LocatedView<Self::Posef, Self::Fovf>;
    fn locate_views(
        &self,
        session: u64,
        view_configuration_type: i32,
        display_time: i64,
        space: u64,
        view_state_flags: &mut u64,
        buf: &mut Vec<LocatedView<Self::Posef, Self::Fovf>>,
    ) -> (i32, u32);
    fn get_current_interaction_profile(&self, session: u64, top_level_user_path: u64) -> (
        i32,
        u64,
    );
    fn attach_session_action_sets(&self, session: u64, action_sets: &Vec<u64>) -> i32;
    fn sync_actions(&self, session: u64, active_action_sets: &Vec<(u64, u64)>) -> i32;
    fn get_input_source_localized_name(
        &self,
        session: u64,
        source_path: u64,
        which_components: u64,
        buf: &mut Vec<u8>,
    ) -> (i32, u32);
    /// The value each vertex slot holds before a fill.
    fn unset_vertex(&self) -> Self::Vector2f;
    fn get_visibility_mask(
        &self,
        session: u64,
        view_configuration_type: i32,
        view_index: u32,
        visibility_mask_type: i32,
        vertices: &mut Vec<Self::Vector2f>,
        indices: &mut Vec<u32>,
    ) -> (i32, u32, u32);
    fn wait_frame(&self, session: u64) -> (i32, FrameState);
    fn begin_frame(&self, session: u64) -> i32;
    fn end_frame(&self, session: u64, display_time: i64, environment_blend_mode: i32) -> i32;
}

/// Timing of the next frame, as `FrameWaiter::wait` reports it.
#[derive(Clone, Copy, Debug, PartialEq, Eq, Structural)]
pub struct FrameState {
    /// Nanoseconds.
    pub predicted_display_time: i64,
    /// Nanoseconds.
    pub predicted_display_period: i64,
    pub should_render: bool,
}

/// What the runtime receives to create an instance: both names as
/// NUL-padded fixed-capacity fields.
pub struct InstanceCreateInfo {
    pub application_name: Vec<u8>,
    pub application_version: u32,
    pub engine_name: Vec<u8>,
    pub engine_version: u32,
    pub api_version: u64,
    pub enabled_extension_names: Vec<String>,
}

/// One element filled by the extension enumeration: a NUL-terminated name
/// in a fixed field, and the extension's version.
#[derive(Clone, Copy)]
pub struct ExtensionProperties {
    pub extension_name: [u8; 128],
    pub extension_version: u32,
}

/// What the runtime receives to create a swapchain, the format already in
/// the graphics API's native numbering.
#[derive(Clone, Copy, Debug, PartialEq, Eq, Structural)]
pub struct RawSwapchainCreateInfo {
    pub create_flags: u64,
    pub usage_flags: u64,
    pub format: i64,
    pub sample_count: u32,
    pub width: u32,
    pub height: u32,
    pub face_count: u32,
    pub array_size: u32,
    pub mip_count: u32,
}

/// The extensions an instance was created with.
#[derive(Clone, Debug)]
pub struct ExtensionSet {
    pub khr_visibility_mask: bool,
    pub ext_debug_utils: bool,
    pub other: Vec<String>,
}

/// Relies on `Arc::into_inner`: it hands back the shared value exactly when
/// `a` was its last owner.
#[verifier::external_body]
pub(crate) fn arc_into_inner<T>(a: Arc<T>) -> (r: Option<T>)
    ensures
        r matches Some(t) ==> t == *a,
{
    Arc::into_inner(a)
}

/// Relies on `Arc::strong_count`: the number of owners of the shared value,
/// `a` among them.
#[verifier::external_body]
pub(crate) fn arc_owner_count<T>(a: &Arc<T>) -> usize {
    Arc::strong_count(a)
}

/// The runtime's entry points, shared by everything created through them.
pub struct Entry<R: Runtime> {
    pub inner: Arc<R>,
}

impl<R: Runtime> Entry<R> {
    /// Wraps a table of entry points.
    pub fn new(runtime: R) -> (r: Self)
        ensures
            *r.inner == runtime,
    {
        Entry { inner: Arc::new(runtime) }
    }

    /// The raw entry points.
    pub fn fp(&self) -> (r: &R)
        ensures
            *r == *self.inner,
    {
        &*self.inner
    }

    /// Another owner of the same entry points.
    pub fn clone(&self) -> (r: Self)
        ensures
            r.inner == self.inner,
    {
        Entry { inner: self.inner.clone() }
    }
}

pub struct InstanceInner<R: Runtime> {
    pub entry: Entry<R>,
    pub handle: u64,
    pub exts: ExtensionSet,
}

/// An instance of the runtime, shared by every session and object created
/// from it. Its native handle is destroyed once, by the `release` of its
/// last owner.
pub struct Instance<R: Runtime> {
    pub inner: Arc<InstanceInner<R>>,
}

impl<R: Runtime> Instance<R> {
    /// Takes ownership of a native instance handle created through `entry`
    /// with the extensions `exts`.
    pub fn from_raw(entry: Entry<R>, handle: u64, exts: ExtensionSet) -> (r: Self)
        ensures
            r.inner.handle == handle,
            r.inner.entry.inner == entry.inner,
            r.inner.exts == exts,
    {
        Instance { inner: Arc::new(InstanceInner { entry, handle, exts }) }
    }

    /// The native handle.
    pub fn as_raw(&self) -> (r: u64)
        ensures
            r == self.inner.handle,
    {
        self.inner.handle
    }

    /// The entry points this instance was created through.
    pub fn entry(&self) -> (r: &Entry<R>)
        ensures
            r.inner == self.inner.entry.inner,
    {
        &self.inner.entry
    }

    /// The raw entry points.
    pub fn fp(&self) -> (r: &R)
        ensures
            *r == *self.inner.entry.inner,
    {
        &*self.inner.entry.inner
    }

    /// The extensions the instance was created with.
    pub fn exts(&self) -> (r: &ExtensionSet)
        ensures
            *r == self.inner.exts,
    {
        &self.inner.exts
    }

    /// Another owner of the same instance.
    pub fn clone(&self) -> (r: Self)
        ensures
            r.inner == self.inner,
    {
        Instance { inner: self.inner.clone() }
    }

    /// How many owners the instance has: this one, its clones, and every
    /// session created from it.
    pub fn owner_count(&self) -> usize {
        arc_owner_count(&self.inner)
    }

    /// Gives up this owner. The last owner destroys the native instance and
    /// returns `true`; any other returns `false` and calls nothing.
    pub fn release(self) -> (r: bool) {
        match arc_into_inner(self.inner) {
            Some(inner) => {
                let _ = inner.entry.fp().destroy_instance(inner.handle);
                true
            },
            None => false,
        }
    }

    /// Names a native object for debugging tools. Without the debug-utils
    /// extension this fails with `ExtensionNotEnabled` and calls nothing.
    pub fn set_name_raw(&self, object_type: i32, object_handle: u64, name: &str) -> (r: Result<
        (),
        Error,
    >)
        ensures
            !self.inner.exts.ext_debug_utils ==> r == Err::<(), Error>(Error::ExtensionNotEnabled),
            r matches Err(e) ==> ((e == Error::ExtensionNotEnabled
                && !self.inner.exts.ext_debug_utils) || (e matches Error::Runtime(code)
                && !is_success(code))),
    {
        if !self.inner.exts.ext_debug_utils {
            return Err(Error::ExtensionNotEnabled);
        }
        let status = self.fp().set_debug_utils_object_name(
            self.inner.handle,
            object_type,
            object_handle,
            name,
        );
        cvt(status)?;
        Ok(())
    }
}

} // verus!
