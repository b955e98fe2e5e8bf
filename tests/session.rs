use std::cell::{Cell, RefCell};

use openxr::entry::{
    instance_create_info, required_symbols, same_text, ApplicationInfo, LoadError, CURRENT_API_VERSION,
    EXT_DEBUG_UTILS, KHR_VISIBILITY_MASK,
};
use openxr::instance::{
    Entry, ExtensionProperties, ExtensionSet, FrameState, Instance, InstanceCreateInfo,
    RawSwapchainCreateInfo, Runtime,
};
use openxr::session::{
    finish_mask, action_set_handles, active_pairs, bounds_from_status, lower_swapchain_info, next_mask_step,
    raise_formats, ActionSet, ActiveActionSet, LocatedView, MaskStep, OpenGl, Session,
    SwapchainCreateInfo,
};
use openxr::status::{
    status_value, Error, ERROR_CALL_ORDER_INVALID, ERROR_SESSION_NOT_STOPPING, ERROR_SIZE_INSUFFICIENT,
    SPACE_BOUNDS_UNAVAILABLE, SUCCESS,
};

const SESSION: u64 = 0x51;
const INSTANCE: u64 = 0x11;
const IDLE: u8 = 1;
const STOPPING: u8 = 6;

/// A runtime that follows the session and frame ordering rules and records
/// every call.
struct Mock {
    log: RefCell<Vec<String>>,
    state: Cell<u8>,
    waited: Cell<bool>,
    mesh: (u32, u32),
    mesh_growth: Cell<u32>,
    created: RefCell<Option<InstanceCreateInfo>>,
    extensions: Vec<&'static str>,
    script: RefCell<Vec<(i32, u32)>>,
    capacities: RefCell<Vec<usize>>,
    name: Vec<u8>,
    shrink: Cell<bool>,
}

impl Mock {
    fn new() -> Self {
        Mock {
            log: RefCell::new(Vec::new()),
            state: Cell::new(IDLE),
            waited: Cell::new(false),
            mesh: (4, 6),
            mesh_growth: Cell::new(0),
            created: RefCell::new(None),
            extensions: vec!["XR_KHR_visibility_mask", "XR_EXT_foo"],
            script: RefCell::new(Vec::new()),
            capacities: RefCell::new(Vec::new()),
            name: b"Trigger\0".to_vec(),
            shrink: Cell::new(false),
        }
    }

    fn note(&self, s: &str) {
        self.log.borrow_mut().push(s.to_string());
    }

    fn calls(&self, name: &str) -> usize {
        self.log.borrow().iter().filter(|s| s.as_str() == name).count()
    }
}

impl Runtime for Mock {
    type Posef = [f32; 7];
    type Fovf = [f32; 4];
    type Extent2Df = (f32, f32);
    type Vector2f = (f32, f32);

    fn create_instance(&self, info: &InstanceCreateInfo) -> (i32, u64) {
        self.note("create_instance");
        *self.created.borrow_mut() = Some(InstanceCreateInfo {
            application_name: info.application_name.clone(),
            application_version: info.application_version,
            engine_name: info.engine_name.clone(),
            engine_version: info.engine_version,
            api_version: info.api_version,
            enabled_extension_names: info.enabled_extension_names.clone(),
        });
        (SUCCESS, INSTANCE)
    }
    fn enumerate_instance_extension_properties(&self, buf: &mut Vec<ExtensionProperties>) -> (i32, u32) {
        let n = self.extensions.len();
        if buf.is_empty() {
            return (SUCCESS, n as u32);
        }
        for (slot, name) in buf.iter_mut().zip(self.extensions.iter()) {
            slot.extension_name[..name.len()].copy_from_slice(name.as_bytes());
            slot.extension_version = 1;
        }
        (SUCCESS, n as u32)
    }
    fn destroy_instance(&self, _instance: u64) -> i32 {
        self.note("destroy_instance");
        SUCCESS
    }
    fn set_debug_utils_object_name(&self, _i: u64, _t: i32, _h: u64, _n: &str) -> i32 {
        self.note("set_name");
        SUCCESS
    }
    fn destroy_session(&self, _session: u64) -> i32 {
        self.note("destroy_session");
        SUCCESS
    }
    fn begin_session(&self, _session: u64, _ty: i32) -> i32 {
        SUCCESS
    }
    fn request_exit_session(&self, _session: u64) -> i32 {
        self.state.set(STOPPING);
        SUCCESS
    }
    fn end_session(&self, _session: u64) -> i32 {
        if self.state.get() == STOPPING {
            SUCCESS
        } else {
            ERROR_SESSION_NOT_STOPPING
        }
    }
    fn get_reference_space_bounds_rect(&self, _session: u64, ty: i32) -> (i32, (f32, f32)) {
        if ty == 3 {
            (SUCCESS, (2.0, 3.0))
        } else {
            (SPACE_BOUNDS_UNAVAILABLE, (0.0, 0.0))
        }
    }
    fn enumerate_reference_spaces(&self, _session: u64, buf: &mut Vec<i32>) -> (i32, u32) {
        self.capacities.borrow_mut().push(buf.len());
        let mut script = self.script.borrow_mut();
        if !script.is_empty() {
            let (status, count) = script.remove(0);
            if status >= 0 {
                for (i, x) in buf.iter_mut().enumerate() {
                    *x = 7 + i as i32;
                }
            }
            return (status, count);
        }
        if buf.len() >= 2 {
            buf[0] = 1;
            buf[1] = 2;
        }
        (SUCCESS, 2)
    }
    fn create_reference_space(&self, _session: u64, _ty: i32, _pose: [f32; 7]) -> (i32, u64) {
        (SUCCESS, 0x5a)
    }
    fn destroy_space(&self, _space: u64) -> i32 {
        self.note("destroy_space");
        SUCCESS
    }
    fn enumerate_swapchain_formats(&self, _session: u64, buf: &mut Vec<i64>) -> (i32, u32) {
        if self.shrink.get() && !buf.is_empty() {
            buf.clear();
            return (SUCCESS, 2);
        }
        if buf.len() >= 2 {
            buf[0] = 0x8c43;
            buf[1] = 0x8058;
        }
        (SUCCESS, 2)
    }
    fn create_swapchain(&self, _session: u64, info: &RawSwapchainCreateInfo) -> (i32, u64) {
        if info.format == 0x8c43 {
            (SUCCESS, 0x5c)
        } else {
            (-8, 0)
        }
    }
    fn destroy_swapchain(&self, _swapchain: u64) -> i32 {
        self.note("destroy_swapchain");
        SUCCESS
    }
    fn unset_view(&self) -> LocatedView<[f32; 7], [f32; 4]> {
        LocatedView { pose: [0.0; 7], fov: [0.0; 4] }
    }
    fn locate_views(
        &self,
        _session: u64,
        _vct: i32,
        _time: i64,
        _space: u64,
        flags: &mut u64,
        buf: &mut Vec<LocatedView<[f32; 7], [f32; 4]>>,
    ) -> (i32, u32) {
        *flags = 0xf;
        for (i, v) in buf.iter_mut().enumerate() {
            v.fov = [i as f32; 4];
        }
        (SUCCESS, 2)
    }
    fn get_current_interaction_profile(&self, _session: u64, _path: u64) -> (i32, u64) {
        (SUCCESS, 77)
    }
    fn attach_session_action_sets(&self, _session: u64, sets: &Vec<u64>) -> i32 {
        self.note(&format!("attach {:?}", sets));
        SUCCESS
    }
    fn sync_actions(&self, _session: u64, sets: &Vec<(u64, u64)>) -> i32 {
        self.note(&format!("sync {:?}", sets));
        SUCCESS
    }
    fn get_input_source_localized_name(&self, _s: u64, _p: u64, _w: u64, buf: &mut Vec<u8>) -> (i32, u32) {
        let text = &self.name;
        if buf.is_empty() {
            return (SUCCESS, text.len() as u32);
        }
        if buf.len() < text.len() {
            return (ERROR_SIZE_INSUFFICIENT, text.len() as u32);
        }
        buf[..text.len()].copy_from_slice(text);
        (SUCCESS, text.len() as u32)
    }
    fn unset_vertex(&self) -> (f32, f32) {
        (-1.0, -1.0)
    }
    fn get_visibility_mask(
        &self,
        _session: u64,
        _vct: i32,
        _view_index: u32,
        _ty: i32,
        vertices: &mut Vec<(f32, f32)>,
        indices: &mut Vec<u32>,
    ) -> (i32, u32, u32) {
        let grow = self.mesh_growth.get();
        let (v, i) = (self.mesh.0 + grow, self.mesh.1 + grow);
        if !vertices.is_empty() && self.mesh_growth.get() == 0 {
            // the mesh changes once between the size query and the fill
            self.mesh_growth.set(1);
            return (ERROR_SIZE_INSUFFICIENT, v + 1, i + 1);
        }
        if vertices.len() < v as usize || indices.len() < i as usize {
            return (if vertices.is_empty() { SUCCESS } else { ERROR_SIZE_INSUFFICIENT }, v, i);
        }
        for (k, x) in indices.iter_mut().enumerate() {
            *x = k as u32;
        }
        (SUCCESS, v, i)
    }
    fn wait_frame(&self, _session: u64) -> (i32, FrameState) {
        let blank = FrameState { predicted_display_time: 0, predicted_display_period: 0, should_render: false };
        if self.waited.get() {
            return (ERROR_CALL_ORDER_INVALID, blank);
        }
        self.waited.set(true);
        (SUCCESS, FrameState { predicted_display_time: 1000, predicted_display_period: 11, should_render: true })
    }
    fn begin_frame(&self, _session: u64) -> i32 {
        SUCCESS
    }
    fn end_frame(&self, _session: u64, _time: i64, _mode: i32) -> i32 {
        self.waited.set(false);
        SUCCESS
    }
}

fn all_exts() -> ExtensionSet {
    let mut e = ExtensionSet::new();
    e.insert(KHR_VISIBILITY_MASK);
    e.insert(EXT_DEBUG_UTILS);
    e
}

fn setup(exts: ExtensionSet) -> (Entry<Mock>, Instance<Mock>) {
    let entry = Entry::new(Mock::new());
    let app = ApplicationInfo { application_name: "demo", application_version: 1, engine_name: "", engine_version: 0 };
    let instance = entry.create_instance(&app, &exts).unwrap();
    (entry, instance)
}

#[test]
fn create_instance_encodes_names() {
    let (entry, instance) = setup(all_exts());
    assert_eq!(instance.as_raw(), INSTANCE);
    let created = entry.fp().created.borrow();
    let info = created.as_ref().unwrap();
    assert_eq!(info.application_name.len(), 128);
    assert_eq!(&info.application_name[..5], b"demo\0");
    assert_eq!(info.engine_name, vec![0u8; 128]);
    assert_eq!(info.enabled_extension_names, vec!["XR_KHR_visibility_mask".to_string(), "XR_EXT_debug_utils".to_string()]);
}

#[test]
fn too_long_name_makes_no_native_call() {
    let entry = Entry::new(Mock::new());
    let long = "x".repeat(128);
    let app = ApplicationInfo { application_name: &long, application_version: 1, engine_name: "e", engine_version: 0 };
    assert!(matches!(entry.create_instance(&app, &ExtensionSet::new()), Err(Error::NameTooLong)));
    assert_eq!(entry.fp().calls("create_instance"), 0);
    let fits = "x".repeat(127);
    let app = ApplicationInfo { application_name: &fits, application_version: 1, engine_name: "e", engine_version: 0 };
    assert!(entry.create_instance(&app, &ExtensionSet::new()).is_ok());
}

#[test]
fn enumerate_extensions_reads_names() {
    let entry = Entry::new(Mock::new());
    let set = entry.enumerate_extensions().unwrap();
    assert!(set.khr_visibility_mask);
    assert!(!set.ext_debug_utils);
    assert_eq!(set.other, vec!["XR_EXT_foo".to_string()]);
    assert_eq!(set.names(), vec!["XR_KHR_visibility_mask".to_string(), "XR_EXT_foo".to_string()]);
}

#[test]
fn end_from_idle_is_rejected_and_session_stays_valid() {
    let (_entry, instance) = setup(all_exts());
    let (session, waiter, stream) = Session::<OpenGl, Mock>::from_raw(instance.clone(), SESSION);
    assert_eq!(session.end(), Err(Error::Runtime(ERROR_SESSION_NOT_STOPPING)));
    assert_eq!(session.as_raw(), SESSION);
    assert_eq!(session.request_exit(), Ok(()));
    assert_eq!(session.end(), Ok(SUCCESS));
    assert!(!waiter.release());
    assert!(!stream.release());
    assert!(session.release());
    assert_eq!(instance.fp().calls("destroy_session"), 1);
}

#[test]
fn instance_outlives_its_sessions() {
    let (_entry, instance) = setup(all_exts());
    let keep = instance.clone();
    assert_eq!(instance.owner_count(), 2);
    let (session, waiter, stream) = Session::<OpenGl, Mock>::from_raw(instance.clone(), SESSION);
    assert_eq!(keep.owner_count(), 3);
    assert!(!instance.release());
    assert_eq!(keep.owner_count(), 2);
    assert!(!session.release());
    assert!(!stream.release());
    assert_eq!(keep.fp().calls("destroy_instance"), 0);
    assert!(waiter.release());
    assert_eq!(keep.owner_count(), 1);
    assert_eq!(keep.fp().calls("destroy_session"), 1);
    assert_eq!(keep.fp().calls("destroy_instance"), 0);
    let log = keep.clone();
    assert!(!log.release());
    assert!(keep.release());
}

#[test]
fn second_wait_without_frame_is_an_ordering_error() {
    let (_entry, instance) = setup(all_exts());
    let (_session, mut waiter, mut stream) = Session::<OpenGl, Mock>::from_raw(instance, SESSION);
    let first = waiter.wait().unwrap();
    assert_eq!(first, FrameState { predicted_display_time: 1000, predicted_display_period: 11, should_render: true });
    assert_eq!(waiter.wait(), Err(Error::Runtime(ERROR_CALL_ORDER_INVALID)));
    assert_eq!(stream.begin(), Ok(SUCCESS));
    assert_eq!(stream.end(first.predicted_display_time, 1), Ok(()));
    assert!(waiter.wait().is_ok());
}

#[test]
fn bounds_follow_the_status() {
    assert_eq!(bounds_from_status(SUCCESS, 5u8), Ok(Some(5)));
    assert_eq!(bounds_from_status(SPACE_BOUNDS_UNAVAILABLE, 5u8), Ok(None));
    assert_eq!(bounds_from_status(-31, 5u8), Err(Error::Runtime(-31)));
    let (_entry, instance) = setup(all_exts());
    let (session, _w, _s) = Session::<OpenGl, Mock>::from_raw(instance, SESSION);
    assert_eq!(session.reference_space_bounds_rect(3), Ok(Some((2.0, 3.0))));
    assert_eq!(session.reference_space_bounds_rect(1), Ok(None));
}

#[test]
fn session_queries() {
    let (_entry, instance) = setup(all_exts());
    let (mut session, _w, _s) = Session::<OpenGl, Mock>::from_raw(instance, SESSION);
    assert_eq!(session.enumerate_reference_spaces(), Ok(vec![1, 2]));
    assert_eq!(session.enumerate_swapchain_formats(), Ok(vec![0x8c43u32, 0x8058]));
    assert_eq!(session.current_interaction_profile(5), Ok(77));
    assert_eq!(session.input_source_localized_name(1, 2), Ok("Trigger".to_string()));
    assert_eq!(session.begin(1), Ok(SUCCESS));
    assert_eq!(session.set_name("main"), Ok(()));
    assert_eq!(session.instance().fp().calls("set_name"), 1);
    let space = session.create_reference_space(1, [0.0; 7]).unwrap();
    let (flags, views) = session.locate_views(2, 1000, &space).unwrap();
    assert_eq!(flags, 0xf);
    assert_eq!(views.len(), 2);
    assert_eq!(views[1].fov, [1.0; 4]);
    assert!(!space.release());
}

#[test]
fn set_name_without_debug_utils_fails_clearly() {
    let (_entry, instance) = setup(ExtensionSet::new());
    let (mut session, _w, _s) = Session::<OpenGl, Mock>::from_raw(instance, SESSION);
    assert_eq!(session.set_name("main"), Err(Error::ExtensionNotEnabled));
    assert_eq!(session.instance().fp().calls("set_name"), 0);
}

#[test]
fn swapchain_format_is_lowered() {
    let info = SwapchainCreateInfo::<OpenGl> {
        create_flags: 0, usage_flags: 1, format: 0x8c43, sample_count: 1, width: 64, height: 32,
        face_count: 1, array_size: 1, mip_count: 1,
    };
    let raw = lower_swapchain_info(&info);
    assert_eq!(raw.format, 0x8c43);
    assert_eq!((raw.width, raw.height, raw.usage_flags), (64, 32, 1));
    let (_entry, instance) = setup(all_exts());
    let (session, _w, _s) = Session::<OpenGl, Mock>::from_raw(instance, SESSION);
    let sc = session.create_swapchain(&info).unwrap();
    assert_eq!(sc.as_raw(), 0x5c);
    assert!(!sc.release());
    let bad = SwapchainCreateInfo::<OpenGl> { format: 1, ..info };
    assert!(matches!(session.create_swapchain(&bad), Err(Error::Runtime(-8))));
}

#[test]
fn action_sets_are_passed_through() {
    let (_entry, instance) = setup(all_exts());
    let (session, _w, _s) = Session::<OpenGl, Mock>::from_raw(instance.clone(), SESSION);
    let a = ActionSet::from_raw(instance.clone(), 0xa1);
    let b = ActionSet::from_raw(instance.clone(), 0xa2);
    assert_eq!(session.attach_action_sets(&vec![&a, &b]), Ok(()));
    let active = vec![ActiveActionSet::new(&a), ActiveActionSet::with_subaction(&b, 9)];
    assert_eq!((active[0].action_set(), active[0].subaction_path()), (0xa1, 0));
    assert_eq!(active_pairs(&active), vec![(0xa1, 0), (0xa2, 9)]);
    assert_eq!(action_set_handles(&vec![&b, &a]), vec![0xa2, 0xa1]);
    assert_eq!(session.sync_actions(&active), Ok(()));
    assert_eq!(instance.fp().calls("attach [161, 162]"), 1);
    assert_eq!(instance.fp().calls("sync [(161, 0), (162, 9)]"), 1);
}

#[test]
fn mask_step_decisions() {
    assert_eq!(next_mask_step(0, 0, SUCCESS, 4, 6), MaskStep::Grow { vertex_capacity: 4, index_capacity: 6 });
    assert_eq!(next_mask_step(4, 6, ERROR_SIZE_INSUFFICIENT, 5, 2), MaskStep::Grow { vertex_capacity: 5, index_capacity: 6 });
    assert_eq!(next_mask_step(4, 6, ERROR_SIZE_INSUFFICIENT, 4, 6), MaskStep::Fail { code: ERROR_SIZE_INSUFFICIENT });
    assert_eq!(next_mask_step(4, 6, SUCCESS, 3, 6), MaskStep::Done { vertex_count: 3, index_count: 6 });
    assert_eq!(next_mask_step(4, 6, -1, 3, 6), MaskStep::Fail { code: -1 });
}

#[test]
fn visibility_mask_grows_when_the_mesh_changes() {
    let (_entry, instance) = setup(all_exts());
    let (session, _w, _s) = Session::<OpenGl, Mock>::from_raw(instance, SESSION);
    let mask = session.get_visibility_mask_khr(2, 0, 1).unwrap();
    assert_eq!(mask.vertices.len(), 5);
    assert_eq!(mask.indices, vec![0, 1, 2, 3, 4, 5, 6]);
}

#[test]
fn visibility_mask_needs_its_extension() {
    let (_entry, instance) = setup(ExtensionSet::new());
    let (session, _w, _s) = Session::<OpenGl, Mock>::from_raw(instance, SESSION);
    assert!(matches!(session.get_visibility_mask_khr(2, 0, 1), Err(Error::ExtensionNotEnabled)));
}

#[test]
fn entry_symbols_and_text() {
    assert_eq!(
        required_symbols(),
        vec!["xrGetInstanceProcAddr", "xrCreateInstance", "xrEnumerateInstanceExtensionProperties", "xrEnumerateApiLayerProperties"]
    );
    assert!(same_text("abc", "abc"));
    assert!(!same_text("abc", "abd"));
    assert!(!same_text("abc", "ab"));
    let e = LoadError("no such library".to_string());
    assert_eq!(e.message(), "no such library");
}

#[test]
fn status_value_keeps_value_or_code() {
    assert_eq!(status_value(0, 42u64), Ok(42));
    assert_eq!(status_value(3, 42u64), Ok(42));
    assert_eq!(status_value(-12, 42u64), Err(Error::Runtime(-12)));
}

#[test]
fn formats_are_raised_in_order() {
    assert_eq!(raise_formats::<OpenGl>(&vec![0x8c43, 0x8058]), vec![0x8c43u32, 0x8058]);
    assert_eq!(raise_formats::<OpenGl>(&vec![]), Vec::<u32>::new());
}

#[test]
fn create_info_holds_padded_names_and_extensions() {
    let app = ApplicationInfo { application_name: "ab", application_version: 3, engine_name: "e", engine_version: 4 };
    let info = instance_create_info(&app, &all_exts()).unwrap();
    assert_eq!(info.application_name.len(), 128);
    assert_eq!(&info.application_name[..3], b"ab\0");
    assert_eq!(&info.engine_name[..2], b"e\0");
    assert_eq!((info.application_version, info.engine_version, info.api_version), (3, 4, CURRENT_API_VERSION));
    assert_eq!(info.enabled_extension_names, vec![KHR_VISIBILITY_MASK.to_string(), EXT_DEBUG_UTILS.to_string()]);
    let long = "é".repeat(64);
    let bad = ApplicationInfo { application_name: "a", application_version: 0, engine_name: &long, engine_version: 0 };
    assert!(matches!(instance_create_info(&bad, &all_exts()), Err(Error::NameTooLong)));
}

#[test]
fn malformed_extension_name_is_a_local_error() {
    let mut name = [0u8; 128];
    name[0] = 0xff;
    let props = vec![ExtensionProperties { extension_name: name, extension_version: 1 }];
    assert!(matches!(ExtensionSet::from_properties(&props), Err(Error::MalformedText)));
    let mut ok = [0u8; 128];
    ok[..18].copy_from_slice(b"XR_EXT_debug_utils");
    let set = ExtensionSet::from_properties(&vec![ExtensionProperties { extension_name: ok, extension_version: 1 }]).unwrap();
    assert!(set.ext_debug_utils && !set.khr_visibility_mask && set.other.is_empty());
}

fn session_with(mock: Mock) -> Session<OpenGl, Mock> {
    let entry = Entry::new(mock);
    let app = ApplicationInfo { application_name: "demo", application_version: 1, engine_name: "", engine_version: 0 };
    let instance = entry.create_instance(&app, &all_exts()).unwrap();
    Session::<OpenGl, Mock>::from_raw(instance, SESSION).0
}

#[test]
fn retry_uses_exactly_the_reported_size() {
    let mock = Mock::new();
    *mock.script.borrow_mut() = vec![(SUCCESS, 3), (ERROR_SIZE_INSUFFICIENT, 5), (SUCCESS, 5)];
    let session = session_with(mock);
    assert_eq!(session.enumerate_reference_spaces(), Ok(vec![7, 8, 9, 10, 11]));
    assert_eq!(*session.instance().fp().capacities.borrow(), vec![0, 3, 5]);
}

#[test]
fn retry_stops_on_a_count_that_does_not_grow() {
    let mock = Mock::new();
    *mock.script.borrow_mut() = vec![(SUCCESS, 4), (ERROR_SIZE_INSUFFICIENT, 4)];
    let session = session_with(mock);
    assert_eq!(session.enumerate_reference_spaces(), Err(Error::Runtime(ERROR_SIZE_INSUFFICIENT)));
    assert_eq!(*session.instance().fp().capacities.borrow(), vec![0, 4]);
}

#[test]
fn fill_may_report_fewer_elements() {
    let mock = Mock::new();
    *mock.script.borrow_mut() = vec![(SUCCESS, 4), (SUCCESS, 2)];
    let session = session_with(mock);
    assert_eq!(session.enumerate_reference_spaces(), Ok(vec![7, 8]));
}

#[test]
fn zero_count_gives_empty_result() {
    let mock = Mock::new();
    *mock.script.borrow_mut() = vec![(SUCCESS, 0)];
    let session = session_with(mock);
    assert_eq!(session.enumerate_reference_spaces(), Ok(vec![]));
    assert_eq!(*session.instance().fp().capacities.borrow(), vec![0]);
}

#[test]
fn probe_failure_is_forwarded() {
    let mock = Mock::new();
    *mock.script.borrow_mut() = vec![(ERROR_CALL_ORDER_INVALID, 0)];
    let session = session_with(mock);
    assert_eq!(session.enumerate_reference_spaces(), Err(Error::Runtime(ERROR_CALL_ORDER_INVALID)));
}

#[test]
fn a_buffer_the_call_shrank_is_a_local_error() {
    let mock = Mock::new();
    mock.shrink.set(true);
    let session = session_with(mock);
    assert_eq!(session.enumerate_swapchain_formats(), Err(Error::InvalidCount));
}

#[test]
fn localized_name_text_and_errors() {
    let mut mock = Mock::new();
    mock.name = b"Left Hand\0junk".to_vec();
    let session = session_with(mock);
    assert_eq!(session.input_source_localized_name(1, 2), Ok("Left Hand".to_string()));
    let mut empty = Mock::new();
    empty.name = Vec::new();
    assert_eq!(session_with(empty).input_source_localized_name(1, 2), Ok(String::new()));
    let mut bad = Mock::new();
    bad.name = vec![0xff, 0xfe, 0];
    assert_eq!(session_with(bad).input_source_localized_name(1, 2), Err(Error::MalformedText));
}

#[test]
fn finish_mask_keeps_the_reported_prefixes() {
    let m = finish_mask(vec![1u8, 2, 3], vec![4, 5, 6], 2, 1).unwrap();
    assert_eq!((m.vertices, m.indices), (vec![1, 2], vec![4]));
    assert!(matches!(finish_mask(vec![1u8], vec![4, 5], 2, 1), Err(Error::InvalidCount)));
    assert!(matches!(finish_mask(vec![1u8], vec![4, 5], 1, 3), Err(Error::InvalidCount)));
}
