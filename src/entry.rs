use vstd::prelude::*;
use vstd::string::*;
use vstd::utf8::*;

use crate::instance::{
    Entry, ExtensionProperties, ExtensionSet, Instance, InstanceCreateInfo, Runtime,
};
use crate::query::{get_arr_init, query_outcome, seq_outcome, CapacityCall, Exchange};
use crate::status::{is_success, status_value, Error};
use crate::text::{c_text, encode_fixed, fixed_field, nul_free, text_from_buffer, MAX_APPLICATION_NAME_SIZE, MAX_ENGINE_NAME_SIZE};

verus! {

/// Symbol of the entry point that resolves every other function.
pub const GET_INSTANCE_PROC_ADDR: &'static str = "xrGetInstanceProcAddr";
/// Symbol of the instance-creation entry point.
pub const CREATE_INSTANCE: &'static str = "xrCreateInstance";
/// Symbol of the extension-enumeration entry point.
pub const ENUMERATE_INSTANCE_EXTENSION_PROPERTIES: &'static str = "xrEnumerateInstanceExtensionProperties";
/// Symbol of the API-layer-enumeration entry point.
pub const ENUMERATE_API_LAYER_PROPERTIES: &'static str = "xrEnumerateApiLayerProperties";
/// Default name of the loader library.
pub const DEFAULT_LOADER_NAME: &'static str = "openxr_loader";

/// Name of the visibility-mask extension.
pub const KHR_VISIBILITY_MASK: &'static str = "XR_KHR_visibility_mask";
/// Name of the debug-utils extension.
pub const EXT_DEBUG_UTILS: &'static str = "XR_EXT_debug_utils";

/// API version requested at instance creation: major 1, minor 0, patch 0,
/// packed as major << 48 | minor << 32 | patch.
pub const CURRENT_API_VERSION: u64 = 0x0001_0000_0000_0000;

/// Describes the application to the runtime.
#[derive(Clone, Copy, Debug, PartialEq, Eq)]
pub struct ApplicationInfo<'a> {
    pub application_name: &'a str,
    pub application_version: u32,
    pub engine_name: &'a str,
    pub engine_version: u32,
}

/// Why the entry points could not be loaded from a dynamic library: the
/// library or the symbol at fault, in words.
#[derive(Clone, Debug)]
pub struct LoadError(pub String);

impl LoadError {
    /// The description of the failure.
    pub fn message(&self) -> (r: &String)
        ensures
            r@ == self.0@,
    {
        &self.0
    }
}

/// The four entry points a loader library must export, in the order they
/// are resolved.
pub fn required_symbols() -> (r: Vec<&'static str>)
    ensures
        r@.len() == 4,
        r@[0]@ == GET_INSTANCE_PROC_ADDR@,
        r@[1]@ == CREATE_INSTANCE@,
        r@[2]@ == ENUMERATE_INSTANCE_EXTENSION_PROPERTIES@,
        r@[3]@ == ENUMERATE_API_LAYER_PROPERTIES@,
{
    vec![
        GET_INSTANCE_PROC_ADDR,
        CREATE_INSTANCE,
        ENUMERATE_INSTANCE_EXTENSION_PROPERTIES,
        ENUMERATE_API_LAYER_PROPERTIES,
    ]
}

/// Whether two strings hold the same characters, compared byte by byte.
pub fn same_text(a: &str, b: &str) -> (r: bool)
    ensures
        r == (a@ == b@),
{
    broadcast use encode_utf8_decode_utf8, encode_utf8_valid_utf8;

    let x = a.as_bytes_vec();
    let y = b.as_bytes_vec();
    if x.len() != y.len() {
        return false;
    }
    let mut i: usize = 0;
    while i < x.len()
        invariant
            x@ == a.spec_bytes(),
            y@ == b.spec_bytes(),
            x.len() == y.len(),
            i <= x.len(),
            forall|j: int| 0 <= j < i ==> x@[j] == y@[j],
        decreases x.len() - i,
    {
        if x[i] != y[i] {
            return false;
        }
        i = i + 1;
    }
    assert(x@ =~= y@);
    assert(decode_utf8(encode_utf8(a@)) == decode_utf8(encode_utf8(b@)));
    true
}

/// The characters of each string.
pub open spec fn view_names(v: Seq<String>) -> Seq<Seq<char>> {
    v.map_values(|s: String| s@)
}

/// The names of the extensions in a set: the known ones first, then the
/// others in order.
pub open spec fn set_names(s: &ExtensionSet) -> Seq<Seq<char>> {
    (if s.khr_visibility_mask {
        seq![KHR_VISIBILITY_MASK@]
    } else {
        Seq::empty()
    }) + (if s.ext_debug_utils {
        seq![EXT_DEBUG_UTILS@]
    } else {
        Seq::empty()
    }) + view_names(s.other@)
}

/// The text of an enumerated extension's name field.
pub open spec fn prop_name(p: ExtensionProperties) -> Seq<char> {
    decode_utf8(c_text(p.extension_name@))
}

/// Every enumerated name field holds valid UTF-8 text.
pub open spec fn all_names_valid(props: Seq<ExtensionProperties>) -> bool {
    forall|i: int| 0 <= i < props.len() ==> valid_utf8(c_text(#[trigger] props[i].extension_name@))
}

/// Some enumerated extension has this name.
pub open spec fn names_contain(props: Seq<ExtensionProperties>, name: Seq<char>) -> bool {
    exists|i: int| 0 <= i < props.len() && #[trigger] prop_name(props[i]) == name
}

/// The names that are neither of the two known extensions, in order.
pub open spec fn other_names(props: Seq<ExtensionProperties>) -> Seq<Seq<char>>
    decreases props.len(),
{
    if props.len() == 0 {
        Seq::empty()
    } else {
        let n = prop_name(props.last());
        if n == KHR_VISIBILITY_MASK@ || n == EXT_DEBUG_UTILS@ {
            other_names(props.drop_last())
        } else {
            other_names(props.drop_last()).push(n)
        }
    }
}

/// The set that enumerated properties describe, or `MalformedText` when a
/// name is not valid UTF-8.
pub open spec fn props_outcome(props: Seq<ExtensionProperties>, r: Result<ExtensionSet, Error>) -> bool {
    if all_names_valid(props) {
        r matches Ok(s) && s.khr_visibility_mask == names_contain(props, KHR_VISIBILITY_MASK@)
            && s.ext_debug_utils == names_contain(props, EXT_DEBUG_UTILS@) && view_names(s.other@)
            == other_names(props)
    } else {
        r == Err::<ExtensionSet, Error>(Error::MalformedText)
    }
}

/// How many of the extensions known by name a set holds.
pub open spec fn known_count(s: &ExtensionSet) -> nat {
    s.khr_visibility_mask as nat + s.ext_debug_utils as nat
}

impl ExtensionSet {
    /// The empty set.
    pub fn new() -> (r: Self)
        ensures
            !r.khr_visibility_mask,
            !r.ext_debug_utils,
            r.other@.len() == 0,
    {
        ExtensionSet { khr_visibility_mask: false, ext_debug_utils: false, other: Vec::new() }
    }

    /// Adds one extension by name.
    pub fn insert(&mut self, name: &str)
        ensures
            final(self).khr_visibility_mask == (old(self).khr_visibility_mask
                || name@ == KHR_VISIBILITY_MASK@),
            final(self).ext_debug_utils == (old(self).ext_debug_utils || name@ == EXT_DEBUG_UTILS@),
            name@ != KHR_VISIBILITY_MASK@ && name@ != EXT_DEBUG_UTILS@ ==> view_names(
                final(self).other@,
            ) == view_names(old(self).other@).push(name@),
            name@ == KHR_VISIBILITY_MASK@ || name@ == EXT_DEBUG_UTILS@ ==> final(self).other@
                == old(self).other@,
    {
        proof {
            reveal_strlit("XR_KHR_visibility_mask");
            reveal_strlit("XR_EXT_debug_utils");
            assert(KHR_VISIBILITY_MASK@[3] != EXT_DEBUG_UTILS@[3]);
        }
        if same_text(name, KHR_VISIBILITY_MASK) {
            self.khr_visibility_mask = true;
        } else if same_text(name, EXT_DEBUG_UTILS) {
            self.ext_debug_utils = true;
        } else {
            let ghost before = self.other@;
            self.other.push(String::from_str(name));
            assert(view_names(self.other@) =~= view_names(before).push(name@));
        }
    }

    /// A copy of the set.
    pub fn copy(&self) -> (r: Self)
        ensures
            r.khr_visibility_mask == self.khr_visibility_mask,
            r.ext_debug_utils == self.ext_debug_utils,
            r.other@ == self.other@,
    {
        ExtensionSet {
            khr_visibility_mask: self.khr_visibility_mask,
            ext_debug_utils: self.ext_debug_utils,
            other: self.other.clone(),
        }
    }

    /// The names of the extensions in the set: the known ones first, then
    /// the others in the order they were added.
    pub fn names(&self) -> (r: Vec<String>)
        ensures
            view_names(r@) == set_names(self),
    {
        let mut r: Vec<String> = Vec::new();
        if self.khr_visibility_mask {
            r.push(String::from_str(KHR_VISIBILITY_MASK));
        }
        if self.ext_debug_utils {
            r.push(String::from_str(EXT_DEBUG_UTILS));
        }
        let ghost known = view_names(r@);
        assert(known =~= set_names(self).take(known.len() as int));
        let mut i: usize = 0;
        while i < self.other.len()
            invariant
                i <= self.other@.len(),
                known.len() == set_names(self).len() - self.other@.len(),
                view_names(r@) =~= known + view_names(self.other@).take(i as int),
                known =~= set_names(self).take(known.len() as int),
            decreases self.other@.len() - i,
        {
            let ghost before = r@;
            let name = self.other[i].clone();
            r.push(name);
            assert(view_names(r@) =~= view_names(before).push(self.other@[i as int]@));
            assert(view_names(self.other@).take(i + 1) =~= view_names(self.other@).take(
                i as int,
            ).push(self.other@[i as int]@));
            i = i + 1;
        }
        assert(view_names(self.other@).take(self.other@.len() as int) =~= view_names(self.other@));
        r
    }

    /// The set of extensions named by enumerated properties. A name that is
    /// not valid UTF-8 is a local error.
    pub fn from_properties(props: &Vec<ExtensionProperties>) -> (r: Result<Self, Error>)
        ensures
            props_outcome(props@, r),
    {
        let mut set = ExtensionSet::new();
        let mut i: usize = 0;
        while i < props.len()
            invariant
                i <= props.len(),
                all_names_valid(props@.take(i as int)),
                set.khr_visibility_mask == names_contain(props@.take(i as int), KHR_VISIBILITY_MASK@),
                set.ext_debug_utils == names_contain(props@.take(i as int), EXT_DEBUG_UTILS@),
                view_names(set.other@) == other_names(props@.take(i as int)),
            decreases props.len() - i,
        {
            let ghost pre = props@.take(i as int);
            let ghost next = props@.take(i + 1);
            assert(next.drop_last() =~= pre);
            assert(next.last() == props@[i as int]);
            let bytes = field_bytes(&props[i].extension_name);
            assert(bytes@ == props@[i as int].extension_name@);
            match text_from_buffer(bytes) {
                Err(e) => {
                    assert(!all_names_valid(props@)) by {
                        assert(!valid_utf8(c_text(props@[i as int].extension_name@)));
                    }
                    return Err(e);
                },
                Ok(name) => {
                    let ghost n = prop_name(props@[i as int]);
                    assert(name@ == n);
                    set.insert(name.as_str());
                    assert(all_names_valid(next)) by {
                        assert forall|j: int| 0 <= j < next.len() implies valid_utf8(
                            c_text(#[trigger] next[j].extension_name@),
                        ) by {
                            if j < i {
                                assert(next[j] == pre[j]);
                            } else {
                                assert(next[j] == props@[i as int]);
                            }
                        }
                    }
                    assert(names_contain(next, KHR_VISIBILITY_MASK@) == (names_contain(
                        pre,
                        KHR_VISIBILITY_MASK@,
                    ) || n == KHR_VISIBILITY_MASK@)) by {
                        if names_contain(pre, KHR_VISIBILITY_MASK@) {
                            let j = choose|j: int| 0 <= j < pre.len() && #[trigger] prop_name(pre[j])
                                == KHR_VISIBILITY_MASK@;
                            assert(next[j] == pre[j]);
                        }
                        if names_contain(next, KHR_VISIBILITY_MASK@) {
                            let j = choose|j: int| 0 <= j < next.len() && #[trigger] prop_name(
                                next[j],
                            ) == KHR_VISIBILITY_MASK@;
                            if j < i {
                                assert(next[j] == pre[j]);
                            }
                        }
                        if n == KHR_VISIBILITY_MASK@ {
                            assert(prop_name(next[i as int]) == n);
                        }
                    }
                    assert(names_contain(next, EXT_DEBUG_UTILS@) == (names_contain(
                        pre,
                        EXT_DEBUG_UTILS@,
                    ) || n == EXT_DEBUG_UTILS@)) by {
                        if names_contain(pre, EXT_DEBUG_UTILS@) {
                            let j = choose|j: int| 0 <= j < pre.len() && #[trigger] prop_name(pre[j])
                                == EXT_DEBUG_UTILS@;
                            assert(next[j] == pre[j]);
                        }
                        if names_contain(next, EXT_DEBUG_UTILS@) {
                            let j = choose|j: int| 0 <= j < next.len() && #[trigger] prop_name(
                                next[j],
                            ) == EXT_DEBUG_UTILS@;
                            if j < i {
                                assert(next[j] == pre[j]);
                            }
                        }
                        if n == EXT_DEBUG_UTILS@ {
                            assert(prop_name(next[i as int]) == n);
                        }
                    }
                },
            }
            i = i + 1;
        }
        assert(props@.take(props.len() as int) =~= props@);
        Ok(set)
    }
}

/// The bytes of a fixed name field.
pub fn field_bytes(field: &[u8; 128]) -> (r: Vec<u8>)
    ensures
        r@ == field@,
{
    let mut r: Vec<u8> = Vec::new();
    let mut i: usize = 0;
    while i < 128
        invariant
            i <= 128,
            field@.len() == 128,
            r@ == field@.take(i as int),
        decreases 128 - i,
    {
        r.push(field[i]);
        i = i + 1;
        assert(r@ =~= field@.take(i as int));
    }
    assert(r@ =~= field@);
    r
}

struct ExtensionProps<'a, R: Runtime> {
    runtime: &'a R,
    log: Ghost<Seq<Exchange<ExtensionProperties>>>,
}

impl<'a, R: Runtime> CapacityCall<ExtensionProperties> for ExtensionProps<'a, R> {
    closed spec fn exchanges(&self) -> Seq<Exchange<ExtensionProperties>> {
        self.log@
    }

    fn call(&mut self, buf: &mut Vec<ExtensionProperties>) -> (r: (i32, u32)) {
        let ghost handed = buf@;
        let r = self.runtime.enumerate_instance_extension_properties(buf);
        self.log = Ghost(self.log@.push((handed, buf@, r.0, r.1)));
        r
    }
}

/// The set an extension query yields from its raw result: the set the
/// properties describe, or the same failure.
pub open spec fn extensions_outcome(raw: Result<Seq<ExtensionProperties>, Error>, r: Result<
    ExtensionSet,
    Error,
>) -> bool {
    match raw {
        Ok(props) => props_outcome(props, r),
        Err(e) => r == Err::<ExtensionSet, Error>(e),
    }
}

/// A name fits a field of `size` bytes: its UTF-8 bytes hold no NUL and
/// leave room for the terminating one.
pub open spec fn name_fits(s: &str, size: usize) -> bool {
    s.spec_bytes().len() < size && nul_free(s.spec_bytes())
}

/// What the runtime receives to create an instance for `app_info` with
/// the extensions `exts`; a name that leaves no room for its NUL is rejected.
pub fn instance_create_info(app_info: &ApplicationInfo, exts: &ExtensionSet) -> (r: Result<
    InstanceCreateInfo,
    Error,
>)
    ensures
        r is Ok <==> (name_fits(app_info.application_name, MAX_APPLICATION_NAME_SIZE) && name_fits(
            app_info.engine_name,
            MAX_ENGINE_NAME_SIZE,
        )),
        r matches Err(e) ==> e == Error::NameTooLong,
        r matches Ok(info) ==> {
            &&& info.application_name@ == fixed_field(
                app_info.application_name.spec_bytes(),
                MAX_APPLICATION_NAME_SIZE as nat,
            )
            &&& info.engine_name@ == fixed_field(
                app_info.engine_name.spec_bytes(),
                MAX_ENGINE_NAME_SIZE as nat,
            )
            &&& info.application_version == app_info.application_version
            &&& info.engine_version == app_info.engine_version
            &&& info.api_version == CURRENT_API_VERSION
            &&& view_names(info.enabled_extension_names@) == set_names(exts)
        },
{
    let application_name = encode_fixed(app_info.application_name, MAX_APPLICATION_NAME_SIZE)?;
    let engine_name = encode_fixed(app_info.engine_name, MAX_ENGINE_NAME_SIZE)?;
    Ok(
        InstanceCreateInfo {
            application_name,
            application_version: app_info.application_version,
            engine_name,
            engine_version: app_info.engine_version,
            api_version: CURRENT_API_VERSION,
            enabled_extension_names: exts.names(),
        },
    )
}

impl<R: Runtime> Entry<R> {
    /// Creates an instance with the extensions in `required_extensions`.
    ///
    /// The request is built by `instance_create_info`: a name that leaves
    /// no room for the terminating NUL is rejected with `NameTooLong` before
    /// the runtime is called. The runtime refuses the whole request when it
    /// lacks a required extension, so on success the instance holds exactly
    /// the required set.
    pub fn create_instance(&self, app_info: &ApplicationInfo, required_extensions: &ExtensionSet) -> (r:
        Result<Instance<R>, Error>)
        ensures
            !(name_fits(app_info.application_name, MAX_APPLICATION_NAME_SIZE) && name_fits(
                app_info.engine_name,
                MAX_ENGINE_NAME_SIZE,
            )) <==> r == Err::<Instance<R>, Error>(Error::NameTooLong),
            r matches Err(e) ==> (e == Error::NameTooLong || (e matches Error::Runtime(code)
                && !is_success(code))),
            r matches Ok(i) ==> i.inner.entry.inner == self.inner
                && i.inner.exts.khr_visibility_mask == required_extensions.khr_visibility_mask
                && i.inner.exts.ext_debug_utils == required_extensions.ext_debug_utils
                && i.inner.exts.other@ == required_extensions.other@,
    {
        let info = instance_create_info(app_info, required_extensions)?;
        let (status, handle) = self.fp().create_instance(&info);
        let handle = status_value(status, handle)?;
        Ok(Instance::from_raw(self.clone(), handle, required_extensions.copy()))
    }

    /// The extensions the runtime offers: the set that the properties of
    /// the settling fill describe, or the negotiation's failure. Each slot
    /// is an empty, unset property before a fill.
    pub fn enumerate_extensions(&self) -> (r: Result<ExtensionSet, Error>)
        ensures
            exists|
                init: ExtensionProperties,
                ex: Seq<Exchange<ExtensionProperties>>,
                raw: Result<Seq<ExtensionProperties>, Error>,
            | #[trigger] query_outcome(init, ex, raw) && extensions_outcome(raw, r),
    {
        let mut call = ExtensionProps { runtime: self.fp(), log: Ghost(Seq::empty()) };
        let unset = ExtensionProperties { extension_name: [0u8; 128], extension_version: 0 };
        let props = get_arr_init(unset, &mut call);
        assert(call.exchanges().skip(0) =~= call.exchanges());
        match props {
            Err(e) => Err(e),
            Ok(props) => ExtensionSet::from_properties(&props),
        }
    }
}

} // verus!
