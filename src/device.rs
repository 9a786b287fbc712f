//! Instance version check and physical-device ranking.

use vstd::prelude::*;

verus! {

/// Raw code of `VK_PHYSICAL_DEVICE_TYPE_DISCRETE_GPU`.
pub const DEVICE_TYPE_DISCRETE_GPU: i32 = 2;

/// Raw code of `VK_PHYSICAL_DEVICE_TYPE_INTEGRATED_GPU`.
pub const DEVICE_TYPE_INTEGRATED_GPU: i32 = 1;

/// `VK_QUEUE_GRAPHICS_BIT`.
pub const QUEUE_GRAPHICS_BIT: u32 = 1;

/// `VK_MEMORY_HEAP_DEVICE_LOCAL_BIT`.
pub const MEMORY_HEAP_DEVICE_LOCAL_BIT: u32 = 1;

/// Score bonus of a discrete device.
pub const DISCRETE_BONUS: u128 = 10000;

/// Bytes in one mebibyte.
pub const BYTES_PER_MB: u128 = 1048576;

/// Why initialization failed.
#[derive(Clone, Copy, Debug, PartialEq, Eq, Structural)]
pub enum InitError {
    /// The instance offers a version below 1.3, which dynamic rendering needs.
    UnsupportedApiVersion { major: u32, minor: u32, patch: u32 },
    /// No device has a drawing-and-presenting queue family and dynamic rendering.
    NoSuitableDevice,
    /// A required instance or device extension is missing.
    ExtensionMissing,
    /// The driver failed to create a resource.
    ResourceCreationFailure,
}

/// A decoded API version.
#[derive(Clone, Copy, Debug, PartialEq, Eq, Structural)]
pub struct ApiVersion {
    pub major: u32,
    pub minor: u32,
    pub patch: u32,
}

/// Relies on ash::vk::make_api_version: it packs variant, major, minor and
/// patch into bits 29.., 22..29, 12..22 and 0..12.
#[verifier::external_body]
fn make_api_version(variant: u32, major: u32, minor: u32, patch: u32) -> (r: u32)
    requires
        variant < 8,
        major < 128,
        minor < 1024,
        patch < 4096,
    ensures
        r as int == variant * 0x2000_0000 + major * 0x40_0000 + minor * 0x1000 + patch,
{
    ash::vk::make_api_version(variant, major, minor, patch)
}

/// Relies on ash::vk::api_version_major: bits 22..29 of the version.
#[verifier::external_body]
fn api_version_major(version: u32) -> (r: u32)
    ensures
        r == (version / 0x40_0000) % 128,
{
    ash::vk::api_version_major(version)
}

/// Relies on ash::vk::api_version_minor: bits 12..22 of the version.
#[verifier::external_body]
fn api_version_minor(version: u32) -> (r: u32)
    ensures
        r == (version / 0x1000) % 1024,
{
    ash::vk::api_version_minor(version)
}

/// Relies on ash::vk::api_version_patch: bits 0..12 of the version.
#[verifier::external_body]
fn api_version_patch(version: u32) -> (r: u32)
    ensures
        r == version % 0x1000,
{
    ash::vk::api_version_patch(version)
}

/// The packed version 1.3.0.
pub open spec fn version_1_3() -> u32 {
    0x40_3000
}

/// The version an instance offers: what it reports, or 1.0 when it reports
/// none (a 1.0 loader cannot report one).
pub open spec fn effective_version(reported: Option<u32>) -> u32 {
    match reported {
        Some(v) => v,
        None => 0x40_0000,
    }
}

/// The parts of a packed version.
pub open spec fn decoded(version: u32) -> ApiVersion {
    ApiVersion {
        major: ((version / 0x40_0000) % 128) as u32,
        minor: ((version / 0x1000) % 1024) as u32,
        patch: (version % 0x1000) as u32,
    }
}

/// Checks the instance version that the loader reports. Succeeds, with the
/// decoded version, exactly when it is at least 1.3.
pub fn check_api_version(reported: Option<u32>) -> (r: Result<ApiVersion, InitError>)
    ensures
        r is Ok <==> effective_version(reported) >= version_1_3(),
        r matches Ok(v) ==> v == decoded(effective_version(reported)),
        r matches Err(e) ==> e == (InitError::UnsupportedApiVersion {
            major: decoded(effective_version(reported)).major,
            minor: decoded(effective_version(reported)).minor,
            patch: decoded(effective_version(reported)).patch,
        }),
{
    let version = match reported {
        Some(v) => v,
        None => make_api_version(0, 1, 0, 0),
    };
    let required = make_api_version(0, 1, 3, 0);
    let major = api_version_major(version);
    let minor = api_version_minor(version);
    let patch = api_version_patch(version);
    if version < required {
        Err(InitError::UnsupportedApiVersion { major, minor, patch })
    } else {
        Ok(ApiVersion { major, minor, patch })
    }
}

/// One queue family of a device.
#[derive(Clone, Copy, Debug, PartialEq, Eq, Structural)]
pub struct QueueFamily {
    /// Raw `VkQueueFlags`.
    pub flags: u32,
    /// Whether the family can present to the target surface.
    pub supports_present: bool,
}

/// One memory heap of a device.
#[derive(Clone, Copy, Debug, PartialEq, Eq, Structural)]
pub struct MemoryHeap {
    pub size: u64,
    /// Raw `VkMemoryHeapFlags`.
    pub flags: u32,
}

/// What ranking reads of one enumerated physical device.
pub struct DeviceCandidate {
    /// Raw `VkPhysicalDeviceType`.
    pub device_type: i32,
    pub queue_families: Vec<QueueFamily>,
    pub memory_heaps: Vec<MemoryHeap>,
    pub dynamic_rendering: bool,
}

/// The device that ranking picked.
#[derive(Clone, Copy, Debug, PartialEq, Eq, Structural)]
pub struct DeviceSelection {
    /// Position in the enumeration.
    pub device_index: usize,
    /// The first family that both draws and presents.
    pub queue_family_index: usize,
    pub score: u128,
}

/// Whether a family both draws and presents to the surface.
pub open spec fn draws_and_presents(f: QueueFamily) -> bool {
    f.flags & QUEUE_GRAPHICS_BIT != 0 && f.supports_present
}

/// `i` is the first family that draws and presents.
pub open spec fn is_first_family(s: Seq<QueueFamily>, i: int) -> bool {
    &&& 0 <= i < s.len()
    &&& draws_and_presents(s[i])
    &&& forall|j: int| 0 <= j < i ==> !draws_and_presents(#[trigger] s[j])
}

/// Whether some family draws and presents.
pub open spec fn has_family(s: Seq<QueueFamily>) -> bool {
    exists|i: int| 0 <= i < s.len() && draws_and_presents(#[trigger] s[i])
}

/// Index of the first queue family that both draws and presents.
pub fn find_queue_family(families: &Vec<QueueFamily>) -> (r: Option<usize>)
    ensures
        r is None <==> !has_family(families@),
        r matches Some(i) ==> is_first_family(families@, i as int),
{
    let mut i: usize = 0;
    while i < families.len()
        invariant
            i <= families@.len(),
            forall|j: int| 0 <= j < i ==> !draws_and_presents(#[trigger] families@[j]),
        decreases families.len() - i,
    {
        let f = families[i];
        if f.flags & QUEUE_GRAPHICS_BIT != 0 && f.supports_present {
            return Some(i);
        }
        i = i + 1;
    }
    None
}

/// Whether a heap is device-local.
pub open spec fn is_device_local(h: MemoryHeap) -> bool {
    h.flags & MEMORY_HEAP_DEVICE_LOCAL_BIT != 0
}

/// Total bytes of the device-local heaps.
pub open spec fn device_local_bytes(s: Seq<MemoryHeap>) -> int
    decreases s.len(),
{
    if s.len() == 0 {
        0
    } else {
        device_local_bytes(s.drop_last()) + if is_device_local(s.last()) {
            s.last().size as int
        } else {
            0
        }
    }
}

/// Device-local memory in whole mebibytes.
pub open spec fn device_local_mb(s: Seq<MemoryHeap>) -> int {
    device_local_bytes(s) / (BYTES_PER_MB as int)
}

/// Total device-local memory, in whole mebibytes.
pub fn device_local_memory_mb(heaps: &Vec<MemoryHeap>) -> (r: u128)
    ensures
        r == device_local_mb(heaps@),
{
    let mut sum: u128 = 0;
    let mut i: usize = 0;
    while i < heaps.len()
        invariant
            i <= heaps@.len(),
            sum == device_local_bytes(heaps@.subrange(0, i as int)),
            sum <= i as int * 0xFFFF_FFFF_FFFF_FFFF,
        decreases heaps.len() - i,
    {
        let h = heaps[i];
        proof {
            assert(heaps@.subrange(0, i as int + 1).drop_last() =~= heaps@.subrange(0, i as int));
        }
        if h.flags & MEMORY_HEAP_DEVICE_LOCAL_BIT != 0 {
            sum = sum + h.size as u128;
        }
        i = i + 1;
    }
    proof {
        assert(heaps@.subrange(0, heaps@.len() as int) =~= heaps@);
    }
    sum / BYTES_PER_MB
}

/// The ranking score: a bonus for a discrete device plus its device-local
/// memory in mebibytes.
pub open spec fn device_score(c: DeviceCandidate) -> int {
    (if c.device_type == DEVICE_TYPE_DISCRETE_GPU {
        DISCRETE_BONUS as int
    } else {
        0
    }) + device_local_mb(c.memory_heaps@)
}

/// Whether a device can serve at all: it has a family that draws and
/// presents, and it supports dynamic rendering.
pub open spec fn qualifies(c: DeviceCandidate) -> bool {
    has_family(c.queue_families@) && c.dynamic_rendering
}

/// `i` is the selected device: it qualifies, no qualifying device scores more,
/// and every qualifying device before it scores less.
pub open spec fn is_best_device(cs: Seq<DeviceCandidate>, i: int) -> bool {
    &&& 0 <= i < cs.len()
    &&& qualifies(cs[i])
    &&& forall|j: int| 0 <= j < cs.len() && qualifies(#[trigger] cs[j]) ==> device_score(cs[j]) <= device_score(cs[i])
    &&& forall|j: int| 0 <= j < i && qualifies(#[trigger] cs[j]) ==> device_score(cs[j]) < device_score(cs[i])
}

/// Ranks the enumerated devices: discards those without a family that draws
/// and presents or without dynamic rendering, and picks the highest score,
/// the first enumerated among equals.
pub fn select_physical_device(candidates: &Vec<DeviceCandidate>) -> (r: Result<DeviceSelection, InitError>)
    ensures
        r is Err <==> forall|j: int| 0 <= j < candidates@.len() ==> !qualifies(#[trigger] candidates@[j]),
        r matches Err(e) ==> e == InitError::NoSuitableDevice,
        r matches Ok(sel) ==> {
            &&& is_best_device(candidates@, sel.device_index as int)
            &&& is_first_family(
                candidates@[sel.device_index as int].queue_families@,
                sel.queue_family_index as int,
            )
            &&& sel.score == device_score(candidates@[sel.device_index as int])
        },
{
    let mut best: Option<DeviceSelection> = None;
    let mut i: usize = 0;
    while i < candidates.len()
        invariant
            i <= candidates@.len(),
            best is None ==> forall|j: int| 0 <= j < i ==> !qualifies(#[trigger] candidates@[j]),
            best matches Some(sel) ==> {
                &&& sel.device_index < i
                &&& qualifies(candidates@[sel.device_index as int])
                &&& is_first_family(
                    candidates@[sel.device_index as int].queue_families@,
                    sel.queue_family_index as int,
                )
                &&& sel.score == device_score(candidates@[sel.device_index as int])
                &&& forall|j: int| 0 <= j < i && qualifies(#[trigger] candidates@[j]) ==> device_score(candidates@[j]) <= sel.score
                &&& forall|j: int|
                    0 <= j < sel.device_index && qualifies(#[trigger] candidates@[j]) ==> device_score(candidates@[j]) < sel.score
            },
        decreases candidates.len() - i,
    {
        let c = &candidates[i];
        let family = find_queue_family(&c.queue_families);
        if let Some(family_index) = family {
            if c.dynamic_rendering {
                let mb = device_local_memory_mb(&c.memory_heaps);
                let bonus: u128 = if c.device_type == DEVICE_TYPE_DISCRETE_GPU {
                    DISCRETE_BONUS
                } else {
                    0
                };
                let heap_count = c.memory_heaps.len();
                proof {
                    let n = heap_count as nat;
                    let bytes = device_local_bytes(c.memory_heaps@);
                    lemma_device_local_bytes_bound(c.memory_heaps@);
                    assert(n * 0xFFFF_FFFF_FFFF_FFFF <= 0xFFFF_FFFF_FFFF_FFFF * 0xFFFF_FFFF_FFFF_FFFF)
                        by (nonlinear_arith)
                        requires
                            n <= 0xFFFF_FFFF_FFFF_FFFF,
                    ;
                    assert(bytes / (BYTES_PER_MB as int) <= bytes) by (nonlinear_arith)
                        requires
                            bytes >= 0,
                    ;
                }
                let score = bonus + mb;
                let better = match best {
                    None => true,
                    Some(sel) => score > sel.score,
                };
                if better {
                    best = Some(DeviceSelection { device_index: i, queue_family_index: family_index, score });
                }
            }
        }
        i = i + 1;
    }
    match best {
        Some(sel) => Ok(sel),
        None => Err(InitError::NoSuitableDevice),
    }
}

/// A qualifying discrete device is preferred over any qualifying device that
/// is not discrete, unless the other one has at least `DISCRETE_BONUS`
/// mebibytes more device-local memory: the selected device is then never the
/// non-discrete one.
pub proof fn lemma_discrete_preferred(cs: Seq<DeviceCandidate>, best: int, discrete: int, other: int)
    requires
        is_best_device(cs, best),
        0 <= discrete < cs.len(),
        0 <= other < cs.len(),
        qualifies(cs[discrete]),
        qualifies(cs[other]),
        cs[discrete].device_type == DEVICE_TYPE_DISCRETE_GPU,
        cs[other].device_type != DEVICE_TYPE_DISCRETE_GPU,
        device_local_mb(cs[other].memory_heaps@) < DISCRETE_BONUS + device_local_mb(
            cs[discrete].memory_heaps@,
        ),
    ensures
        best != other,
{
    assert(device_score(cs[discrete]) <= device_score(cs[best]));
}

/// Device-local bytes are bounded by the heap count times the largest size.
proof fn lemma_device_local_bytes_bound(s: Seq<MemoryHeap>)
    ensures
        0 <= device_local_bytes(s) <= s.len() * 0xFFFF_FFFF_FFFF_FFFF,
    decreases s.len(),
{
    if s.len() > 0 {
        lemma_device_local_bytes_bound(s.drop_last());
    }
}

/// Most memory types a device can report.
pub const MAX_MEMORY_TYPES: usize = 32;

/// Whether memory type `i` is allowed by `type_filter` and has every flag of
/// `required`.
pub open spec fn memory_type_fits(type_filter: u32, flags: u32, required: u32, i: int) -> bool {
    &&& 0 <= i < 32
    &&& (type_filter >> (i as u32)) & 1 == 1
    &&& flags & required == required
}

/// Index of the first memory type that the resource's `type_filter` allows
/// and that has every property flag in `required`; `None` if there is none.
/// Only the first `MAX_MEMORY_TYPES` entries of `type_flags` are read.
pub fn find_memory_type(type_filter: u32, type_flags: &Vec<u32>, required: u32) -> (r: Option<u32>)
    ensures
        r matches Some(i) ==> {
            &&& i < type_flags@.len()
            &&& memory_type_fits(type_filter, type_flags@[i as int], required, i as int)
            &&& forall|j: int|
                0 <= j < i ==> !memory_type_fits(type_filter, #[trigger] type_flags@[j], required, j)
        },
        r is None ==> forall|j: int|
            0 <= j < type_flags@.len() ==> !memory_type_fits(type_filter, #[trigger] type_flags@[j], required, j),
{
    let n = if type_flags.len() < MAX_MEMORY_TYPES {
        type_flags.len()
    } else {
        MAX_MEMORY_TYPES
    };
    let mut i: usize = 0;
    while i < n
        invariant
            n <= type_flags@.len(),
            n <= MAX_MEMORY_TYPES,
            n == type_flags@.len() || n == MAX_MEMORY_TYPES,
            i <= n,
            forall|j: int| 0 <= j < i ==> !memory_type_fits(type_filter, #[trigger] type_flags@[j], required, j),
        decreases n - i,
    {
        let flags = type_flags[i];
        if (type_filter >> (i as u32)) & 1 == 1 && flags & required == required {
            return Some(i as u32);
        }
        i = i + 1;
    }
    None
}

} // verus!
