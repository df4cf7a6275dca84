//! Physical device selection: queue family lookup, feature and extension
//! checks, and the multisample count ceiling. The device enumeration
//! itself happens outside; this module decides, given each candidate's
//! reported capabilities as plain values.

use vstd::prelude::*;

verus! {

/// A missing capability that disqualifies a device.
#[derive(Clone, Copy, Debug)]
pub struct SuitabilityError(pub &'static str);

/// The graphics-capable queue flag bit.
pub const QUEUE_GRAPHICS: u32 = 0x1;

/// What one queue family reports.
#[derive(Clone, Copy, Debug, PartialEq, Eq, Structural)]
pub struct QueueFamilyInfo {
    pub queue_flags: u32,
    pub surface_support: bool,
}

/// The queue family indices a device is driven through.
#[derive(Clone, Copy, Debug, PartialEq, Eq, Structural)]
pub struct QueueFamilyIndices {
    pub graphics: u32,
    pub present: u32,
}

/// Family `i` can run graphics work.
pub open spec fn family_graphics(families: Seq<QueueFamilyInfo>, i: int) -> bool {
    0 <= i < families.len() && families[i].queue_flags & QUEUE_GRAPHICS != 0
}

/// Family `i` can present to the surface.
pub open spec fn family_presents(families: Seq<QueueFamilyInfo>, i: int) -> bool {
    0 <= i < families.len() && families[i].surface_support
}

impl QueueFamilyIndices {
    /// Picks the first graphics-capable family and the first family that
    /// can present to the surface; fails when either is missing.
    pub fn get(families: &Vec<QueueFamilyInfo>) -> (r: Result<QueueFamilyIndices, SuitabilityError>)
        requires
            families@.len() <= u32::MAX,
        ensures
            match r {
                Ok(ix) => {
                    &&& family_graphics(families@, ix.graphics as int)
                    &&& forall|j: int| 0 <= j < ix.graphics ==> !family_graphics(families@, j)
                    &&& family_presents(families@, ix.present as int)
                    &&& forall|j: int| 0 <= j < ix.present ==> !family_presents(families@, j)
                },
                Err(_) => (forall|j: int| !family_graphics(families@, j)) || (forall|j: int|
                    !family_presents(families@, j)),
            },
    {
        let n = families.len();
        let mut graphics: Option<u32> = None;
        let mut present: Option<u32> = None;
        let mut i: usize = 0;
        while i < n
            invariant
                i <= n,
                n == families@.len(),
                n <= u32::MAX,
                match graphics {
                    Some(g) => family_graphics(families@, g as int) && forall|j: int|
                        0 <= j < g ==> !family_graphics(families@, j),
                    None => forall|j: int| 0 <= j < i ==> !family_graphics(families@, j),
                },
                match present {
                    Some(p) => family_presents(families@, p as int) && forall|j: int|
                        0 <= j < p ==> !family_presents(families@, j),
                    None => forall|j: int| 0 <= j < i ==> !family_presents(families@, j),
                },
            decreases n - i,
        {
            if graphics.is_none() && families[i].queue_flags & QUEUE_GRAPHICS != 0 {
                graphics = Some(i as u32);
            }
            if present.is_none() && families[i].surface_support {
                present = Some(i as u32);
            }
            i = i + 1;
        }
        match (graphics, present) {
            (Some(graphics), Some(present)) => Ok(QueueFamilyIndices { graphics, present }),
            _ => Err(SuitabilityError("Missing required queue families.")),
        }
    }
}

/// What one candidate physical device reports.
#[derive(Clone, Debug)]
pub struct PhysicalDeviceInfo {
    pub families: Vec<QueueFamilyInfo>,
    pub has_required_extensions: bool,
    pub surface_format_count: usize,
    pub present_mode_count: usize,
    pub sampler_anisotropy: bool,
}

/// A device qualifies when it has a graphics family, a presenting
/// family, the required extensions, at least one surface format and
/// present mode, and anisotropic sampling.
pub open spec fn device_suitable(d: PhysicalDeviceInfo) -> bool {
    &&& exists|j: int| family_graphics(d.families@, j)
    &&& exists|j: int| family_presents(d.families@, j)
    &&& d.has_required_extensions
    &&& d.surface_format_count > 0
    &&& d.present_mode_count > 0
    &&& d.sampler_anisotropy
}

/// Checks one candidate device, in the order the requirements are
/// reported: queue families, extensions, swapchain support, features.
pub fn check_physical_device(d: &PhysicalDeviceInfo) -> (r: Result<(), SuitabilityError>)
    requires
        d.families@.len() <= u32::MAX,
    ensures
        r is Ok <==> device_suitable(*d),
{
    let families = QueueFamilyIndices::get(&d.families);
    if families.is_err() {
        return Err(SuitabilityError("Missing required queue families."));
    }
    proof {
        let ix = families->Ok_0;
        assert(family_graphics(d.families@, ix.graphics as int));
        assert(family_presents(d.families@, ix.present as int));
    }
    if !d.has_required_extensions {
        return Err(SuitabilityError("Missing required device extensions."));
    }
    if d.surface_format_count == 0 || d.present_mode_count == 0 {
        return Err(SuitabilityError("Insufficient swapchain support."));
    }
    if !d.sampler_anisotropy {
        return Err(SuitabilityError("No sampler anisotropy."));
    }
    Ok(())
}

/// Picks the first suitable device among the candidates, in enumeration
/// order; reports failure when none qualifies.
pub fn pick_physical_device(devices: &Vec<PhysicalDeviceInfo>) -> (r: Result<
    usize,
    SuitabilityError,
>)
    requires
        forall|i: int| 0 <= i < devices@.len() ==> (#[trigger] devices@[i]).families@.len()
            <= u32::MAX,
    ensures
        match r {
            Ok(i) => i < devices@.len() && device_suitable(devices@[i as int]) && forall|j: int|
                0 <= j < i ==> !device_suitable(#[trigger] devices@[j]),
            Err(_) => forall|j: int|
                0 <= j < devices@.len() ==> !device_suitable(#[trigger] devices@[j]),
        },
{
    let n = devices.len();
    let mut i: usize = 0;
    while i < n
        invariant
            i <= n,
            n == devices@.len(),
            forall|i2: int| 0 <= i2 < devices@.len() ==> (#[trigger] devices@[i2]).families@.len()
                <= u32::MAX,
            forall|j: int| 0 <= j < i ==> !device_suitable(#[trigger] devices@[j]),
        decreases n - i,
    {
        if check_physical_device(&devices[i]).is_ok() {
            return Ok(i);
        }
        i = i + 1;
    }
    Err(SuitabilityError("Failed to find suitable physical device."))
}

pub const SAMPLE_1: u32 = 0x1;

pub const SAMPLE_2: u32 = 0x2;

pub const SAMPLE_4: u32 = 0x4;

pub const SAMPLE_8: u32 = 0x8;

pub const SAMPLE_16: u32 = 0x10;

pub const SAMPLE_32: u32 = 0x20;

pub const SAMPLE_64: u32 = 0x40;

/// The highest sample count both the color and depth framebuffers
/// support.
pub open spec fn max_msaa_spec(counts: u32) -> u32 {
    if counts & SAMPLE_64 != 0 {
        SAMPLE_64
    } else if counts & SAMPLE_32 != 0 {
        SAMPLE_32
    } else if counts & SAMPLE_16 != 0 {
        SAMPLE_16
    } else if counts & SAMPLE_8 != 0 {
        SAMPLE_8
    } else if counts & SAMPLE_4 != 0 {
        SAMPLE_4
    } else if counts & SAMPLE_2 != 0 {
        SAMPLE_2
    } else {
        SAMPLE_1
    }
}

/// Picks the device's multisample ceiling from the intersection of its
/// color and depth sample count masks.
pub fn get_max_msaa_samples(color_sample_counts: u32, depth_sample_counts: u32) -> (r: u32)
    ensures
        r == max_msaa_spec(color_sample_counts & depth_sample_counts),
{
    let counts = color_sample_counts & depth_sample_counts;
    if counts & SAMPLE_64 != 0 {
        SAMPLE_64
    } else if counts & SAMPLE_32 != 0 {
        SAMPLE_32
    } else if counts & SAMPLE_16 != 0 {
        SAMPLE_16
    } else if counts & SAMPLE_8 != 0 {
        SAMPLE_8
    } else if counts & SAMPLE_4 != 0 {
        SAMPLE_4
    } else if counts & SAMPLE_2 != 0 {
        SAMPLE_2
    } else {
        SAMPLE_1
    }
}

} // verus!
