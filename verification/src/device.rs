//! Physical device and queue family selection.

use vstd::prelude::*;
use crate::instance::names_contain;
use crate::surface::VulkanSurfaceError;
use crate::vk::{
    vk_result_debug, vk_result_name, DEVICE_TYPE_CPU, DEVICE_TYPE_DISCRETE_GPU,
    DEVICE_TYPE_INTEGRATED_GPU, DEVICE_TYPE_VIRTUAL_GPU, QUEUE_GRAPHICS,
};

verus! {

/// The queue families a logical device uses for rendering and presentation.
#[derive(Debug, Clone, Copy, PartialEq, Eq, Structural)]
pub struct QueueFamilies {
    pub graphics: u32,
    pub present: u32,
}

/// What the engine reads of a `VkQueueFamilyProperties`.
#[derive(Debug, Clone, Copy, PartialEq, Eq, Structural)]
pub struct QueueFamilyProperties {
    /// The raw `VkQueueFlags`.
    pub queue_flags: u32,
    pub queue_count: u32,
}

/// Why no logical device could be created.
#[derive(Debug, Clone, Copy, PartialEq, Eq, Structural)]
pub enum VulkanDeviceError {
    NoSuitablePhysicalDevice,
    /// A Vulkan call failed with this `VkResult` code.
    Vulkan(i32),
    Surface(VulkanSurfaceError),
}

impl VulkanDeviceError {
    /// The text the error displays.
    pub open spec fn text(&self) -> Seq<char> {
        match self {
            VulkanDeviceError::NoSuitablePhysicalDevice => "no suitable Vulkan physical device found"@,
            VulkanDeviceError::Vulkan(code) => "Vulkan device error: "@ + vk_result_debug(*code),
            VulkanDeviceError::Surface(e) => "Vulkan surface error: "@ + e.text(),
        }
    }

    /// The text the error displays.
    pub fn message(&self) -> (r: String)
        ensures
            r@ == self.text(),
    {
        match self {
            VulkanDeviceError::NoSuitablePhysicalDevice => String::from_str(
                "no suitable Vulkan physical device found",
            ),
            VulkanDeviceError::Vulkan(code) => {
                let mut s = String::from_str("Vulkan device error: ");
                let name = vk_result_name(*code);
                s.append(name.as_str());
                s
            },
            VulkanDeviceError::Surface(e) => {
                let mut s = String::from_str("Vulkan surface error: ");
                let inner = e.message();
                s.append(inner.as_str());
                s
            },
        }
    }
}

impl From<VulkanSurfaceError> for VulkanDeviceError {
    fn from(value: VulkanSurfaceError) -> (r: Self) {
        VulkanDeviceError::Surface(value)
    }
}

impl vstd::std_specs::convert::FromSpecImpl<VulkanSurfaceError> for VulkanDeviceError {
    open spec fn obeys_from_spec() -> bool {
        true
    }

    open spec fn from_spec(v: VulkanSurfaceError) -> Self {
        VulkanDeviceError::Surface(v)
    }
}

/// The preference of a device type: discrete 1000, integrated 500,
/// virtual 250, CPU 100, any other 0.
pub open spec fn spec_score_device(device_type: i32) -> u32 {
    if device_type == DEVICE_TYPE_DISCRETE_GPU {
        1000
    } else if device_type == DEVICE_TYPE_INTEGRATED_GPU {
        500
    } else if device_type == DEVICE_TYPE_VIRTUAL_GPU {
        250
    } else if device_type == DEVICE_TYPE_CPU {
        100
    } else {
        0
    }
}

/// Scores a physical device by its raw `VkPhysicalDeviceType`.
pub fn score_device(device_type: i32) -> (r: u32)
    ensures
        r == spec_score_device(device_type),
{
    if device_type == DEVICE_TYPE_DISCRETE_GPU {
        1000
    } else if device_type == DEVICE_TYPE_INTEGRATED_GPU {
        500
    } else if device_type == DEVICE_TYPE_VIRTUAL_GPU {
        250
    } else if device_type == DEVICE_TYPE_CPU {
        100
    } else {
        0
    }
}

/// A family with at least one queue that supports graphics.
pub open spec fn is_graphics_family(f: QueueFamilyProperties) -> bool {
    f.queue_count > 0 && f.queue_flags & QUEUE_GRAPHICS == QUEUE_GRAPHICS
}

/// Finds the first queue family with at least one queue that supports
/// graphics.
pub fn find_graphics_queue_family(families: &Vec<QueueFamilyProperties>) -> (r: Option<u32>)
    requires
        families@.len() <= u32::MAX,
    ensures
        r is None <==> forall|i: int| 0 <= i < families@.len() ==> !is_graphics_family(#[trigger] families@[i]),
        r matches Some(g) ==> g < families@.len() && is_graphics_family(families@[g as int])
            && forall|j: int| 0 <= j < g ==> !is_graphics_family(#[trigger] families@[j]),
{
    let mut i: usize = 0;
    while i < families.len()
        invariant
            i <= families@.len(),
            families@.len() <= u32::MAX,
            forall|j: int| 0 <= j < i ==> !is_graphics_family(#[trigger] families@[j]),
        decreases families@.len() - i,
    {
        let f = families[i];
        if f.queue_count > 0 && f.queue_flags & QUEUE_GRAPHICS == QUEUE_GRAPHICS {
            return Some(i as u32);
        }
        i = i + 1;
    }
    None
}

/// Whether `scores[i]` is a highest score and no later score equals it.
pub open spec fn is_last_maximum(scores: Seq<u32>, i: int) -> bool {
    &&& 0 <= i < scores.len()
    &&& forall|j: int| 0 <= j < scores.len() ==> scores[j] <= scores[i]
    &&& forall|j: int| i < j < scores.len() ==> scores[j] < scores[i]
}

/// Whether `scores[i]` is a highest score and no earlier score equals it.
pub open spec fn is_first_maximum(scores: Seq<u32>, i: int) -> bool {
    &&& 0 <= i < scores.len()
    &&& forall|j: int| 0 <= j < scores.len() ==> scores[j] <= scores[i]
    &&& forall|j: int| 0 <= j < i ==> scores[j] < scores[i]
}

/// Both selection rules pick a device of the highest score; when one device
/// scores strictly higher than all others, both pick that device.
pub proof fn law_selection_picks_best(scores: Seq<u32>, i: int, k: int, m: int)
    requires
        is_last_maximum(scores, i),
        is_first_maximum(scores, k),
    ensures
        scores[i] == scores[k],
        0 <= m < scores.len() && (forall|j: int| 0 <= j < scores.len() && j != m ==> scores[j] < scores[m])
            ==> i == m && k == m,
{
}

/// How ties are broken: the headless choice is the highest score with no
/// later device scoring as much (the last of equal scores); the choice on
/// the presentation path is the highest score with no earlier candidate
/// scoring as much (the first of equal scores). On two devices of equal
/// score they differ.
pub proof fn law_selection_tie_breaks(scores: Seq<u32>, i: int, k: int)
    requires
        is_last_maximum(scores, i),
        is_first_maximum(scores, k),
    ensures
        forall|j: int| 0 <= j < scores.len() ==> scores[j] <= scores[i] && scores[j] <= scores[k],
        forall|j: int| i < j < scores.len() ==> scores[j] != scores[i],
        forall|j: int| 0 <= j < k ==> scores[j] != scores[k],
        k <= i,
        (exists|j: int| 0 <= j < scores.len() && j != i && scores[j] == scores[i]) ==> k < i,
{
    if k > i {
        assert(scores[i] < scores[k]);
        assert(scores[k] <= scores[i]);
    }
    if exists|j: int| 0 <= j < scores.len() && j != i && scores[j] == scores[i] {
        let j = choose|j: int| 0 <= j < scores.len() && j != i && scores[j] == scores[i];
        if k == i {
            if j < i {
                assert(scores[j] < scores[k]);
            } else {
                assert(scores[j] < scores[i]);
            }
        }
    }
}

/// The device scores: discrete 1000, integrated 500, virtual 250, CPU 100,
/// every other type 0; so a discrete GPU is preferred to an integrated one,
/// which is preferred to a virtual one, then a CPU, then anything else.
pub proof fn law_device_scores(device_type: i32)
    ensures
        spec_score_device(2) == 1000,
        spec_score_device(1) == 500,
        spec_score_device(3) == 250,
        spec_score_device(4) == 100,
        device_type < 1 || device_type > 4 ==> spec_score_device(device_type) == 0,
        spec_score_device(2) > spec_score_device(1) > spec_score_device(3) > spec_score_device(4)
            > spec_score_device(device_type) || device_type >= 1 && device_type <= 4,
{
}

/// Picks the physical device with the highest score when no surface is
/// involved; among equal scores the last one wins, as with
/// `Iterator::max_by_key`.
pub fn pick_headless_device(scores: &Vec<u32>) -> (r: Option<usize>)
    ensures
        r is None <==> scores@.len() == 0,
        r matches Some(i) ==> is_last_maximum(scores@, i as int),
{
    if scores.len() == 0 {
        return None;
    }
    let mut best: usize = 0;
    let mut i: usize = 1;
    while i < scores.len()
        invariant
            1 <= i <= scores@.len(),
            best < i,
            forall|j: int| 0 <= j < i ==> scores@[j] <= scores@[best as int],
            forall|j: int| best < j < i ==> scores@[j] < scores@[best as int],
        decreases scores@.len() - i,
    {
        if scores[i] >= scores[best] {
            best = i;
        }
        i = i + 1;
    }
    Some(best)
}

/// Picks the best candidate of the presentation path: the highest score,
/// the first one among equal scores (a stable sort by descending score,
/// then the head of the list).
pub fn pick_best_candidate(scores: &Vec<u32>) -> (r: Option<usize>)
    ensures
        r is None <==> scores@.len() == 0,
        r matches Some(i) ==> is_first_maximum(scores@, i as int),
{
    if scores.len() == 0 {
        return None;
    }
    let mut best: usize = 0;
    let mut i: usize = 1;
    while i < scores.len()
        invariant
            1 <= i <= scores@.len(),
            best < i,
            forall|j: int| 0 <= j < i ==> scores@[j] <= scores@[best as int],
            forall|j: int| 0 <= j < best ==> scores@[j] < scores@[best as int],
        decreases scores@.len() - i,
    {
        if scores[i] > scores[best] {
            best = i;
        }
        i = i + 1;
    }
    Some(best)
}

/// The distinct queue families a logical device needs queues from: the
/// graphics family, then the present family when it differs.
pub fn unique_queue_families(families: QueueFamilies) -> (r: Vec<u32>)
    ensures
        r@ == if families.present != families.graphics {
            seq![families.graphics, families.present]
        } else {
            seq![families.graphics]
        },
{
    let mut r = Vec::new();
    r.push(families.graphics);
    if families.present != families.graphics {
        r.push(families.present);
    }
    r
}

/// The queue families of a device created without a surface: the graphics
/// family also stands for presentation.
pub fn headless_queue_families(graphics: u32) -> (r: QueueFamilies)
    ensures
        r == (QueueFamilies { graphics, present: graphics }),
{
    QueueFamilies { graphics, present: graphics }
}

} // verus!

verus! {

/// The name of the `VK_KHR_swapchain` device extension.
pub open spec fn swapchain_extension_name() -> Seq<char> {
    "VK_KHR_swapchain"@
}

/// Whether a device's extension list holds `VK_KHR_swapchain`.
pub fn supports_swapchain(extension_names: &Vec<String>) -> (r: bool)
    ensures
        r == exists|i: int| 0 <= i < extension_names@.len() && #[trigger] extension_names@[i]@ == swapchain_extension_name(),
{
    names_contain(extension_names, "VK_KHR_swapchain")
}

/// The progress of the search for a graphics and a present queue family
/// of one physical device. Families are examined in order; each one with
/// queues is asked whether it can present to the surface, until both a
/// graphics and a present family have been seen. The latest family seen
/// for each role is kept.
#[derive(Debug, Clone, Copy, PartialEq, Eq, Structural)]
pub struct QueueFamilySearch {
    pub graphics: Option<u32>,
    pub present: Option<u32>,
}

/// Both roles have a family: the search stops.
pub open spec fn search_is_done(s: QueueFamilySearch) -> bool {
    s.graphics is Some && s.present is Some
}

/// Whether examining `family` asks the surface about presentation.
pub open spec fn search_asks(s: QueueFamilySearch, family: QueueFamilyProperties) -> bool {
    !search_is_done(s) && family.queue_count > 0
}

/// The search after examining family `index`, which can present to the
/// surface when `presents`.
pub open spec fn search_step(
    s: QueueFamilySearch,
    index: u32,
    family: QueueFamilyProperties,
    presents: bool,
) -> QueueFamilySearch {
    if !search_asks(s, family) {
        s
    } else {
        QueueFamilySearch {
            graphics: if family.queue_flags & QUEUE_GRAPHICS == QUEUE_GRAPHICS {
                Some(index)
            } else {
                s.graphics
            },
            present: if presents {
                Some(index)
            } else {
                s.present
            },
        }
    }
}

/// The search after examining the first `n` families, family `i` being
/// able to present when `presents[i]`.
pub open spec fn search_run(
    families: Seq<QueueFamilyProperties>,
    presents: Seq<bool>,
    n: nat,
) -> QueueFamilySearch
    decreases n,
{
    if n == 0 {
        QueueFamilySearch { graphics: None, present: None }
    } else {
        let k = (n - 1) as nat;
        search_step(search_run(families, presents, k), k as u32, families[k as int], presents[k as int])
    }
}

/// The outcome of a search.
pub open spec fn search_outcome(s: QueueFamilySearch) -> Option<QueueFamilies> {
    match (s.graphics, s.present) {
        (Some(g), Some(p)) => Some(QueueFamilies { graphics: g, present: p }),
        _ => None,
    }
}

/// What the search over all of a device's families finds.
pub open spec fn spec_find_queue_families(
    families: Seq<QueueFamilyProperties>,
    presents: Seq<bool>,
) -> Option<QueueFamilies> {
    search_outcome(search_run(families, presents, families.len()))
}

impl QueueFamilySearch {
    /// A search that has examined no family yet.
    pub fn new() -> (r: Self)
        ensures
            r == (QueueFamilySearch { graphics: None, present: None }),
    {
        QueueFamilySearch { graphics: None, present: None }
    }

    /// Whether both families have been found, so that no further family
    /// is examined.
    pub fn is_done(&self) -> (r: bool)
        ensures
            r == search_is_done(*self),
    {
        self.graphics.is_some() && self.present.is_some()
    }

    /// Whether examining `family` requires asking the surface whether the
    /// family can present.
    pub fn asks_presentation(&self, family: QueueFamilyProperties) -> (r: bool)
        ensures
            r == search_asks(*self, family),
    {
        !self.is_done() && family.queue_count > 0
    }

    /// Examines family `index`; `presents` is the surface's answer, read
    /// only when the family is asked about.
    pub fn examine(&mut self, index: u32, family: QueueFamilyProperties, presents: bool)
        ensures
            *final(self) == search_step(*old(self), index, family, presents),
    {
        if self.asks_presentation(family) {
            if family.queue_flags & QUEUE_GRAPHICS == QUEUE_GRAPHICS {
                self.graphics = Some(index);
            }
            if presents {
                self.present = Some(index);
            }
        }
    }

    /// The families found: both roles, or none.
    pub fn outcome(&self) -> (r: Option<QueueFamilies>)
        ensures
            r == search_outcome(*self),
    {
        match (self.graphics, self.present) {
            (Some(g), Some(p)) => Some(QueueFamilies { graphics: g, present: p }),
            _ => None,
        }
    }
}

/// One step of the search: once both families are found, or for a family
/// without queues, nothing changes; otherwise a graphics-capable family
/// becomes the graphics family and a family that can present becomes the
/// present family, replacing any earlier one, and the other role is kept.
pub proof fn law_search_step(s: QueueFamilySearch, index: u32, family: QueueFamilyProperties, presents: bool)
    ensures
        s.graphics is Some && s.present is Some ==> search_step(s, index, family, presents) == s,
        family.queue_count == 0 ==> search_step(s, index, family, presents) == s,
        !(s.graphics is Some && s.present is Some) && family.queue_count > 0 ==> {
            let t = search_step(s, index, family, presents);
            &&& t.graphics == if family.queue_flags & 1u32 == 1u32 { Some(index) } else { s.graphics }
            &&& t.present == if presents { Some(index) } else { s.present }
        },
        spec_find_queue_families(Seq::empty(), Seq::empty()) is None,
{
}

/// Whether family `i` has queues and can present.
pub open spec fn is_present_family(
    families: Seq<QueueFamilyProperties>,
    presents: Seq<bool>,
    i: int,
) -> bool {
    families[i].queue_count > 0 && presents[i]
}

proof fn lemma_search_run(families: Seq<QueueFamilyProperties>, presents: Seq<bool>, n: nat)
    requires
        n <= families.len(),
        families.len() <= presents.len(),
        families.len() <= u32::MAX + 1,
    ensures
        ({
            let s = search_run(families, presents, n);
            &&& s.graphics matches Some(g) ==> g < n && is_graphics_family(families[g as int])
            &&& s.present matches Some(p) ==> p < n && is_present_family(families, presents, p as int)
            &&& !search_is_done(s) ==> (s.graphics is None ==> forall|i: int|
                0 <= i < n ==> !is_graphics_family(#[trigger] families[i]))
                && (s.present is None ==> forall|i: int|
                0 <= i < n ==> !is_present_family(families, presents, i))
        }),
    decreases n,
{
    if n > 0 {
        let k = (n - 1) as nat;
        lemma_search_run(families, presents, k);
        assert((k as u32) as int == k);
    }
}

/// A queue family search only reports a graphics family with queues that
/// support graphics, and a present family with queues that the surface
/// said can present.
pub proof fn law_found_families_are_capable(families: Seq<QueueFamilyProperties>, presents: Seq<bool>)
    requires
        families.len() <= presents.len(),
        families.len() <= u32::MAX,
    ensures
        spec_find_queue_families(families, presents) matches Some(q) ==> q.graphics < families.len()
            && q.present < families.len() && is_graphics_family(families[q.graphics as int])
            && is_present_family(families, presents, q.present as int),
{
    lemma_search_run(families, presents, families.len());
}

/// A queue family search finds families whenever the device has a family
/// with graphics queues and a family with queues that can present.
pub proof fn law_search_is_complete(
    families: Seq<QueueFamilyProperties>,
    presents: Seq<bool>,
    g: int,
    p: int,
)
    requires
        families.len() <= presents.len(),
        families.len() <= u32::MAX,
        0 <= g < families.len(),
        0 <= p < families.len(),
        is_graphics_family(families[g]),
        is_present_family(families, presents, p),
    ensures
        spec_find_queue_families(families, presents) is Some,
{
    lemma_search_run(families, presents, families.len());
}

/// The checks a physical device goes through on the presentation path, in
/// order; each one is made only when the ones before it passed.
#[derive(Debug, Clone, Copy, PartialEq, Eq, Structural)]
pub enum DeviceProbe {
    /// Next: does the device offer `VK_KHR_swapchain`?
    CheckSwapchainExtension,
    /// Next: search its queue families.
    FindQueueFamilies,
    /// Next: does the surface offer formats for the device?
    CheckSurfaceFormats(QueueFamilies),
    /// Next: does the surface offer present modes for the device?
    CheckPresentModes(QueueFamilies),
    /// The device can render and present with these families.
    Suitable(QueueFamilies),
    /// The device is skipped.
    Unsuitable,
}

/// The probe after the swapchain-extension check.
pub open spec fn probe_on_extensions(p: DeviceProbe, has_swapchain: bool) -> DeviceProbe {
    if p == DeviceProbe::CheckSwapchainExtension {
        if has_swapchain { DeviceProbe::FindQueueFamilies } else { DeviceProbe::Unsuitable }
    } else {
        p
    }
}

/// The probe after the queue family search.
pub open spec fn probe_on_queue_families(p: DeviceProbe, found: Option<QueueFamilies>) -> DeviceProbe {
    if p == DeviceProbe::FindQueueFamilies {
        match found {
            Some(q) => DeviceProbe::CheckSurfaceFormats(q),
            None => DeviceProbe::Unsuitable,
        }
    } else {
        p
    }
}

/// The probe after the surface-format check.
pub open spec fn probe_on_surface_formats(p: DeviceProbe, count: nat) -> DeviceProbe {
    match p {
        DeviceProbe::CheckSurfaceFormats(q) => if count > 0 {
            DeviceProbe::CheckPresentModes(q)
        } else {
            DeviceProbe::Unsuitable
        },
        _ => p,
    }
}

/// The probe after the present-mode check.
pub open spec fn probe_on_present_modes(p: DeviceProbe, count: nat) -> DeviceProbe {
    match p {
        DeviceProbe::CheckPresentModes(q) => if count > 0 {
            DeviceProbe::Suitable(q)
        } else {
            DeviceProbe::Unsuitable
        },
        _ => p,
    }
}

/// The verdict of a probe given the answers to its four checks.
pub open spec fn probe_run(
    has_swapchain: bool,
    families: Option<QueueFamilies>,
    format_count: nat,
    present_mode_count: nat,
) -> DeviceProbe {
    probe_on_present_modes(
        probe_on_surface_formats(
            probe_on_queue_families(
                probe_on_extensions(DeviceProbe::CheckSwapchainExtension, has_swapchain),
                families,
            ),
            format_count,
        ),
        present_mode_count,
    )
}

impl DeviceProbe {
    /// A probe that has made no check yet.
    pub fn new() -> (r: Self)
        ensures
            r == DeviceProbe::CheckSwapchainExtension,
    {
        DeviceProbe::CheckSwapchainExtension
    }

    /// Whether the probe has reached a verdict.
    pub fn is_finished(&self) -> (r: bool)
        ensures
            r == (*self is Suitable || *self is Unsuitable),
    {
        match self {
            DeviceProbe::Suitable(_) | DeviceProbe::Unsuitable => true,
            _ => false,
        }
    }

    /// Takes the device's extension list.
    pub fn on_extensions(&mut self, extension_names: &Vec<String>)
        requires
            *old(self) == DeviceProbe::CheckSwapchainExtension,
        ensures
            *final(self) == probe_on_extensions(
                *old(self),
                exists|i: int| 0 <= i < extension_names@.len()
                    && #[trigger] extension_names@[i]@ == swapchain_extension_name(),
            ),
    {
        if supports_swapchain(extension_names) {
            *self = DeviceProbe::FindQueueFamilies;
        } else {
            *self = DeviceProbe::Unsuitable;
        }
    }

    /// Takes the outcome of the queue family search.
    pub fn on_queue_families(&mut self, found: Option<QueueFamilies>)
        requires
            *old(self) == DeviceProbe::FindQueueFamilies,
        ensures
            *final(self) == probe_on_queue_families(*old(self), found),
    {
        match found {
            Some(q) => {
                *self = DeviceProbe::CheckSurfaceFormats(q);
            },
            None => {
                *self = DeviceProbe::Unsuitable;
            },
        }
    }

    /// Takes how many surface formats the surface offers for the device.
    pub fn on_surface_formats(&mut self, count: usize)
        requires
            *old(self) is CheckSurfaceFormats,
        ensures
            *final(self) == probe_on_surface_formats(*old(self), count as nat),
    {
        if let DeviceProbe::CheckSurfaceFormats(q) = *self {
            if count > 0 {
                *self = DeviceProbe::CheckPresentModes(q);
            } else {
                *self = DeviceProbe::Unsuitable;
            }
        }
    }

    /// Takes how many present modes the surface offers for the device.
    pub fn on_present_modes(&mut self, count: usize)
        requires
            *old(self) is CheckPresentModes,
        ensures
            *final(self) == probe_on_present_modes(*old(self), count as nat),
    {
        if let DeviceProbe::CheckPresentModes(q) = *self {
            if count > 0 {
                *self = DeviceProbe::Suitable(q);
            } else {
                *self = DeviceProbe::Unsuitable;
            }
        }
    }
}

/// A device passes the probe exactly when it offers the swapchain
/// extension, has graphics and present families, and the surface offers
/// it at least one format and one present mode; the families it passes
/// with are those the search found. A failed check ends the probe: the
/// checks after it change nothing.
pub proof fn law_probe_passes_only_complete_devices(
    has_swapchain: bool,
    families: Option<QueueFamilies>,
    format_count: nat,
    present_mode_count: nat,
)
    ensures
        probe_run(has_swapchain, families, format_count, present_mode_count) is Suitable
            <==> has_swapchain && families is Some && format_count > 0 && present_mode_count > 0,
        probe_run(has_swapchain, families, format_count, present_mode_count) matches DeviceProbe::Suitable(q)
            ==> families == Some(q),
        !has_swapchain ==> probe_on_extensions(DeviceProbe::CheckSwapchainExtension, has_swapchain)
            == DeviceProbe::Unsuitable,
        forall|f: Option<QueueFamilies>, n: nat| #[trigger] probe_on_surface_formats(probe_on_queue_families(DeviceProbe::Unsuitable, f), n)
            == DeviceProbe::Unsuitable,
        forall|n: nat| #[trigger] probe_on_present_modes(DeviceProbe::Unsuitable, n) == DeviceProbe::Unsuitable,
{
}

} // verus!
