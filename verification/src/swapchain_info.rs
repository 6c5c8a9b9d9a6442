//! Planning a swapchain from what a surface reports.

use vstd::prelude::*;

verus! {

/// The number that Vulkan gives the format of four 8-bit channels in the
/// order blue, green, red, alpha, with sRGB encoding.
pub const FORMAT_B8G8R8A8_SRGB: u32 = 50;

/// The number that Vulkan gives the format of four 8-bit channels in the
/// order red, green, blue, alpha, unsigned and normalised.
pub const FORMAT_R8G8B8A8_UNORM: u32 = 37;

/// The number that Vulkan gives the sRGB colour space with its non-linear
/// transfer function.
pub const COLOR_SPACE_SRGB_NONLINEAR: u32 = 0;

/// A pixel format, known by the number that Vulkan gives it.
#[derive(Clone, Copy, Debug, PartialEq, Eq, Structural)]
pub struct Format {
    pub code: u32,
}

/// A colour space, known by the number that Vulkan gives it.
#[derive(Clone, Copy, Debug, PartialEq, Eq, Structural)]
pub struct ColorSpace {
    pub code: u32,
}

/// The way in which finished images reach the screen.
#[derive(Clone, Copy, Debug, PartialEq, Eq, Structural)]
pub enum PresentMode {
    /// Shown at once, tearing or not.
    Immediate,
    /// Shown at the next blanking period; a newer image replaces a waiting one.
    Mailbox,
    /// Queued, one image shown at each blanking period.
    Fifo,
    /// As `Fifo`, but shown at once where the queue ran empty.
    Relaxed,
}

/// The present modes that a surface supports.
#[derive(Clone, Copy, Debug, PartialEq, Eq, Structural)]
pub struct SupportedPresentModes {
    pub immediate: bool,
    pub mailbox: bool,
    pub fifo: bool,
    pub relaxed: bool,
}

/// Which queue families may use the images of a swapchain.
#[derive(Clone, Debug, PartialEq, Eq)]
pub enum SharingMode {
    /// One family owns the images.
    Exclusive,
    /// The listed families share the images.
    Concurrent(Vec<u32>),
}

/// What a surface reports of itself to one physical device.
#[derive(Clone, Debug)]
pub struct Capabilities {
    /// The least number of images that a swapchain must have.
    pub min_image_count: u32,
    /// The greatest number of images that a swapchain may have; `None`, and
    /// likewise zero, where the surface sets no limit.
    pub max_image_count: Option<u32>,
    /// Width and height of the surface, where the surface fixes them.
    pub current_extent: Option<[u32; 2]>,
    /// The least width and height of a swapchain.
    pub min_image_extent: [u32; 2],
    /// The greatest width and height of a swapchain.
    pub max_image_extent: [u32; 2],
    /// The pairs of format and colour space that the surface supports, in
    /// the order in which the driver reports them.
    pub supported_formats: Vec<(Format, ColorSpace)>,
    /// The present modes that the surface supports.
    pub present_modes: SupportedPresentModes,
}

/// The pair that is taken wherever a surface supports it.
pub open spec fn preferred_format() -> (Format, ColorSpace) {
    (Format { code: FORMAT_B8G8R8A8_SRGB }, ColorSpace { code: COLOR_SPACE_SRGB_NONLINEAR })
}

/// The pair chosen from `formats`: the preferred one where the list holds
/// it, else the first of the list.
pub open spec fn chosen_format(formats: Seq<(Format, ColorSpace)>) -> (Format, ColorSpace)
    recommends
        formats.len() > 0,
{
    if formats.contains(preferred_format()) {
        preferred_format()
    } else {
        formats[0]
    }
}

/// The present mode chosen from `modes`: mailbox where it is supported,
/// else FIFO.
pub open spec fn chosen_present_mode(modes: SupportedPresentModes) -> PresentMode
    recommends
        modes.mailbox || modes.fifo,
{
    if modes.mailbox {
        PresentMode::Mailbox
    } else {
        PresentMode::Fifo
    }
}

/// `input` brought into the range from `min` to `max`.
pub open spec fn clamped(input: u32, min: u32, max: u32) -> u32
    recommends
        min <= max,
{
    if input < min {
        min
    } else if input > max {
        max
    } else {
        input
    }
}

/// Whether the extent limits of `c` form a range on each axis.
pub open spec fn extent_range_ok(c: Capabilities) -> bool {
    &&& c.min_image_extent[0] <= c.max_image_extent[0]
    &&& c.min_image_extent[1] <= c.max_image_extent[1]
}

/// Width and height chosen for a swapchain on a surface that reports `c`,
/// where the caller would like `requested`: the extent of the surface where
/// it is fixed, else each requested value brought into the range of its axis.
pub open spec fn chosen_dimensions(c: Capabilities, requested: [u32; 2]) -> Seq<u32> {
    match c.current_extent {
        Some(extent) => extent@,
        None => seq![
            clamped(requested[0], c.min_image_extent[0], c.max_image_extent[0]),
            clamped(requested[1], c.min_image_extent[1], c.max_image_extent[1]),
        ],
    }
}

/// The greatest number of images that `c` allows a swapchain, or `None`
/// where it allows any number; a limit of zero stands for none.
pub open spec fn image_count_limit(c: Capabilities) -> Option<u32> {
    match c.max_image_count {
        Some(max) => if max == 0 {
            None
        } else {
            Some(max)
        },
        None => None,
    }
}

/// The number of images chosen for a swapchain: one more than the least,
/// so that the driver is not waited on, but no more than the limit.
pub open spec fn chosen_image_count(c: Capabilities) -> int {
    match image_count_limit(c) {
        Some(max) => if c.min_image_count + 1 > max {
            max as int
        } else {
            c.min_image_count + 1
        },
        None => c.min_image_count + 1,
    }
}

impl SharingMode {
    /// The families that share the images, or `None` where one family owns
    /// them.
    pub open spec fn families(&self) -> Option<Seq<u32>> {
        match self {
            SharingMode::Exclusive => None,
            SharingMode::Concurrent(ids) => Some(ids@),
        }
    }
}

/// The families that share the images of a swapchain whose images are drawn
/// by the family `graphics` and presented by the family `present`.
pub open spec fn chosen_sharing(graphics: u32, present: u32) -> Option<Seq<u32>> {
    if graphics == present {
        None
    } else {
        Some(seq![graphics, present])
    }
}

/// `num::clamp`: `min` where `input` is below it, `max` where `input` is
/// above it, else `input`.  It asserts `min <= max` in a debug build.
#[verifier::external_body]
fn clamp(input: u32, min: u32, max: u32) -> (bounded: u32)
    requires
        min <= max,
    ensures
        bounded == clamped(input, min, max),
{
    num::clamp(input, min, max)
}

/// The pair to use of those that a surface supports.
pub fn choose_format(formats: &Vec<(Format, ColorSpace)>) -> (chosen: &(Format, ColorSpace))
    requires
        formats@.len() > 0,
    ensures
        *chosen == chosen_format(formats@),
{
    let mut i: usize = 0;
    while i < formats.len()
        invariant
            i <= formats@.len(),
            forall|j: int| 0 <= j < i ==> formats@[j] != preferred_format(),
        decreases formats@.len() - i,
    {
        let pair = &formats[i];
        if pair.0.code == FORMAT_B8G8R8A8_SRGB && pair.1.code == COLOR_SPACE_SRGB_NONLINEAR {
            assert(formats@[i as int] == preferred_format());
            return pair;
        }
        i += 1;
    }
    &formats[0]
}

/// The present mode to use of those that a surface supports.
pub fn choose_present_mode(modes: &SupportedPresentModes) -> (mode: PresentMode)
    requires
        modes.mailbox || modes.fifo,
    ensures
        mode == chosen_present_mode(*modes),
{
    if modes.mailbox {
        PresentMode::Mailbox
    } else {
        PresentMode::Fifo
    }
}

/// Width and height of the swapchain, where the caller would like
/// `requested`.
pub fn choose_dimensions(c: &Capabilities, requested: [u32; 2]) -> (dimensions: [u32; 2])
    requires
        c.current_extent is None ==> extent_range_ok(*c),
    ensures
        dimensions@ == chosen_dimensions(*c, requested),
{
    match c.current_extent {
        Some(extent) => extent,
        None => {
            let width = clamp(requested[0], c.min_image_extent[0], c.max_image_extent[0]);
            let height = clamp(requested[1], c.min_image_extent[1], c.max_image_extent[1]);
            let dimensions = [width, height];
            assert(dimensions@ =~= chosen_dimensions(*c, requested));
            dimensions
        },
    }
}

/// The number of images of the swapchain.
pub fn choose_image_count(c: &Capabilities) -> (count: u32)
    requires
        chosen_image_count(*c) <= u32::MAX,
    ensures
        count == chosen_image_count(*c),
{
    match c.max_image_count {
        Some(max) if max != 0 && c.min_image_count >= max => max,
        _ => c.min_image_count + 1,
    }
}

/// Who may use the images of the swapchain, given the families of the
/// queue that draws and of the queue that presents.
pub fn choose_sharing_mode(graphics_family_id: u32, present_family_id: u32) -> (sharing:
    SharingMode)
    ensures
        sharing.families() == chosen_sharing(graphics_family_id, present_family_id),
{
    if graphics_family_id == present_family_id {
        SharingMode::Exclusive
    } else {
        let mut ids: Vec<u32> = Vec::new();
        ids.push(graphics_family_id);
        ids.push(present_family_id);
        assert(ids@ =~= seq![graphics_family_id, present_family_id]);
        SharingMode::Concurrent(ids)
    }
}

/// Whether a swapchain can be planned on a surface that reports `c`: there
/// is a format to choose and a present mode to choose, the extent limits
/// form a range where the surface leaves the extent open, and the number of
/// images fits its type.
pub open spec fn plannable(c: Capabilities) -> bool {
    &&& c.supported_formats@.len() > 0
    &&& c.present_modes.mailbox || c.present_modes.fifo
    &&& c.current_extent is None ==> extent_range_ok(c)
    &&& chosen_image_count(c) <= u32::MAX
}

impl Capabilities {
    /// Whether a swapchain can be planned on the surface.
    pub fn can_plan(&self) -> (can: bool)
        ensures
            can == plannable(*self),
    {
        let formats = self.supported_formats.len() > 0;
        let modes = self.present_modes.mailbox || self.present_modes.fifo;
        let extent = match self.current_extent {
            Some(_) => true,
            None => self.min_image_extent[0] <= self.max_image_extent[0]
                && self.min_image_extent[1] <= self.max_image_extent[1],
        };
        let count = match self.max_image_count {
            Some(max) if max != 0 => true,
            _ => self.min_image_count < u32::MAX,
        };
        formats && modes && extent && count
    }
}

/// How a swapchain is to be made.
#[derive(Clone, Debug)]
pub struct SwapchainInfo {
    /// The number of images.
    pub num_images: u32,
    /// The format of the images.
    pub format: Format,
    /// The colour space of the images.
    pub color_space: ColorSpace,
    /// Width and height of the images.
    pub dimensions: [u32; 2],
    /// Who may use the images.
    pub sharing: SharingMode,
    /// How the images reach the screen.
    pub mode: PresentMode,
}

impl SwapchainInfo {
    /// Plans the swapchain for a surface that reports `capabilities`, on a
    /// device whose queues for drawing and presenting belong to the given
    /// families.  `requested` is the width and height taken where the
    /// surface leaves them open.
    pub fn new(
        capabilities: &Capabilities,
        requested: [u32; 2],
        graphics_family_id: u32,
        present_family_id: u32,
    ) -> (plan: SwapchainInfo)
        requires
            plannable(*capabilities),
        ensures
            (plan.format, plan.color_space) == chosen_format(capabilities.supported_formats@),
            plan.dimensions@ == chosen_dimensions(*capabilities, requested),
            plan.num_images == chosen_image_count(*capabilities),
            plan.sharing.families() == chosen_sharing(graphics_family_id, present_family_id),
            plan.mode == chosen_present_mode(capabilities.present_modes),
    {
        let (format, color_space) = *choose_format(&capabilities.supported_formats);
        let dimensions = choose_dimensions(capabilities, requested);
        let num_images = choose_image_count(capabilities);
        let sharing = choose_sharing_mode(graphics_family_id, present_family_id);
        let mode = choose_present_mode(&capabilities.present_modes);
        SwapchainInfo { num_images, format, color_space, dimensions, sharing, mode }
    }
}

/// The chosen pair is one that the surface supports.
pub proof fn lemma_chosen_format_is_supported(formats: Seq<(Format, ColorSpace)>)
    requires
        formats.len() > 0,
    ensures
        formats.contains(chosen_format(formats)),
{
    if !formats.contains(preferred_format()) {
        assert(formats[0] == chosen_format(formats));
    }
}

/// Where the surface fixes its extent, the request has no say.
pub proof fn lemma_fixed_extent_wins(c: Capabilities, first: [u32; 2], second: [u32; 2])
    requires
        c.current_extent is Some,
    ensures
        chosen_dimensions(c, first) == c.current_extent->0@,
        chosen_dimensions(c, first) == chosen_dimensions(c, second),
{
}

/// Where the surface leaves its extent open, the chosen width and height
/// lie within its limits, and a request that lies within them is granted.
pub proof fn lemma_open_extent_is_clamped(c: Capabilities, requested: [u32; 2])
    requires
        c.current_extent is None,
        extent_range_ok(c),
    ensures
        c.min_image_extent[0] <= chosen_dimensions(c, requested)[0] <= c.max_image_extent[0],
        c.min_image_extent[1] <= chosen_dimensions(c, requested)[1] <= c.max_image_extent[1],
        c.min_image_extent[0] <= requested[0] <= c.max_image_extent[0] ==> chosen_dimensions(
            c,
            requested,
        )[0] == requested[0],
        c.min_image_extent[1] <= requested[1] <= c.max_image_extent[1] ==> chosen_dimensions(
            c,
            requested,
        )[1] == requested[1],
{
}

/// The chosen number of images is at most one above the least, and never
/// above the limit of the surface.
pub proof fn lemma_image_count_bounds(c: Capabilities)
    ensures
        chosen_image_count(c) <= c.min_image_count + 1,
        image_count_limit(c) matches Some(max) ==> chosen_image_count(c) <= max,
        image_count_limit(c) is None ==> chosen_image_count(c) == c.min_image_count + 1,
{
}

} // verus!
