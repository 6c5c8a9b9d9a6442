//! Judging and ranking the physical devices of a machine.

use crate::config::{
    enabled_extensions, required_extension_names, supports_required_extensions,
};
use crate::indented_printer::{indented_line, key_line, line_texts, value_line, IndentedPrinter};
use crate::queue_families::{
    family_by_id, first_graphics_family, first_present_family, lemma_first_graphics_family,
    lemma_first_present_family, QueueFamilies, QueueFamily,
};
use crate::swapchain_info::Capabilities;
use std::cmp::Ordering;
use vstd::prelude::*;
use vstd::string::*;
use vulkano::device::DeviceExtensions;

verus! {

/// What a discrete GPU has over any other device in the ranking.
pub const DISCRETE_GPU_BONUS: u64 = 1_000_000;

/// The kind of a physical device.
#[derive(Clone, Copy, Debug, PartialEq, Eq, Structural)]
pub enum PhysicalDeviceType {
    /// A GPU that shares the memory of the host.
    IntegratedGpu,
    /// A GPU with memory of its own.
    DiscreteGpu,
    /// A GPU of a virtual machine.
    VirtualGpu,
    /// A CPU.
    Cpu,
    /// Something else.
    Other,
}

/// What a driver reports of one physical device, for one surface.
#[derive(Debug)]
pub struct PhysicalDeviceInfo {
    /// The place of the device in the driver's enumeration.
    pub index: usize,
    /// The name of the device.
    pub name: String,
    /// The kind of the device.
    pub device_type: PhysicalDeviceType,
    /// The greatest width and height of a two-dimensional image.
    pub max_image_dimension_2d: u32,
    /// The queue families of the device, in the driver's order.
    pub families: Vec<QueueFamily>,
    /// The extensions that the device offers.
    pub supported_extensions: DeviceExtensions,
    /// What the surface reports of itself to the device; `None` where the
    /// surface was not asked, as it need not be for a device that lacks a
    /// queue family or a required extension.
    pub surface_capabilities: Option<Capabilities>,
}

impl PhysicalDeviceInfo {
    /// Whether the device has a family for graphics and one for presentation.
    pub open spec fn has_queue_families(&self) -> bool {
        &&& first_graphics_family(self.families@) is Some
        &&& first_present_family(self.families@) is Some
    }

    /// Whether the device offers every required extension.
    pub open spec fn has_required_extensions(&self) -> bool {
        required_extension_names().subset_of(enabled_extensions(self.supported_extensions))
    }

    /// Whether the surface has to be asked what it offers the device: it
    /// has to where the device would be used if the answer allowed it.
    pub open spec fn needs_surface(&self) -> bool {
        self.has_queue_families() && self.has_required_extensions()
    }

    /// Whether the surface is known to offer a format and a present mode.
    pub open spec fn has_valid_surface(&self) -> bool {
        match self.surface_capabilities {
            Some(capabilities) => {
                let modes = capabilities.present_modes;
                &&& capabilities.supported_formats@.len() > 0
                &&& modes.immediate || modes.mailbox || modes.fifo || modes.relaxed
            },
            None => false,
        }
    }

    /// Whether the device can be used.
    pub open spec fn valid(&self) -> bool {
        &&& self.has_queue_families()
        &&& self.has_required_extensions()
        &&& self.has_valid_surface()
    }

    /// Whether the device is a discrete GPU.
    pub open spec fn discrete(&self) -> bool {
        self.device_type == PhysicalDeviceType::DiscreteGpu
    }

    /// Whether the device ranks above `other`: a discrete GPU ranks above
    /// any device of another kind, and of two devices that are both
    /// discrete GPUs, or both not, the one with the greater image dimension
    /// ranks above the other.
    pub open spec fn ranks_above(&self, other: &PhysicalDeviceInfo) -> bool {
        if self.discrete() != other.discrete() {
            self.discrete()
        } else {
            self.max_image_dimension_2d > other.max_image_dimension_2d
        }
    }

    /// The score of the device: its greatest image dimension, and the bonus
    /// on top of it for a discrete GPU.
    pub open spec fn points(&self) -> int {
        if self.discrete() {
            DISCRETE_GPU_BONUS + self.max_image_dimension_2d
        } else {
            self.max_image_dimension_2d as int
        }
    }

    /// Gathers what is known of a device.
    pub fn new(
        index: usize,
        name: String,
        device_type: PhysicalDeviceType,
        max_image_dimension_2d: u32,
        families: Vec<QueueFamily>,
        supported_extensions: DeviceExtensions,
        surface_capabilities: Option<Capabilities>,
    ) -> (info: PhysicalDeviceInfo)
        ensures
            info.index == index,
            info.name == name,
            info.device_type == device_type,
            info.max_image_dimension_2d == max_image_dimension_2d,
            info.families == families,
            info.supported_extensions == supported_extensions,
            info.surface_capabilities == surface_capabilities,
    {
        PhysicalDeviceInfo {
            index,
            name,
            device_type,
            max_image_dimension_2d,
            families,
            supported_extensions,
            surface_capabilities,
        }
    }

    /// The place of the device in the driver's enumeration.
    pub fn physical_device(&self) -> (index: usize)
        ensures
            index == self.index,
    {
        self.index
    }

    /// The families of the device that serve graphics and presentation.
    pub fn queue_families(&self) -> (found: QueueFamilies)
        ensures
            found.graphics_id() == first_graphics_family(self.families@),
            found.present_id() == first_present_family(self.families@),
    {
        QueueFamilies::new(self.families.as_slice())
    }

    /// The family that serves graphics.
    pub fn graphics_family(&self) -> (family: Option<QueueFamily>)
        ensures
            family == match first_graphics_family(self.families@) {
                Some(id) => family_by_id(self.families@, id),
                None => None,
            },
    {
        self.queue_families().graphics_family(self.families.as_slice())
    }

    /// The family that serves presentation.
    pub fn present_family(&self) -> (family: Option<QueueFamily>)
        ensures
            family == match first_present_family(self.families@) {
                Some(id) => family_by_id(self.families@, id),
                None => None,
            },
    {
        self.queue_families().present_family(self.families.as_slice())
    }

    /// The extensions that the device offers.
    pub fn supported_extensions(&self) -> (extensions: &DeviceExtensions)
        ensures
            *extensions == self.supported_extensions,
    {
        &self.supported_extensions
    }

    /// Whether the device offers every required extension.
    pub fn supports_required_extensions(&self) -> (all: bool)
        ensures
            all == self.has_required_extensions(),
    {
        supports_required_extensions(&self.supported_extensions)
    }

    /// Whether the surface has to be asked what it offers the device: it
    /// has to where the device has its queue families and offers the
    /// required extensions.
    pub fn wants_surface_capabilities(&self) -> (wanted: bool)
        ensures
            wanted == self.needs_surface(),
    {
        self.queue_families()._is_complete() && self.supports_required_extensions()
    }

    /// What the surface reports of itself to the device, where it was asked.
    pub fn surface_capabilities(&self) -> (capabilities: &Option<Capabilities>)
        ensures
            *capabilities == self.surface_capabilities,
    {
        &self.surface_capabilities
    }

    /// Whether the surface is known to offer a format and a present mode.
    pub fn is_surface_valid(&self) -> (valid: bool)
        ensures
            valid == self.has_valid_surface(),
    {
        match &self.surface_capabilities {
            Some(capabilities) => {
                let modes = &capabilities.present_modes;
                capabilities.supported_formats.len() > 0 && (modes.immediate || modes.mailbox
                    || modes.fifo || modes.relaxed)
            },
            None => false,
        }
    }

    /// Whether the device is a discrete GPU.
    pub fn is_discrete_gpu(&self) -> (discrete: bool)
        ensures
            discrete == self.discrete(),
    {
        match self.device_type {
            PhysicalDeviceType::DiscreteGpu => true,
            _ => false,
        }
    }

    /// The greatest width and height of a two-dimensional image.
    pub fn max_image_dimension_2d(&self) -> (dimension: u32)
        ensures
            dimension == self.max_image_dimension_2d,
    {
        self.max_image_dimension_2d
    }

    /// Whether the device can be used: it has its queue families, offers the
    /// required extensions, and the surface offers a format and a present
    /// mode.
    pub fn is_valid(&self) -> (valid: bool)
        ensures
            valid == self.valid(),
    {
        self.queue_families()._is_complete() && self.supports_required_extensions()
            && self.is_surface_valid()
    }

    /// Whether the device ranks above `other`, by kind and then by greatest
    /// image dimension.
    pub fn outranks(&self, other: &PhysicalDeviceInfo) -> (above: bool)
        ensures
            above == self.ranks_above(other),
    {
        let discrete = self.is_discrete_gpu();
        if discrete != other.is_discrete_gpu() {
            discrete
        } else {
            self.max_image_dimension_2d > other.max_image_dimension_2d
        }
    }

    /// The score of the device: the greatest image dimension, and the bonus
    /// on top of it for a discrete GPU.  Among devices whose dimension lies
    /// below the bonus, as those of real devices do, the higher score is
    /// that of the device that ranks above the other; a dimension at or
    /// above the bonus can lift a device of another kind over a discrete
    /// GPU in score, but never in rank.
    pub fn score(&self) -> (score: u64)
        ensures
            score == self.points(),
    {
        let dimension: u64 = self.max_image_dimension_2d as u64;
        if self.is_discrete_gpu() {
            DISCRETE_GPU_BONUS + dimension
        } else {
            dimension
        }
    }
}

/// The character of the digit `d`.
pub open spec fn digit(d: nat) -> char {
    if d == 0 {
        '0'
    } else if d == 1 {
        '1'
    } else if d == 2 {
        '2'
    } else if d == 3 {
        '3'
    } else if d == 4 {
        '4'
    } else if d == 5 {
        '5'
    } else if d == 6 {
        '6'
    } else if d == 7 {
        '7'
    } else if d == 8 {
        '8'
    } else {
        '9'
    }
}

/// The number `n` in decimal digits, without leading zeros.
pub open spec fn decimal(n: nat) -> Seq<char>
    decreases n,
{
    if n < 10 {
        seq![digit(n)]
    } else {
        decimal(n / 10).push(digit(n % 10))
    }
}

/// The heading of the report on a device: its place in brackets, and its
/// name.
pub open spec fn report_heading(index: nat, name: Seq<char>) -> Seq<char> {
    "["@ + decimal(index) + "] "@ + name
}

/// The lines of the report on a device whose heading is `heading`, for the
/// texts `values` of its five properties.
pub open spec fn device_report(
    base: Seq<char>,
    step: Seq<char>,
    heading: Seq<char>,
    values: Seq<Seq<char>>,
) -> Seq<Seq<char>>
    recommends
        values.len() == 5,
{
    seq![
        indented_line(base, heading),
        key_line(base + step, "Is Valid"@),
        value_line(base + step, step, values[0]),
        key_line(base + step, "Type"@),
        value_line(base + step, step, values[1]),
        key_line(base + step, "Graphics Queue Family"@),
        value_line(base + step, step, values[2]),
        key_line(base + step, "Present Queue Family"@),
        value_line(base + step, step, values[3]),
        key_line(base + step, "Max Image Dimensions 2D"@),
        value_line(base + step, step, values[4]),
    ]
}

/// The digit `d` as a text of one character.
fn digit_text(d: usize) -> (text: &'static str)
    requires
        d < 10,
    ensures
        text@ == seq![digit(d as nat)],
{
    proof {
        reveal_strlit("0");
        reveal_strlit("1");
        reveal_strlit("2");
        reveal_strlit("3");
        reveal_strlit("4");
        reveal_strlit("5");
        reveal_strlit("6");
        reveal_strlit("7");
        reveal_strlit("8");
        reveal_strlit("9");
    }
    let text = if d == 0 {
        "0"
    } else if d == 1 {
        "1"
    } else if d == 2 {
        "2"
    } else if d == 3 {
        "3"
    } else if d == 4 {
        "4"
    } else if d == 5 {
        "5"
    } else if d == 6 {
        "6"
    } else if d == 7 {
        "7"
    } else if d == 8 {
        "8"
    } else {
        "9"
    };
    assert(text@ =~= seq![digit(d as nat)]);
    text
}

/// The number `n` in decimal digits, without leading zeros.
pub fn decimal_text(n: usize) -> (text: String)
    ensures
        text@ == decimal(n as nat),
    decreases n,
{
    if n < 10 {
        String::from_str(digit_text(n))
    } else {
        let text = decimal_text(n / 10).concat(digit_text(n % 10));
        assert(text@ =~= decimal(n as nat));
        text
    }
}

impl PhysicalDeviceInfo {
    /// Writes the report on the device: the heading behind `indent_base`,
    /// and one step deeper whether the device can be used, its kind, its
    /// two queue families and its greatest image dimension, each as `{:?}`
    /// gives it.
    pub fn print(&self, indent_base: &str, indent_step: &str, out: &mut Vec<String>)
        ensures
            exists|values: Seq<Seq<char>>|
                values.len() == 5 && line_texts(final(out)@) == line_texts(old(out)@)
                    + #[trigger] device_report(
                    indent_base@,
                    indent_step@,
                    report_heading(self.index as nat, self.name@),
                    values,
                ),
    {
        let mut printer = IndentedPrinter::new_with_base(indent_base, indent_step);
        let heading = String::from_str("[").concat(decimal_text(self.index).as_str()).concat(
            "] ",
        ).concat(self.name.as_str());
        printer.print_line(heading.as_str(), out);
        printer.indent();
        let ghost deeper = indent_base@ + indent_step@;
        let ghost step = indent_step@;
        let ghost l0 = line_texts(out@);
        printer.print_key_value_debug("Is Valid", &self.is_valid(), out);
        let ghost v0 = choose|text: Seq<char>|
            line_texts(out@) == l0.push(key_line(deeper, "Is Valid"@)).push(
                #[trigger] value_line(deeper, step, text),
            );
        let ghost l1 = line_texts(out@);
        printer.print_key_value_debug("Type", &self.device_type, out);
        let ghost v1 = choose|text: Seq<char>|
            line_texts(out@) == l1.push(key_line(deeper, "Type"@)).push(
                #[trigger] value_line(deeper, step, text),
            );
        let ghost l2 = line_texts(out@);
        printer.print_key_value_debug("Graphics Queue Family", &self.graphics_family(), out);
        let ghost v2 = choose|text: Seq<char>|
            line_texts(out@) == l2.push(key_line(deeper, "Graphics Queue Family"@)).push(
                #[trigger] value_line(deeper, step, text),
            );
        let ghost l3 = line_texts(out@);
        printer.print_key_value_debug("Present Queue Family", &self.present_family(), out);
        let ghost v3 = choose|text: Seq<char>|
            line_texts(out@) == l3.push(key_line(deeper, "Present Queue Family"@)).push(
                #[trigger] value_line(deeper, step, text),
            );
        let ghost l4 = line_texts(out@);
        printer.print_key_value_debug(
            "Max Image Dimensions 2D",
            &self.max_image_dimension_2d(),
            out,
        );
        let ghost v4 = choose|text: Seq<char>|
            line_texts(out@) == l4.push(key_line(deeper, "Max Image Dimensions 2D"@)).push(
                #[trigger] value_line(deeper, step, text),
            );
        proof {
            let values = seq![v0, v1, v2, v3, v4];
            assert(line_texts(out@) =~= line_texts(old(out)@) + device_report(
                indent_base@,
                indent_step@,
                report_heading(self.index as nat, self.name@),
                values,
            ));
        }
    }
}

impl PhysicalDeviceInfo {
    /// How the device stands to `other`: a usable device comes before an
    /// unusable one; of two that are alike in this, a discrete GPU comes
    /// after a device of another kind; of two that are alike in this too,
    /// the one with the greater image dimension comes after the other.
    pub open spec fn order(&self, other: &PhysicalDeviceInfo) -> Ordering {
        if self.valid() != other.valid() {
            if self.valid() {
                Ordering::Less
            } else {
                Ordering::Greater
            }
        } else if self.discrete() != other.discrete() {
            if self.discrete() {
                Ordering::Greater
            } else {
                Ordering::Less
            }
        } else if self.max_image_dimension_2d < other.max_image_dimension_2d {
            Ordering::Less
        } else if self.max_image_dimension_2d > other.max_image_dimension_2d {
            Ordering::Greater
        } else {
            Ordering::Equal
        }
    }

    /// How the device stands to `other`, by usability, then kind, then
    /// greatest image dimension.
    pub fn cmp(&self, other: &PhysicalDeviceInfo) -> (order: Ordering)
        ensures
            order == self.order(other),
    {
        let valid = self.is_valid();
        let discrete = self.is_discrete_gpu();
        if valid != other.is_valid() {
            if valid {
                Ordering::Less
            } else {
                Ordering::Greater
            }
        } else if discrete != other.is_discrete_gpu() {
            if discrete {
                Ordering::Greater
            } else {
                Ordering::Less
            }
        } else if self.max_image_dimension_2d < other.max_image_dimension_2d {
            Ordering::Less
        } else if self.max_image_dimension_2d > other.max_image_dimension_2d {
            Ordering::Greater
        } else {
            Ordering::Equal
        }
    }
}

/// Between two devices that are alike in usability, the order is that of
/// the ranks: the one that ranks above the other comes after it.
pub proof fn lemma_order_follows_rank(left: PhysicalDeviceInfo, right: PhysicalDeviceInfo)
    requires
        left.valid() == right.valid(),
    ensures
        left.order(&right) == Ordering::Greater <==> left.ranks_above(&right),
        left.order(&right) == Ordering::Less <==> right.ranks_above(&left),
        left.order(&right) == Ordering::Equal <==> !left.ranks_above(&right) && !right.ranks_above(
            &left,
        ),
{
}

/// Where both greatest image dimensions lie below the bonus of a discrete
/// GPU, the higher score is that of the device that ranks above the other.
pub proof fn lemma_score_follows_rank(left: PhysicalDeviceInfo, right: PhysicalDeviceInfo)
    requires
        left.max_image_dimension_2d < DISCRETE_GPU_BONUS,
        right.max_image_dimension_2d < DISCRETE_GPU_BONUS,
    ensures
        left.points() > right.points() <==> left.ranks_above(&right),
        left.points() == right.points() <==> !left.ranks_above(&right) && !right.ranks_above(&left),
{
}

/// Whether the device at `i` is the one to pick from `devices`: it can be
/// used, no usable device ranks above it, and it ranks above every usable
/// device before it.
pub open spec fn is_best(devices: Seq<PhysicalDeviceInfo>, i: int) -> bool {
    &&& 0 <= i < devices.len()
    &&& devices[i].valid()
    &&& forall|j: int|
        0 <= j < devices.len() && (#[trigger] devices[j]).valid() ==> !devices[j].ranks_above(
            &devices[i],
        )
    &&& forall|j: int|
        0 <= j < i && (#[trigger] devices[j]).valid() ==> devices[i].ranks_above(&devices[j])
}

/// Whether none of `devices` can be used.
pub open spec fn none_valid(devices: Seq<PhysicalDeviceInfo>) -> bool {
    forall|j: int| 0 <= j < devices.len() ==> !(#[trigger] devices[j]).valid()
}

/// The place of the device to pick: the usable device that no other
/// usable device ranks above, and of several such the first.  `None` where
/// no device can be used.
pub fn best_device(devices: &[PhysicalDeviceInfo]) -> (best: Option<usize>)
    ensures
        match best {
            Some(i) => is_best(devices@, i as int),
            None => none_valid(devices@),
        },
{
    let mut best: Option<usize> = None;
    let mut i: usize = 0;
    while i < devices.len()
        invariant
            i <= devices@.len(),
            match best {
                Some(at) => at < i && is_best(devices@.take(i as int), at as int),
                None => none_valid(devices@.take(i as int)),
            },
        decreases devices@.len() - i,
    {
        let device = &devices[i];
        let ghost before = devices@.take(i as int);
        let ghost after = devices@.take(i as int + 1);
        assert(forall|j: int| 0 <= j < i ==> before[j] == after[j]);
        assert(after[i as int] == devices@[i as int]);
        if device.is_valid() {
            let better = match best {
                Some(at) => device.outranks(&devices[at]),
                None => true,
            };
            if better {
                best = Some(i);
            }
        }
        i += 1;
    }
    assert(devices@.take(i as int) =~= devices@);
    best
}

/// The device to use: the usable device that no other usable device ranks
/// above, and of several such the first.  `None` where no device can be
/// used.
pub fn pick_physical_device_info(devices: Vec<PhysicalDeviceInfo>) -> (picked: Option<
    PhysicalDeviceInfo,
>)
    ensures
        match picked {
            Some(device) => exists|i: int| is_best(devices@, i) && devices@[i] == device,
            None => none_valid(devices@),
        },
{
    let mut devices = devices;
    match best_device(devices.as_slice()) {
        Some(i) => {
            let device = devices.swap_remove(i);
            Some(device)
        },
        None => None,
    }
}

/// At most one place is the one to pick.
pub proof fn lemma_best_is_unique(devices: Seq<PhysicalDeviceInfo>, i: int, j: int)
    requires
        is_best(devices, i),
        is_best(devices, j),
    ensures
        i == j,
{
}

/// A device without a family that takes graphics commands, or without one
/// that can present to the surface, cannot be used.
pub proof fn lemma_missing_queue_family_is_invalid(device: PhysicalDeviceInfo)
    requires
        (forall|i: int|
            0 <= i < device.families@.len() ==> !(#[trigger] device.families@[i]).supports_graphics)
            || (forall|i: int|
            0 <= i < device.families@.len() ==> !(#[trigger] device.families@[i]).supports_present),
    ensures
        !device.valid(),
{
    lemma_first_graphics_family(device.families@);
    lemma_first_present_family(device.families@);
}

/// A device that lacks one of the required extensions cannot be used,
/// whatever its queue families are.
pub proof fn lemma_missing_extension_is_invalid(device: PhysicalDeviceInfo, name: Seq<char>)
    requires
        required_extension_names().contains(name),
        !enabled_extensions(device.supported_extensions).contains(name),
    ensures
        !device.valid(),
{
}

/// A usable discrete GPU ranks above a usable device of another kind,
/// whatever their greatest image dimensions are.
pub proof fn lemma_discrete_ranks_higher(discrete: PhysicalDeviceInfo, other: PhysicalDeviceInfo)
    requires
        discrete.valid(),
        other.valid(),
        discrete.discrete(),
        !other.discrete(),
    ensures
        discrete.ranks_above(&other),
        !other.ranks_above(&discrete),
        discrete.order(&other) == Ordering::Greater,
{
}

/// Of two usable devices that are both discrete GPUs, or both not, the one
/// with the greater image dimension ranks above the other, and has the
/// higher score.
pub proof fn lemma_larger_dimension_ranks_higher(
    larger: PhysicalDeviceInfo,
    smaller: PhysicalDeviceInfo,
)
    requires
        larger.valid(),
        smaller.valid(),
        larger.discrete() == smaller.discrete(),
        larger.max_image_dimension_2d > smaller.max_image_dimension_2d,
    ensures
        larger.ranks_above(&smaller),
        !smaller.ranks_above(&larger),
        larger.order(&smaller) == Ordering::Greater,
        larger.points() > smaller.points(),
{
}

/// The device that is picked is a usable one that no usable device comes
/// after in the order, and every usable device before it comes before it
/// in the order.
pub proof fn lemma_best_in_order(devices: Seq<PhysicalDeviceInfo>, i: int, j: int)
    requires
        is_best(devices, i),
        0 <= j < devices.len(),
        devices[j].valid(),
    ensures
        devices[j].order(&devices[i]) != Ordering::Greater,
        j < i ==> devices[j].order(&devices[i]) == Ordering::Less,
{
    lemma_order_follows_rank(devices[j], devices[i]);
}

} // verus!
