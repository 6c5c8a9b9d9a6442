//! Start-up decisions for a Vulkan presentation context.
//!
//! The crate answers, from values that a driver reports, the questions that
//! have to be settled before anything is drawn: which queue families serve
//! graphics and presentation, whether a physical device can be used at all,
//! which of the usable devices is the best one, and how the swapchain on the
//! chosen device is to be configured.  Every answer is a function from plain
//! values to plain values, and each one carries a contract that the verifier
//! has proved.

pub mod config;
pub mod indented_printer;
pub mod init;
pub mod logical_device;
pub mod physical_device_info;
pub mod queue_families;
pub mod swapchain_info;
pub mod vulkano_ext;

pub use indented_printer::IndentedPrinter;
pub use physical_device_info::PhysicalDeviceInfo;
pub use queue_families::QueueFamilies;
pub use swapchain_info::SwapchainInfo;
