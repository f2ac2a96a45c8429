//! WebKitGTK's DMA-BUF renderer, which paints a blank window under the
//! proprietary NVIDIA driver: when to turn it off.

use vstd::prelude::*;

verus! {

/// What WebKitGTK reads to know whether it should avoid DMA-BUF.
pub const VARIABLE: &'static str = "WEBKIT_DISABLE_DMABUF_RENDERER";

/// The kernel module, present only with the proprietary driver.
pub const NVIDIA_MODULE: &'static str = "/sys/module/nvidia";

/// The decision: off under NVIDIA, unless someone already chose. Whoever
/// set the variable has a reason, and overwriting it would take away the
/// only way to say so.
pub fn should_disable_dmabuf(nvidia_loaded: bool, already_chosen: bool) -> (r: bool)
    ensures
        r == (nvidia_loaded && !already_chosen),
{
    nvidia_loaded && !already_chosen
}

} // verus!
