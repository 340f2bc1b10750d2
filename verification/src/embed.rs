//! Choosing where an overlay window is embedded. The native lookup and the
//! reparenting themselves are the windowing collaborator's job; this module
//! only decides what to look for and whether a lookup result is usable.

use vstd::prelude::*;

verus! {

/// A host request naming the native window an overlay should be embedded
/// into.
pub enum EmbedTarget {
    /// The system taskbar, found by its well-known window class.
    Taskbar,
    /// The desktop, found by a dedicated handle lookup rather than a class
    /// search.
    Desktop,
    /// Any window, found by a caller-supplied class name.
    AnyClass { class_name: String },
}

/// The native window class to search for, or `None` when the desktop handle
/// is looked up directly.
pub fn embed_class_name(target: &EmbedTarget) -> (r: Option<&str>)
    ensures
        target is Taskbar ==> (r matches Some(s) && s@ == "Shell_TrayWnd"@),
        target matches EmbedTarget::AnyClass { class_name } ==> (r matches Some(s) && s@
            == class_name@),
        target is Desktop ==> r is None,
{
    match target {
        EmbedTarget::Taskbar => Some("Shell_TrayWnd"),
        EmbedTarget::Desktop => None,
        EmbedTarget::AnyClass { class_name } => Some(class_name.as_str()),
    }
}

/// Decides what to do with the handle a native lookup returned: a null
/// handle means the target was not found and embedding is skipped, so no
/// window is created or destroyed.
pub fn resolve_embed_handle(handle: u64) -> (r: Option<u64>)
    ensures
        r == (if handle == 0 {
            None::<u64>
        } else {
            Some(handle)
        }),
{
    if handle == 0 {
        None
    } else {
        Some(handle)
    }
}

} // verus!
