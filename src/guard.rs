//! The destroy guard: the filter that a thread-scoped native hook applies to
//! every "about to destroy a window" notification in the process.
//!
//! Windows of this library carry a marker in their class storage and in their
//! own storage; their destruction is allowed only once their owner raised the
//! window's destroy flag. Every other notification is forwarded untouched.

use vstd::prelude::*;

verus! {

/// The hook code of a pre-destruction notification.
pub const HCBT_DESTROYWND: i32 = 4;

/// The tag that marks a window class, and each window of it, as this
/// library's: the bytes "viri" read as a big-endian integer.
pub const LIBRARY_WINDOW_MARKER: u32 = 0x7669_7269;

/// What the hook does with a notification.
#[derive(Clone, Copy, Debug, PartialEq, Eq, Structural)]
pub enum HookDecision {
    /// Let the window be destroyed.
    Allow,
    /// Veto the destruction: the window stays alive.
    Prevent,
    /// Not ours to decide: pass the notification on unchanged.
    Forward,
}

impl HookDecision {
    /// The value the hook returns for a decision it takes itself (0 allows,
    /// 1 prevents); `None` when the notification is forwarded instead.
    pub fn hook_result(self) -> (r: Option<isize>)
        ensures
            self == HookDecision::Allow ==> r == Some(0isize),
            self == HookDecision::Prevent ==> r == Some(1isize),
            self == HookDecision::Forward ==> r is None,
    {
        match self {
            HookDecision::Allow => Some(0),
            HookDecision::Prevent => Some(1),
            HookDecision::Forward => None,
        }
    }
}

/// Whether a notification is a pre-destruction notification for a window of
/// this library: the class reserves one machine word of storage, and both the
/// class word and the window's tag hold the marker.
pub open spec fn is_library_target(code: i32, class_extra: usize, class_tag: usize, window_tag: usize) -> bool {
    &&& code == HCBT_DESTROYWND
    &&& class_extra as nat == vstd::layout::size_of::<usize>()
    &&& class_tag == LIBRARY_WINDOW_MARKER as usize
    &&& window_tag == LIBRARY_WINDOW_MARKER as usize
}

/// Whether the notification concerns one of this library's windows; only
/// then may the hook read that window's destroy flag.
pub fn is_library_window(code: i32, class_extra: usize, class_tag: usize, window_tag: usize) -> (r: bool)
    ensures
        r == is_library_target(code, class_extra, class_tag, window_tag),
{
    code == HCBT_DESTROYWND
        && class_extra == core::mem::size_of::<usize>()
        && class_tag == LIBRARY_WINDOW_MARKER as usize
        && window_tag == LIBRARY_WINDOW_MARKER as usize
}

/// The decision for a window of this library, by its destroy flag.
pub open spec fn flag_decision(destroy_flag: bool) -> HookDecision {
    if destroy_flag {
        HookDecision::Allow
    } else {
        HookDecision::Prevent
    }
}

/// The guard's decision on a notification. `destroy_flag` is the target's
/// flag where the target is this library's, and is ignored otherwise.
///
/// The filter is total: every notification that is not a pre-destruction
/// notification for a marked window is forwarded.
pub fn destroy_decision(code: i32, class_extra: usize, class_tag: usize, window_tag: usize, destroy_flag: bool) -> (r: HookDecision)
    ensures
        is_library_target(code, class_extra, class_tag, window_tag) ==> r == flag_decision(destroy_flag),
        !is_library_target(code, class_extra, class_tag, window_tag) ==> r == HookDecision::Forward,
{
    if is_library_window(code, class_extra, class_tag, window_tag) {
        if destroy_flag {
            HookDecision::Allow
        } else {
            HookDecision::Prevent
        }
    } else {
        HookDecision::Forward
    }
}

/// A window whose tag differs from the marker is never decided on: the
/// guard forwards the notification, whatever the window's flag.
pub proof fn lemma_unmarked_forwarded(code: i32, class_extra: usize, class_tag: usize, window_tag: usize)
    requires
        class_tag != LIBRARY_WINDOW_MARKER as usize || window_tag != LIBRARY_WINDOW_MARKER as usize,
    ensures
        !is_library_target(code, class_extra, class_tag, window_tag),
{
}

} // verus!
