//! Pure decisions the frame renderer needs.
//!
//! Drawing itself — widgets, styling, layout splitting — happens outside this
//! crate, in the shell that owns the terminal. What is decided here is only
//! which content a tab index selects (a tagged variant instead of magic
//! indices, so exhaustiveness is checkable) and the small bits of text logic
//! the views share.

use vstd::prelude::*;
use crate::command::ResourceKind;
use crate::state::tab_kind;

verus! {

/// What the resources pane shows for one tab index.
#[derive(Clone, Copy, Debug, PartialEq, Eq, Structural)]
pub enum TabContent {
    Pods,
    Services,
    Nodes,
    /// A reserved tab with no table behind it yet.
    Placeholder,
    /// An index beyond the reserved tabs: nothing is drawn.
    Blank,
}

/// Maps a tab index to its content. The three leading tabs carry the three
/// resource tables, agreeing with the scheduler's notion of which resource
/// kind the active tab refreshes; the next five are placeholders.
pub fn tab_content(tab: usize) -> (r: TabContent)
    ensures
        tab == 0 ==> r == TabContent::Pods,
        tab == 1 ==> r == TabContent::Services,
        tab == 2 ==> r == TabContent::Nodes,
        3 <= tab <= 7 ==> r == TabContent::Placeholder,
        tab > 7 ==> r == TabContent::Blank,
        r == TabContent::Pods <==> tab_kind(tab) == Some(ResourceKind::Pods),
        r == TabContent::Services <==> tab_kind(tab) == Some(ResourceKind::Services),
        r == TabContent::Nodes <==> tab_kind(tab) == Some(ResourceKind::Nodes),
{
    if tab == 0 {
        TabContent::Pods
    } else if tab == 1 {
        TabContent::Services
    } else if tab == 2 {
        TabContent::Nodes
    } else if tab <= 7 {
        TabContent::Placeholder
    } else {
        TabContent::Blank
    }
}

/// The suffix the logo shows while a fetch is in flight: an ellipsis during
/// loading, nothing otherwise.
pub fn nw_loading_indicator<'a>(loading: bool) -> (r: &'a str)
    ensures
        loading ==> r@ == "..."@,
        !loading ==> r@ == ""@,
{
    if loading {
        "..."
    } else {
        ""
    }
}

} // verus!
