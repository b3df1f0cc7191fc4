//! The single shared mutable aggregate and the render/tick loop's decisions.
//!
//! `SharedAppState` is the one value both execution contexts touch, guarded
//! outside this crate by a single lock; every cached listing inside it is
//! replaced wholesale, never edited in place, so a reader can never observe a
//! list mid-mutation. The render loop's per-event behaviour lives in
//! [`SharedAppState::ui_step`]: the quit key sets the quit flag, other input
//! is routed onward, and each tick advances the counter and — exactly on the
//! throttle boundary — emits one refresh command for the active tab.

use vstd::prelude::*;
use vstd::arithmetic::div_mod::{
    lemma_fundamental_div_mod, lemma_mod_bound, lemma_mod_multiples_basic,
};
use crate::command::{Command, ResourceKind};
use crate::event::{Event, Key};
use crate::records::{Namespace, Node, NodeMetrics, Pod, Service};
use crate::selectable_list::SelectableList;

verus! {

/// Rows of the terminal that the chrome around the help menu occupies.
pub const HELP_MENU_RESERVED_LINES: u16 = 8;

/// The cached terminal dimensions.
#[derive(Clone, Copy, Debug, PartialEq, Eq, Structural)]
pub struct TermSize {
    pub width: u16,
    pub height: u16,
}

/// How many help-menu lines fit a terminal of the given height:
/// the height minus the reserved chrome, and never negative.
pub open spec fn help_menu_lines(height: u16) -> u32 {
    if height > HELP_MENU_RESERVED_LINES {
        (height - HELP_MENU_RESERVED_LINES) as u32
    } else {
        0
    }
}

/// A tick whose count is an exact multiple of the tick/poll ratio crosses the
/// throttle boundary and triggers a backend refresh.
pub open spec fn is_refresh_tick(count: int, ratio: int) -> bool {
    count % ratio == 0
}

/// Which resource kind a tab of the resources pane shows, if any; the
/// trailing tabs are placeholders with nothing to refresh.
pub open spec fn tab_kind(tab: usize) -> Option<ResourceKind> {
    if tab == 0 {
        Some(ResourceKind::Pods)
    } else if tab == 1 {
        Some(ResourceKind::Services)
    } else if tab == 2 {
        Some(ResourceKind::Nodes)
    } else {
        None
    }
}

/// What the render loop asks of its caller after consuming one event.
#[derive(Clone, Debug, PartialEq, Eq)]
pub enum UiAction {
    /// The quit key was pressed: leave the loop and restore the terminal.
    Quit,
    /// Hand this key to the active view's key handler.
    Route(Key),
    /// Enqueue this refresh command for the worker.
    Refresh(Command),
    /// Nothing to do this iteration.
    Idle,
}

/// The single aggregate of all cached and displayed state.
///
/// Created once at startup with empty listings and guarded by one lock for
/// the whole process lifetime. Each cached list is replaced atomically; stale
/// data outlives a failed fetch (see the worker module).
#[derive(Debug)]
pub struct SharedAppState {
    /// Coarse signal that some fetch is in flight; it is shared across all
    /// resource kinds, not tracked per kind.
    pub is_loading: bool,
    /// The message of the most recent failed fetch, cleared by any success.
    pub last_error: Option<String>,
    pub namespaces: SelectableList<Namespace>,
    pub pods: SelectableList<Pod>,
    pub nodes: SelectableList<Node>,
    pub services: SelectableList<Service>,
    pub node_metrics: Vec<NodeMetrics>,
    /// The namespace filter for scoped listings; `None` means all.
    pub selected_ns: Option<String>,
    /// Index of the active tab of the resources pane.
    pub active_tab: usize,
    /// The terminal size the current layout was computed for.
    pub size: TermSize,
    pub help_menu_max_lines: u32,
    pub help_menu_offset: u32,
    pub help_menu_page: u32,
    /// Ticks consumed so far.
    pub tick_count: u64,
    /// Ticks between consecutive refresh commands; at least 1.
    pub ratio: u64,
    pub should_quit: bool,
}

impl SharedAppState {
    /// The ratio was validated at startup and every cursor is in bounds.
    pub open spec fn well_formed(self) -> bool {
        &&& self.ratio >= 1
        &&& self.namespaces.well_formed()
        &&& self.pods.well_formed()
        &&& self.nodes.well_formed()
        &&& self.services.well_formed()
    }

    /// The state the process starts from: empty listings, no error, tick
    /// counter at zero, and the validated tick/poll ratio.
    pub fn new(ratio: u64) -> (r: Self)
        requires
            ratio >= 1,
        ensures
            r.well_formed(),
            !r.is_loading,
            r.last_error is None,
            r.namespaces.items@.len() == 0,
            r.pods.items@.len() == 0,
            r.nodes.items@.len() == 0,
            r.services.items@.len() == 0,
            r.node_metrics@.len() == 0,
            r.selected_ns is None,
            r.active_tab == 0,
            r.size == (TermSize { width: 0, height: 0 }),
            r.help_menu_max_lines == 0,
            r.help_menu_offset == 0,
            r.help_menu_page == 0,
            r.tick_count == 0,
            r.ratio == ratio,
            !r.should_quit,
    {
        SharedAppState {
            is_loading: false,
            last_error: None,
            namespaces: SelectableList::new(),
            pods: SelectableList::new(),
            nodes: SelectableList::new(),
            services: SelectableList::new(),
            node_metrics: Vec::new(),
            selected_ns: None,
            active_tab: 0,
            size: TermSize { width: 0, height: 0 },
            help_menu_max_lines: 0,
            help_menu_offset: 0,
            help_menu_page: 0,
            tick_count: 0,
            ratio,
            should_quit: false,
        }
    }

    /// This state with its layout recomputed for a new terminal size: the
    /// help-menu line budget follows the new height and the help pagination
    /// is reset; everything else is untouched.
    pub open spec fn with_layout_for(self, live: TermSize) -> Self {
        SharedAppState {
            size: live,
            help_menu_max_lines: help_menu_lines(live.height),
            help_menu_offset: 0,
            help_menu_page: 0,
            ..self
        }
    }

    /// This state after one tick: only the counter has advanced.
    pub open spec fn with_next_tick(self) -> Self {
        SharedAppState { tick_count: (self.tick_count + 1) as u64, ..self }
    }

    /// This state with the quit flag raised.
    pub open spec fn with_quit(self) -> Self {
        SharedAppState { should_quit: true, ..self }
    }

    /// This state with the coarse loading signal raised.
    pub open spec fn with_loading(self) -> Self {
        SharedAppState { is_loading: true, ..self }
    }

    /// Reconciles the cached terminal size with the live one. On a change,
    /// the help-menu line budget is recomputed from the new height and the
    /// help pagination is reset so no offset can reference rows that are no
    /// longer visible; an unchanged size leaves the state untouched.
    pub fn handle_resize(&mut self, live: TermSize)
        ensures
            old(self).size == live ==> *final(self) == *old(self),
            old(self).size != live ==> *final(self) == old(self).with_layout_for(live),
            final(self).well_formed() == old(self).well_formed(),
    {
        if self.size != live {
            self.help_menu_offset = 0;
            self.help_menu_page = 0;
            self.size = live;
            if live.height > HELP_MENU_RESERVED_LINES {
                self.help_menu_max_lines = (live.height - HELP_MENU_RESERVED_LINES) as u32;
            } else {
                self.help_menu_max_lines = 0;
            }
        }
    }

    /// The refresh command the active tab calls for: a namespace-scoped pod
    /// or service listing under the current filter, a node listing, or
    /// nothing when a placeholder tab is active.
    pub open spec fn spec_refresh_command(self) -> Option<Command> {
        match tab_kind(self.active_tab) {
            Some(ResourceKind::Pods) => Some(
                Command::ListPods { namespace: self.selected_ns },
            ),
            Some(ResourceKind::Services) => Some(
                Command::ListServices { namespace: self.selected_ns },
            ),
            Some(ResourceKind::Nodes) => Some(Command::ListNodes),
            Some(_) => None,
            None => None,
        }
    }

    /// Builds the refresh command for the active tab.
    pub fn refresh_command(&self) -> (r: Option<Command>)
        ensures
            r == self.spec_refresh_command(),
    {
        let ns: Option<String> = match &self.selected_ns {
            Some(s) => Some(s.clone()),
            None => None,
        };
        assert(ns == self.selected_ns);
        if self.active_tab == 0 {
            Some(Command::ListPods { namespace: ns })
        } else if self.active_tab == 1 {
            Some(Command::ListServices { namespace: ns })
        } else if self.active_tab == 2 {
            Some(Command::ListNodes)
        } else {
            None
        }
    }

    /// Consumes one tick: the counter advances by one, and exactly when the
    /// new count crosses the throttle boundary the active tab's refresh
    /// command is handed back for enqueueing. Nothing else changes, so the
    /// fast render cadence never disturbs the cached data.
    pub fn on_tick(&mut self) -> (cmd: Option<Command>)
        requires
            old(self).well_formed(),
            old(self).tick_count < u64::MAX,
        ensures
            final(self).well_formed(),
            *final(self) == old(self).with_next_tick(),
            cmd is Some <==> (is_refresh_tick(
                old(self).tick_count + 1,
                old(self).ratio as int,
            ) && old(self).spec_refresh_command() is Some),
            cmd is Some ==> cmd == old(self).spec_refresh_command(),
    {
        self.tick_count = self.tick_count + 1;
        if self.tick_count % self.ratio == 0 {
            self.refresh_command()
        } else {
            None
        }
    }

    /// Consumes one event of the merged stream. The quit key sets the quit
    /// flag and asks the caller to leave the loop; any other key is routed to
    /// the active view's handler untouched; a tick advances the throttle and
    /// may yield a refresh command.
    pub fn ui_step(&mut self, ev: Event) -> (r: UiAction)
        requires
            old(self).well_formed(),
            old(self).tick_count < u64::MAX,
        ensures
            final(self).well_formed(),
            ev == Event::Input(Key::Ctrl('c')) ==> (r == UiAction::Quit
                && *final(self) == old(self).with_quit()),
            ev matches Event::Input(k) ==> k != Key::Ctrl('c') ==> r == UiAction::Route(k)
                && *final(self) == *old(self),
            ev == Event::Tick ==> *final(self) == old(self).with_next_tick(),
            ev == Event::Tick ==> r == (if is_refresh_tick(
                old(self).tick_count + 1,
                old(self).ratio as int,
            ) && old(self).spec_refresh_command() is Some {
                UiAction::Refresh(old(self).spec_refresh_command().unwrap())
            } else {
                UiAction::Idle
            }),
            final(self).should_quit == (old(self).should_quit
                || ev == Event::Input(Key::Ctrl('c'))),
    {
        match ev {
            Event::Input(key) => {
                if key == Key::Ctrl('c') {
                    self.should_quit = true;
                    UiAction::Quit
                } else {
                    UiAction::Route(key)
                }
            }
            Event::Tick => {
                match self.on_tick() {
                    Some(cmd) => UiAction::Refresh(cmd),
                    None => UiAction::Idle,
                }
            }
        }
    }
}

/// Law: with a tick/poll ratio of `k`, a refresh is enqueued exactly once in
/// every window of `k` consecutive ticks — some tick count in the window
/// crosses the throttle boundary, and no two distinct counts in it do.
pub proof fn lemma_refresh_cadence(n: int, k: int)
    requires
        0 <= n,
        1 <= k,
    ensures
        exists|c: int| n < c <= n + k && #[trigger] is_refresh_tick(c, k),
        forall|c1: int, c2: int|
            n < c1 <= n + k && n < c2 <= n + k && #[trigger] is_refresh_tick(c1, k)
                && #[trigger] is_refresh_tick(c2, k) ==> c1 == c2,
{
    lemma_mod_bound(n, k);
    lemma_fundamental_div_mod(n, k);
    let q = n / k;
    let c0 = n + k - n % k;
    assert(n == k * q + n % k);
    assert(c0 == (q + 1) * k) by (nonlinear_arith)
        requires
            n == k * q + n % k,
            c0 == n + k - n % k,
    ;
    lemma_mod_multiples_basic(q + 1, k);
    assert(is_refresh_tick(c0, k));
    assert(n < c0 <= n + k);
    assert forall|c1: int, c2: int|
        n < c1 <= n + k && n < c2 <= n + k && #[trigger] is_refresh_tick(c1, k)
            && #[trigger] is_refresh_tick(c2, k) implies c1 == c2 by {
        lemma_fundamental_div_mod(c1, k);
        lemma_fundamental_div_mod(c2, k);
        let a = c1 / k;
        let b = c2 / k;
        assert(c1 == a * k && c2 == b * k);
        assert(c1 == c2) by (nonlinear_arith)
            requires c1 == a * k, c2 == b * k, k >= 1, c1 - c2 < k, c2 - c1 < k;
    }
}

} // verus!
