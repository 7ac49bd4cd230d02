//! Alt-Tab style workspace switching for a tiling window manager.
//!
//! The library holds the two pieces of logic of the switcher: the key
//! interception state machine, which decides for each raw input event whether
//! it is forwarded to the synthetic device and which switch event it raises,
//! and the most-recently-used ordering of workspaces with its cycle cursor.
//! Device access and window-manager IPC are left to the caller.

mod events;
mod interceptor;
mod switcher;
mod tree;

pub use events::{WorkspaceChange, WorkspaceChangeNotice, WorkspaceSwitcherEvent};
pub use interceptor::{
    decide, emitted, forwarded, is_chord_key, is_modifier_edge, is_modifier_release,
    is_trigger_press, lemma_held_triggers_are_swallowed, lemma_other_events_pass_through,
    lemma_trigger_forwarded_when_idle, next_state, not_trigger_presses, outside_chord,
    state_after, trigger_presses, AltTabInterceptor, ConfigError, EventDecision, InterceptState,
    KeyConfig, RawKeyEvent, EV_KEY, KEY_PRESSED, KEY_RELEASED, KEY_REPEATED,
};
pub use switcher::{
    commit, empty_step, end_modifier_step, focus_step, init_event, init_step,
    lemma_init_idempotent, notice_step, promote, step, trigger_step, AltTabWorkspaceSwitcher,
    MruState,
};
pub use tree::{
    first_in_output, first_in_outputs, focus_command, name_by_id, workspace_name_by_id,
    OutputNode, WorkspaceNode, WorkspaceTree,
};
