//! What the keys do in the two views.

use vstd::prelude::*;

use super::state::{ChannelSelectorState, InputMode, SelectorResult};
use super::title_viewer::model::{page_url, syoboi_page_url};
use super::title_viewer::state::{
    ActivePane as ViewerPane, InputMode as ViewerMode, TitleViewerState,
};

verus! {

/// A key press, as far as the views tell keys apart.
#[derive(Debug, Clone, Copy, PartialEq, Eq, Structural)]
pub enum Key {
    /// A character key.
    Char(char),
    /// Escape.
    Esc,
    /// Enter.
    Enter,
    /// Backspace.
    Backspace,
    /// Tab.
    Tab,
    /// Shift and tab.
    BackTab,
    /// Arrow up.
    Up,
    /// Arrow down.
    Down,
    /// Arrow left.
    Left,
    /// Arrow right.
    Right,
    /// Page up.
    PageUp,
    /// Page down.
    PageDown,
    /// Any other key.
    Other,
}

/// What the viewer does after a key.
#[derive(Debug)]
pub enum ViewerAction {
    /// Go on.
    Continue,
    /// Leave the viewer.
    Quit,
    /// Open the page at this address, then go on.
    Open { url: String },
}

/// Whether `post` is the selector `pre` after `key` in filter mode: escape
/// clears the filter and leaves the mode, enter leaves the mode, backspace
/// and characters edit the filter.
pub open spec fn selector_filter_key(
    pre: &ChannelSelectorState,
    post: &ChannelSelectorState,
    key: Key,
) -> bool {
    match key {
        Key::Esc => pre.filter_set(post, Seq::empty()) && post.input_mode == InputMode::Normal,
        Key::Enter => pre.groups == post.groups && pre.selected == post.selected
            && pre.active_pane == post.active_pane && pre.group_cursor == post.group_cursor
            && pre.channel_cursor == post.channel_cursor && pre.filter == post.filter
            && pre.cache == post.cache && post.input_mode == InputMode::Normal,
        Key::Backspace => pre.filter_popped(post) && post.input_mode == pre.input_mode,
        Key::Char(c) => pre.filter_pushed(post, c) && post.input_mode == pre.input_mode,
        _ => *post == *pre,
    }
}

/// How `key` leaves the selector in normal mode, if it does: `q`, escape
/// and control-c cancel, enter confirms.
pub open spec fn selector_exit(key: Key, control: bool) -> Option<SelectorResult> {
    match key {
        Key::Char(c) => if c == 'q' || (c == 'c' && control) {
            Some(SelectorResult::Cancelled)
        } else {
            None
        },
        Key::Esc => Some(SelectorResult::Cancelled),
        Key::Enter => Some(SelectorResult::Confirmed),
        _ => None,
    }
}

/// Whether `post` is the selector `pre` after `key` in normal mode.
pub open spec fn selector_normal_key(
    pre: &ChannelSelectorState,
    post: &ChannelSelectorState,
    key: Key,
    control: bool,
) -> bool {
    if selector_exit(key, control) is Some {
        *post == *pre
    } else {
        match key {
            Key::Tab | Key::BackTab => pre.pane_switched(post) && post.input_mode == pre.input_mode,
            Key::Up => pre.moved_up(post) && post.input_mode == pre.input_mode,
            Key::Down => pre.moved_down(post) && post.input_mode == pre.input_mode,
            Key::Char(c) => if c == 'k' {
                pre.moved_up(post) && post.input_mode == pre.input_mode
            } else if c == 'j' {
                pre.moved_down(post) && post.input_mode == pre.input_mode
            } else if c == ' ' {
                pre.current_toggled(post) && post.input_mode == pre.input_mode
            } else if c == 'a' {
                pre.group_selected(post) && post.input_mode == pre.input_mode
            } else if c == 'A' {
                pre.group_deselected(post) && post.input_mode == pre.input_mode
            } else if c == '/' {
                pre.groups == post.groups && pre.selected == post.selected && pre.active_pane
                    == post.active_pane && pre.group_cursor == post.group_cursor
                    && pre.channel_cursor == post.channel_cursor && pre.filter == post.filter
                    && pre.cache == post.cache && post.input_mode == InputMode::Filter
            } else {
                *post == *pre
            },
            _ => *post == *pre,
        }
    }
}

/// Takes a key of the selector in filter mode. No such key leaves the
/// selector.
pub fn handle_filter_input(state: &mut ChannelSelectorState, key: Key) -> (exit: Option<
    SelectorResult,
>)
    ensures
        exit is None,
        selector_filter_key(old(state), final(state), key),
{
    match key {
        Key::Esc => {
            state.input_mode = InputMode::Normal;
            state.set_filter(String::new());
        },
        Key::Enter => {
            state.input_mode = InputMode::Normal;
        },
        Key::Backspace => {
            state.filter_pop();
        },
        Key::Char(c) => {
            state.filter_push(c);
        },
        _ => {},
    }
    None
}

/// Takes a key of the selector in normal mode; `control` tells whether the
/// control key was held. Returns how the selector is left, if it is.
pub fn handle_normal_input(state: &mut ChannelSelectorState, key: Key, control: bool) -> (exit:
    Option<SelectorResult>)
    ensures
        exit == selector_exit(key, control),
        selector_normal_key(old(state), final(state), key, control),
{
    match key {
        Key::Esc => {
            return Some(SelectorResult::Cancelled);
        },
        Key::Enter => {
            return Some(SelectorResult::Confirmed);
        },
        Key::Tab | Key::BackTab => state.switch_pane(),
        Key::Up => state.move_up(),
        Key::Down => state.move_down(),
        Key::Char(c) => {
            if c == 'q' || (c == 'c' && control) {
                return Some(SelectorResult::Cancelled);
            } else if c == 'k' {
                state.move_up();
            } else if c == 'j' {
                state.move_down();
            } else if c == ' ' {
                state.toggle_current();
            } else if c == 'a' {
                state.select_all_in_group();
            } else if c == 'A' {
                state.deselect_all_in_group();
            } else if c == '/' {
                state.input_mode = InputMode::Filter;
            }
        },
        _ => {},
    }
    None
}

/// Whether `post` is the viewer `pre` after `key` in filter mode.
pub open spec fn viewer_filter_key(pre: &TitleViewerState, post: &TitleViewerState, key: Key) -> bool {
    match key {
        Key::Esc => pre.filtered_by(post, Seq::empty()) && post.input_mode == ViewerMode::Normal,
        Key::Enter => pre.same_but_cursor(post) && pre.active_pane == post.active_pane
            && pre.title_selected == post.title_selected && pre.program_selected
            == post.program_selected && post.input_mode == ViewerMode::Normal,
        Key::Backspace => pre.filtered_by(
            post,
            if pre.filter@.len() > 0 {
                pre.filter@.drop_last()
            } else {
                pre.filter@
            },
        ) && post.input_mode == pre.input_mode,
        Key::Char(c) => pre.filtered_by(post, pre.filter@.push(c)) && post.input_mode
            == pre.input_mode,
        _ => *post == *pre,
    }
}

/// Whether `key` leaves the viewer in normal mode: `q` and control-c do.
pub open spec fn viewer_quits(key: Key, control: bool) -> bool {
    key matches Key::Char(c) && (c == 'q' || (c == 'c' && control))
}

/// Whether `post` is the viewer `pre` after `key` in normal mode, with
/// `page_size` entries to a page.
pub open spec fn viewer_normal_key(
    pre: &TitleViewerState,
    post: &TitleViewerState,
    key: Key,
    control: bool,
    page_size: usize,
) -> bool {
    if viewer_quits(key, control) {
        *post == *pre
    } else {
        match key {
            Key::Up => pre.moved_up(post) && post.input_mode == pre.input_mode,
            Key::Down => pre.moved_down(post) && post.input_mode == pre.input_mode,
            Key::Right => pre.programs_focused(post) && post.input_mode == pre.input_mode,
            Key::Left => pre.titles_focused(post) && post.input_mode == pre.input_mode,
            Key::PageUp => pre.paged_up(post, page_size) && post.input_mode == pre.input_mode,
            Key::PageDown => pre.paged_down(post, page_size) && post.input_mode
                == pre.input_mode,
            Key::Char(c) => if c == 'k' {
                pre.moved_up(post) && post.input_mode == pre.input_mode
            } else if c == 'j' {
                pre.moved_down(post) && post.input_mode == pre.input_mode
            } else if c == '/' && pre.active_pane == ViewerPane::Titles {
                pre.same_but_cursor(post) && pre.active_pane == post.active_pane
                    && pre.title_selected == post.title_selected && pre.program_selected
                    == post.program_selected && post.input_mode == ViewerMode::Filter
            } else {
                *post == *pre
            },
            _ => *post == *pre,
        }
    }
}

/// Whether `action` is what the viewer `pre` does after `key` in normal
/// mode: quit, open the page of what is under the cursor on `o`, or go on.
pub open spec fn viewer_action(pre: &TitleViewerState, key: Key, control: bool, action: ViewerAction) -> bool {
    if viewer_quits(key, control) {
        action is Quit
    } else if key == Key::Char('o') {
        match page_url(pre) {
            Some(url) => action matches ViewerAction::Open { url: found } && found@ == url,
            None => action is Continue,
        }
    } else {
        action is Continue
    }
}

/// Takes a key of the viewer in filter mode. Returns whether the viewer
/// is left, which no such key does.
pub fn handle_viewer_filter_input(state: &mut TitleViewerState, key: Key) -> (exit: bool)
    ensures
        !exit,
        viewer_filter_key(old(state), final(state), key),
{
    match key {
        Key::Esc => {
            state.set_filter(String::new());
            state.input_mode = ViewerMode::Normal;
        },
        Key::Enter => {
            state.input_mode = ViewerMode::Normal;
        },
        Key::Backspace => {
            state.filter_pop();
        },
        Key::Char(c) => {
            state.filter_push(c);
        },
        _ => {},
    }
    false
}

/// Takes a key of the viewer in normal mode; `control` tells whether the
/// control key was held, `page_size` how many entries make a page.
pub fn handle_viewer_normal_input(
    state: &mut TitleViewerState,
    key: Key,
    control: bool,
    page_size: usize,
) -> (action: ViewerAction)
    ensures
        viewer_normal_key(old(state), final(state), key, control, page_size),
        viewer_action(old(state), key, control, action),
{
    match key {
        Key::Up => state.move_up(),
        Key::Down => state.move_down(),
        Key::Right => state.focus_programs(),
        Key::Left => state.focus_titles(),
        Key::PageUp => state.page_up(page_size),
        Key::PageDown => state.page_down(page_size),
        Key::Char(c) => {
            if c == 'q' || (c == 'c' && control) {
                return ViewerAction::Quit;
            } else if c == 'k' {
                state.move_up();
            } else if c == 'j' {
                state.move_down();
            } else if c == '/' {
                if state.active_pane == ViewerPane::Titles {
                    state.input_mode = ViewerMode::Filter;
                }
            } else if c == 'o' {
                return match syoboi_page_url(state) {
                    Some(url) => ViewerAction::Open { url },
                    None => ViewerAction::Continue,
                };
            }
        },
        _ => {},
    }
    ViewerAction::Continue
}

} // verus!
