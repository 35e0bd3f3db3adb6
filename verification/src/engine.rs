//! The event-loop state machine.
//!
//! The engine owns the window stack, the drag state and the binding
//! tables.  The surrounding program pulls one event at a time from the
//! windowing server, reduces it to plain values, and hands it in; the
//! engine mutates its state and returns the commands the program must
//! carry out against the server, in order.  The whole transition is
//! pinned down by the `step` relation: for every event, what the new
//! state is and exactly which commands come back.
//!
//! Events are handled strictly in delivery order, one at a time; the
//! engine is the sole owner of the stack and the drag state.

use vstd::prelude::*;

use crate::config::{keybinds_wf, Action, Config, Keybind, Mousebind};
use crate::dispatch::{
    find_keybind, find_mousebind, first_key_match, first_mouse_match,
    lemma_first_key_match_ensures, lemma_first_mouse_match_ensures,
};
use crate::layout;
use crate::layout::{
    maximize_geometry, moved_geometry, resized_geometry, shrink_geometry, stack_geometry, Geometry,
};
use crate::stack::{fronted, rotated_next, rotated_prev, swapped_front, WindowStack};
use crate::status;
use crate::status::status_line_spec;

verus! {

/// The transient drag state: everything captured when a button press
/// began a drag, consulted by every following motion event, cleared on
/// release.
#[derive(Clone, Copy, PartialEq, Eq, Structural, Debug)]
pub struct DragState {
    /// The button that began the drag; motion events are matched against
    /// the mouse-binding table by this button, not by their own.
    pub button: u32,
    /// The window under the pointer when the drag began.
    pub window: u64,
    /// Pointer root coordinates at press time.
    pub start_x_root: i32,
    pub start_y_root: i32,
    /// The dragged window's geometry at press time.
    pub attr: Geometry,
}

/// One server-delivered event, reduced to plain values by the surrounding
/// program: key presses arrive with their symbol already resolved, button
/// presses with the target window's geometry already queried (or `None`
/// when that query failed).
#[derive(Debug)]
pub enum Event {
    KeyPress { symbol: String, subwindow: u64 },
    ButtonPress { button: u32, subwindow: u64, x_root: i32, y_root: i32, attr: Option<Geometry> },
    Motion { x_root: i32, y_root: i32 },
    ButtonRelease,
    MapRequest { window: u64 },
    ConfigureRequest { window: u64 },
    DestroyNotify { window: u64 },
    /// Any event kind the engine does not react to.
    Other,
}

/// One command for the surrounding program to carry out against the
/// windowing server, in the order returned.
#[derive(PartialEq, Debug)]
pub enum Command {
    /// Print a farewell, close the server connection, end the process.
    Quit,
    /// Kill the client owning the window.
    KillClient { window: u64 },
    /// Launch the program `args[0]` with the remaining arguments,
    /// detached and unobserved.
    Spawn { args: Vec<String> },
    /// Move and resize the window to the geometry.
    MoveResize { window: u64, geometry: Geometry },
    /// Circulate the root's subwindows.
    Circulate,
    /// Raise the window.
    Raise { window: u64 },
    /// Map the window onto the screen.
    MapWindow { window: u64 },
    /// Answer a configure request with the geometry.
    Configure { window: u64, geometry: Geometry },
}

/// The engine: all mutable window-manager state, plus the immutable
/// configuration and binding tables.
pub struct Engine {
    pub config: Config,
    pub screen_width: i32,
    pub screen_height: i32,
    pub keybinds: Vec<Keybind>,
    pub mousebinds: Vec<Mousebind>,
    pub windows: WindowStack,
    pub drag: Option<DragState>,
    /// Cleared by the `quit` action; the surrounding loop stops once
    /// false.
    pub running: bool,
}

/// The drag state after a button press: a press over a window with a
/// known geometry begins a drag; one whose geometry could not be queried
/// degrades the drag to inactive; a press over no window leaves the drag
/// as it was.
pub open spec fn drag_after_press(
    old_drag: Option<DragState>,
    button: u32,
    subwindow: u64,
    x_root: i32,
    y_root: i32,
    attr: Option<Geometry>,
) -> Option<DragState> {
    if subwindow == 0 {
        old_drag
    } else {
        match attr {
            Some(a) => Some(
                DragState {
                    button,
                    window: subwindow,
                    start_x_root: x_root,
                    start_y_root: y_root,
                    attr: a,
                },
            ),
            None => None,
        }
    }
}

/// What firing one key binding does: which state change and which
/// commands each action stands for.  Actions on "the window under the
/// pointer" are silent no-ops when there is none (`subwindow` zero), and
/// the cycling actions also when the stack is too small to cycle.
pub open spec fn key_action_step(
    pre: Engine,
    kb: Keybind,
    subwindow: u64,
    post: Engine,
    cmds: Seq<Command>,
) -> bool {
    match kb.action {
        Action::Quit => {
            &&& post == Engine { running: false, ..pre }
            &&& cmds == seq![Command::Quit]
        },
        Action::Kill => {
            &&& post == pre
            &&& cmds == if subwindow != 0 {
                seq![Command::KillClient { window: subwindow }]
            } else {
                Seq::<Command>::empty()
            }
        },
        Action::Spawn => {
            &&& post == pre
            &&& cmds.len() == 1
            &&& (cmds[0] matches Command::Spawn { args } && args@ == kb.args@)
        },
        Action::Maximize => {
            &&& post == pre
            &&& cmds == if subwindow != 0 {
                seq![
                    Command::MoveResize {
                        window: subwindow,
                        geometry: maximize_geometry(
                            pre.screen_width as int,
                            pre.screen_height as int,
                        ),
                    },
                ]
            } else {
                Seq::<Command>::empty()
            }
        },
        Action::Stack => {
            &&& post == pre
            &&& cmds == if subwindow != 0 {
                seq![
                    Command::MoveResize {
                        window: subwindow,
                        geometry: stack_geometry(
                            pre.config,
                            pre.screen_width as int,
                            pre.screen_height as int,
                        ),
                    },
                ]
            } else {
                Seq::<Command>::empty()
            }
        },
        Action::Shrink => {
            &&& post == pre
            &&& cmds == if subwindow != 0 {
                seq![
                    Command::MoveResize {
                        window: subwindow,
                        geometry: shrink_geometry(
                            pre.config,
                            pre.screen_width as int,
                            pre.screen_height as int,
                        ),
                    },
                ]
            } else {
                Seq::<Command>::empty()
            }
        },
        Action::Next => {
            &&& post == Engine { windows: post.windows, ..pre }
            &&& if subwindow != 0 && pre.windows@.len() > 0 {
                post.windows@ == rotated_next(pre.windows@) && cmds == seq![Command::Circulate]
            } else {
                post.windows@ == pre.windows@ && cmds == Seq::<Command>::empty()
            }
        },
        Action::Prev => {
            &&& post == Engine { windows: post.windows, ..pre }
            &&& if subwindow != 0 && pre.windows@.len() > 0 {
                post.windows@ == rotated_prev(pre.windows@) && cmds == seq![Command::Circulate]
            } else {
                post.windows@ == pre.windows@ && cmds == Seq::<Command>::empty()
            }
        },
        Action::Last => {
            &&& post == Engine { windows: post.windows, ..pre }
            &&& if subwindow != 0 && pre.windows@.len() >= 2 {
                post.windows@ == swapped_front(pre.windows@) && cmds == seq![
                    Command::Raise { window: pre.windows@[1] },
                ]
            } else {
                post.windows@ == pre.windows@ && cmds == Seq::<Command>::empty()
            }
        },
        Action::Move => {
            &&& post == pre
            &&& cmds == Seq::<Command>::empty()
        },
        Action::Resize => {
            &&& post == pre
            &&& cmds == Seq::<Command>::empty()
        },
        Action::Unknown => {
            &&& post == pre
            &&& cmds == Seq::<Command>::empty()
        },
    }
}

/// What firing one mouse binding does during a drag: a move or resize of
/// the dragged window relative to its press-time geometry; any other
/// action is a silent no-op.
pub open spec fn mouse_action_step(
    mb: Mousebind,
    d: DragState,
    x_root: i32,
    y_root: i32,
    cmds: Seq<Command>,
) -> bool {
    match mb.action {
        Action::Move => cmds == seq![
            Command::MoveResize {
                window: d.window,
                geometry: moved_geometry(
                    d.attr,
                    d.start_x_root as int,
                    d.start_y_root as int,
                    x_root as int,
                    y_root as int,
                ),
            },
        ],
        Action::Resize => cmds == seq![
            Command::MoveResize {
                window: d.window,
                geometry: resized_geometry(
                    d.attr,
                    d.start_x_root as int,
                    d.start_y_root as int,
                    x_root as int,
                    y_root as int,
                ),
            },
        ],
        _ => cmds == Seq::<Command>::empty(),
    }
}

/// What a key press does: the first binding whose symbol matches fires,
/// and only that one; with no match the event is a silent no-op.
pub open spec fn key_step(
    pre: Engine,
    symbol: Seq<char>,
    subwindow: u64,
    post: Engine,
    cmds: Seq<Command>,
) -> bool {
    match first_key_match(pre.keybinds@, symbol) {
        None => post == pre && cmds == Seq::<Command>::empty(),
        Some(i) => key_action_step(pre, pre.keybinds@[i], subwindow, post, cmds),
    }
}

/// What a motion event does: nothing without an active drag; with one,
/// the first mouse binding for the drag's button fires.
pub open spec fn motion_step(pre: Engine, x_root: i32, y_root: i32, cmds: Seq<Command>) -> bool {
    match pre.drag {
        None => cmds == Seq::<Command>::empty(),
        Some(d) => match first_mouse_match(pre.mousebinds@, d.button) {
            None => cmds == Seq::<Command>::empty(),
            Some(i) => mouse_action_step(pre.mousebinds@[i], d, x_root, y_root, cmds),
        },
    }
}

/// The whole state machine: for every event, how the engine state after
/// the event relates to the state before it, and exactly which commands
/// come back.
pub open spec fn step(pre: Engine, ev: Event, post: Engine, cmds: Seq<Command>) -> bool {
    match ev {
        Event::KeyPress { symbol, subwindow } => key_step(pre, symbol@, subwindow, post, cmds),
        Event::ButtonPress { button, subwindow, x_root, y_root, attr } => {
            &&& post == Engine {
                drag: drag_after_press(pre.drag, button, subwindow, x_root, y_root, attr),
                ..pre
            }
            &&& cmds == Seq::<Command>::empty()
        },
        Event::Motion { x_root, y_root } => {
            &&& post == pre
            &&& motion_step(pre, x_root, y_root, cmds)
        },
        Event::ButtonRelease => {
            &&& post == Engine { drag: None, ..pre }
            &&& cmds == Seq::<Command>::empty()
        },
        Event::MapRequest { window } => {
            &&& post == Engine { windows: post.windows, ..pre }
            &&& post.windows@ == fronted(pre.windows@, window)
            &&& cmds == seq![
                Command::MapWindow { window },
                Command::MoveResize {
                    window,
                    geometry: stack_geometry(
                        pre.config,
                        pre.screen_width as int,
                        pre.screen_height as int,
                    ),
                },
            ]
        },
        Event::ConfigureRequest { window } => {
            &&& post == pre
            &&& cmds == seq![
                Command::Configure {
                    window,
                    geometry: stack_geometry(
                        pre.config,
                        pre.screen_width as int,
                        pre.screen_height as int,
                    ),
                },
            ]
        },
        Event::DestroyNotify { window } => {
            &&& post == Engine { windows: post.windows, ..pre }
            &&& post.windows@ == pre.windows@.remove_value(window)
            &&& cmds == Seq::<Command>::empty()
        },
        Event::Other => {
            &&& post == pre
            &&& cmds == Seq::<Command>::empty()
        },
    }
}

/// Fire one mouse binding during a drag: compute the move or resize the
/// pointer offset asks for.
pub fn parse_mouse(mb: &Mousebind, d: &DragState, x_root: i32, y_root: i32) -> (cmds: Vec<
    Command,
>)
    ensures
        mouse_action_step(*mb, *d, x_root, y_root, cmds@),
{
    let mut cmds: Vec<Command> = Vec::new();
    match mb.action {
        Action::Move => {
            let g = layout::move_win(&d.attr, d.start_x_root, d.start_y_root, x_root, y_root);
            cmds.push(Command::MoveResize { window: d.window, geometry: g });
            proof {
                assert(cmds@ =~= seq![Command::MoveResize { window: d.window, geometry: g }]);
            }
        },
        Action::Resize => {
            let g = layout::resize_win(&d.attr, d.start_x_root, d.start_y_root, x_root, y_root);
            cmds.push(Command::MoveResize { window: d.window, geometry: g });
            proof {
                assert(cmds@ =~= seq![Command::MoveResize { window: d.window, geometry: g }]);
            }
        },
        _ => {},
    }
    cmds
}

impl Engine {
    /// The engine's invariant: the stack holds no handle twice, and every
    /// `Spawn` binding carries a program to launch.
    pub open spec fn wf(&self) -> bool {
        &&& self.windows@.no_duplicates()
        &&& keybinds_wf(self.keybinds@)
    }

    /// A fresh engine: no windows, no drag, running.
    pub fn new(
        config: Config,
        screen_width: i32,
        screen_height: i32,
        keybinds: Vec<Keybind>,
        mousebinds: Vec<Mousebind>,
    ) -> (e: Engine)
        requires
            keybinds_wf(keybinds@),
        ensures
            e.wf(),
            e.config == config,
            e.screen_width == screen_width,
            e.screen_height == screen_height,
            e.keybinds == keybinds,
            e.mousebinds == mousebinds,
            e.windows@ == Seq::<u64>::empty(),
            e.drag is None,
            e.running == true,
    {
        Engine {
            config,
            screen_width,
            screen_height,
            keybinds,
            mousebinds,
            windows: WindowStack::new(),
            drag: None,
            running: true,
        }
    }

    /// Fire the key binding at index `i`: perform its action's state
    /// change and return its commands.
    pub fn parse_keys(&mut self, i: usize, subwindow: u64) -> (cmds: Vec<Command>)
        requires
            old(self).wf(),
            i < old(self).keybinds@.len(),
        ensures
            final(self).wf(),
            key_action_step(*old(self), old(self).keybinds@[i as int], subwindow, *final(self), cmds@),
    {
        let mut cmds: Vec<Command> = Vec::new();
        let action = self.keybinds[i].action;
        match action {
            Action::Quit => {
                self.running = false;
                cmds.push(Command::Quit);
                proof {
                    assert(cmds@ =~= seq![Command::Quit]);
                }
            },
            Action::Kill => {
                if subwindow != 0 {
                    cmds.push(Command::KillClient { window: subwindow });
                    proof {
                        assert(cmds@ =~= seq![Command::KillClient { window: subwindow }]);
                    }
                }
            },
            Action::Spawn => {
                let args = self.keybinds[i].args.clone();
                proof {
                    let kb_args = self.keybinds@[i as int].args;
                    assert forall|j: int| 0 <= j < args@.len() implies args@[j] == kb_args@[j] by {
                        assert(cloned::<String>(kb_args@[j], args@[j]));
                    }
                    assert(args@ =~= kb_args@);
                }
                cmds.push(Command::Spawn { args });
            },
            Action::Maximize => {
                if subwindow != 0 {
                    let g = layout::maximize(self.screen_width, self.screen_height);
                    cmds.push(Command::MoveResize { window: subwindow, geometry: g });
                    proof {
                        assert(cmds@ =~= seq![
                            Command::MoveResize { window: subwindow, geometry: g },
                        ]);
                    }
                }
            },
            Action::Stack => {
                if subwindow != 0 {
                    let g = layout::stack(&self.config, self.screen_width, self.screen_height);
                    cmds.push(Command::MoveResize { window: subwindow, geometry: g });
                    proof {
                        assert(cmds@ =~= seq![
                            Command::MoveResize { window: subwindow, geometry: g },
                        ]);
                    }
                }
            },
            Action::Shrink => {
                if subwindow != 0 {
                    let g = layout::shrink(&self.config, self.screen_width, self.screen_height);
                    cmds.push(Command::MoveResize { window: subwindow, geometry: g });
                    proof {
                        assert(cmds@ =~= seq![
                            Command::MoveResize { window: subwindow, geometry: g },
                        ]);
                    }
                }
            },
            Action::Next => {
                if subwindow != 0 && self.windows.len() > 0 {
                    self.windows.rotate_next();
                    cmds.push(Command::Circulate);
                    proof {
                        assert(cmds@ =~= seq![Command::Circulate]);
                    }
                }
            },
            Action::Prev => {
                if subwindow != 0 && self.windows.len() > 0 {
                    self.windows.rotate_prev();
                    cmds.push(Command::Circulate);
                    proof {
                        assert(cmds@ =~= seq![Command::Circulate]);
                    }
                }
            },
            Action::Last => {
                if subwindow != 0 && self.windows.len() >= 2 {
                    let target = self.windows.get(1);
                    self.windows.swap_to_last_focused();
                    cmds.push(Command::Raise { window: target });
                    proof {
                        assert(cmds@ =~= seq![Command::Raise { window: target }]);
                    }
                }
            },
            Action::Move => {},
            Action::Resize => {},
            Action::Unknown => {},
        }
        cmds
    }

    /// Handle one server event: mutate the state and return the commands
    /// to carry out, exactly as the `step` relation prescribes.
    pub fn handle_event(&mut self, ev: &Event) -> (cmds: Vec<Command>)
        requires
            old(self).wf(),
        ensures
            final(self).wf(),
            step(*old(self), *ev, *final(self), cmds@),
    {
        match ev {
            Event::KeyPress { symbol, subwindow } => {
                match find_keybind(&self.keybinds, symbol) {
                    None => Vec::new(),
                    Some(i) => {
                        proof {
                            lemma_first_key_match_ensures(self.keybinds@, symbol@);
                        }
                        self.parse_keys(i, *subwindow)
                    },
                }
            },
            Event::ButtonPress { button, subwindow, x_root, y_root, attr } => {
                if *subwindow != 0 {
                    match attr {
                        Some(a) => {
                            self.drag = Some(
                                DragState {
                                    button: *button,
                                    window: *subwindow,
                                    start_x_root: *x_root,
                                    start_y_root: *y_root,
                                    attr: *a,
                                },
                            );
                        },
                        None => {
                            self.drag = None;
                        },
                    }
                }
                Vec::new()
            },
            Event::Motion { x_root, y_root } => {
                match self.drag {
                    None => Vec::new(),
                    Some(d) => {
                        match find_mousebind(&self.mousebinds, d.button) {
                            None => Vec::new(),
                            Some(i) => {
                                proof {
                                    lemma_first_mouse_match_ensures(self.mousebinds@, d.button);
                                }
                                parse_mouse(&self.mousebinds[i], &d, *x_root, *y_root)
                            },
                        }
                    },
                }
            },
            Event::ButtonRelease => {
                self.drag = None;
                Vec::new()
            },
            Event::MapRequest { window } => {
                let w = *window;
                let mut cmds: Vec<Command> = Vec::new();
                cmds.push(Command::MapWindow { window: w });
                let g = layout::initial_placement(
                    &self.config,
                    self.screen_width,
                    self.screen_height,
                );
                cmds.push(Command::MoveResize { window: w, geometry: g });
                self.windows.push_front(w);
                proof {
                    assert(cmds@ =~= seq![
                        Command::MapWindow { window: w },
                        Command::MoveResize { window: w, geometry: g },
                    ]);
                }
                cmds
            },
            Event::ConfigureRequest { window } => {
                let g = layout::initial_placement(
                    &self.config,
                    self.screen_width,
                    self.screen_height,
                );
                let mut cmds: Vec<Command> = Vec::new();
                cmds.push(Command::Configure { window: *window, geometry: g });
                proof {
                    assert(cmds@ =~= seq![Command::Configure { window: *window, geometry: g }]);
                }
                cmds
            },
            Event::DestroyNotify { window } => {
                self.windows.remove(*window);
                Vec::new()
            },
            Event::Other => Vec::new(),
        }
    }

    /// The status line for the current focus: `focused:<handle>\n` for
    /// the front of the stack, `focused: \n` when no window is managed.
    pub fn status_line(&self) -> (line: Vec<u8>)
        ensures
            line@ == status_line_spec(
                if self.windows@.len() == 0 {
                    Option::<u64>::None
                } else {
                    Option::Some(self.windows@[0])
                },
            ),
    {
        status::format_status(self.windows.focused())
    }
}

} // verus!
