//! Configuration as the engine consumes it.
//!
//! The textual configuration is read and decoded outside the library; what
//! arrives here is the already typed shape: the two gap sizes and the raw
//! binding tuples.  This module turns the raw tuples into a closed binding
//! table, resolving each textual action name to a tagged `Action` once, at
//! startup, and rejecting the one malformed shape (a `spawn` binding with
//! no argument list) as a configuration error.

use vstd::prelude::*;
use vstd::string::StringExecFns;

verus! {

/// The raw configuration shape, as the external decoding step delivers it:
/// gap sizes plus the ordered binding tuples
/// `(modifier mask, key symbol, action name, optional argument list)` and
/// `(modifier mask, button number, action name)`.
pub struct RonConfig {
    pub top_gap: i32,
    pub edge_gap: i32,
    pub keybinds: Vec<(u32, String, String, Option<Vec<String>>)>,
    pub mousebinds: Vec<(u32, u32, String)>,
}

/// The gap configuration alone, without the binding tables.
#[derive(Clone, Copy, PartialEq, Eq, Structural, Debug)]
pub struct Config {
    pub top_gap: i32,
    pub edge_gap: i32,
}

impl From<RonConfig> for Config {
    fn from(item: RonConfig) -> (r: Config) {
        Config { top_gap: item.top_gap, edge_gap: item.edge_gap }
    }
}

impl vstd::std_specs::convert::FromSpecImpl<RonConfig> for Config {
    open spec fn obeys_from_spec() -> bool {
        true
    }

    open spec fn from_spec(item: RonConfig) -> Config {
        Config { top_gap: item.top_gap, edge_gap: item.edge_gap }
    }
}

/// The closed set of actions a binding can name.  Unrecognised names fold
/// into `Unknown`, which every dispatch path treats as a silent no-op.
#[derive(Clone, Copy, PartialEq, Eq, Structural, Debug)]
pub enum Action {
    Quit,
    Kill,
    Spawn,
    Maximize,
    Stack,
    Shrink,
    Next,
    Prev,
    Last,
    Move,
    Resize,
    Unknown,
}

/// One key binding: the modifier mask and symbol it was grabbed under, the
/// resolved action, and the argument list (empty unless the action is
/// `Spawn`).
#[derive(PartialEq, Debug)]
pub struct Keybind {
    pub modmask: u32,
    pub sym: String,
    pub action: Action,
    pub args: Vec<String>,
}

/// One mouse binding: the modifier mask and button it was grabbed under,
/// and the resolved action.
#[derive(PartialEq, Debug)]
pub struct Mousebind {
    pub modmask: u32,
    pub button: u32,
    pub action: Action,
}

/// The configuration errors the compilation step can report.
#[derive(Clone, Copy, PartialEq, Eq, Structural, Debug)]
pub enum ConfigError {
    /// A `spawn` binding arrived without an argument list, or with an
    /// empty one: there is no program to launch, so startup must fail.
    SpawnWithoutArgs,
}

/// Which action a textual name denotes.  `kill_window` and its alias
/// `kill` name the same action; any other unrecognised name is `Unknown`.
pub open spec fn action_of(s: Seq<char>) -> Action {
    if s == "quit"@ {
        Action::Quit
    } else if s == "kill"@ {
        Action::Kill
    } else if s == "kill_window"@ {
        Action::Kill
    } else if s == "spawn"@ {
        Action::Spawn
    } else if s == "maximize"@ {
        Action::Maximize
    } else if s == "stack"@ {
        Action::Stack
    } else if s == "shrink"@ {
        Action::Shrink
    } else if s == "next"@ {
        Action::Next
    } else if s == "prev"@ {
        Action::Prev
    } else if s == "last"@ {
        Action::Last
    } else if s == "move"@ {
        Action::Move
    } else if s == "resize"@ {
        Action::Resize
    } else {
        Action::Unknown
    }
}

/// Resolve a textual action name to its tagged action.
pub fn parse_action(name: &String) -> (a: Action)
    ensures
        a == action_of(name@),
{
    if *name == String::from_str("quit") {
        Action::Quit
    } else if *name == String::from_str("kill") {
        Action::Kill
    } else if *name == String::from_str("kill_window") {
        Action::Kill
    } else if *name == String::from_str("spawn") {
        Action::Spawn
    } else if *name == String::from_str("maximize") {
        Action::Maximize
    } else if *name == String::from_str("stack") {
        Action::Stack
    } else if *name == String::from_str("shrink") {
        Action::Shrink
    } else if *name == String::from_str("next") {
        Action::Next
    } else if *name == String::from_str("prev") {
        Action::Prev
    } else if *name == String::from_str("last") {
        Action::Last
    } else if *name == String::from_str("move") {
        Action::Move
    } else if *name == String::from_str("resize") {
        Action::Resize
    } else {
        Action::Unknown
    }
}

/// A raw key-binding tuple that names `spawn` but carries no program to
/// launch: the one shape the compilation step rejects.
pub open spec fn spawn_without_args(t: (u32, String, String, Option<Vec<String>>)) -> bool {
    action_of(t.2@) == Action::Spawn && match t.3 {
        Some(v) => v@.len() == 0,
        None => true,
    }
}

/// The compiled key binding `k` renders the raw tuple `t`: same modifier
/// mask and symbol, the action resolved from the name, and the argument
/// list carried over (empty when the tuple had none).
pub open spec fn keybind_matches(k: Keybind, t: (u32, String, String, Option<Vec<String>>)) -> bool {
    &&& k.modmask == t.0
    &&& k.sym@ == t.1@
    &&& k.action == action_of(t.2@)
    &&& match t.3 {
        Some(v) => k.args.deep_view() == v.deep_view(),
        None => k.args@.len() == 0,
    }
}

/// The compiled mouse binding `m` renders the raw tuple `t`.
pub open spec fn mousebind_matches(m: Mousebind, t: (u32, u32, String)) -> bool {
    &&& m.modmask == t.0
    &&& m.button == t.1
    &&& m.action == action_of(t.2@)
}

/// A well-formed key-binding table: every `Spawn` entry carries at least
/// one argument, so dispatching it always has a program to launch.
pub open spec fn keybinds_wf(ks: Seq<Keybind>) -> bool {
    forall|i: int|
        0 <= i < ks.len() ==> ((#[trigger] ks[i]).action == Action::Spawn ==> ks[i].args@.len() > 0)
}

/// Compile the raw key-binding tuples into the closed table, in order.
/// Fails, and startup with it, exactly when some tuple names `spawn`
/// without an argument to launch.
pub fn compile_keybinds(raw: Vec<(u32, String, String, Option<Vec<String>>)>) -> (r: Result<
    Vec<Keybind>,
    ConfigError,
>)
    ensures
        match r {
            Ok(ks) => {
                &&& ks@.len() == raw@.len()
                &&& forall|i: int|
                    0 <= i < raw@.len() ==> keybind_matches(#[trigger] ks@[i], raw@[i])
                &&& keybinds_wf(ks@)
                &&& forall|i: int| 0 <= i < raw@.len() ==> !spawn_without_args(#[trigger] raw@[i])
            },
            Err(e) => {
                &&& e == ConfigError::SpawnWithoutArgs
                &&& exists|i: int| 0 <= i < raw@.len() && spawn_without_args(#[trigger] raw@[i])
            },
        },
{
    let ghost raw0: Seq<(u32, String, String, Option<Vec<String>>)> = raw@;
    let mut rest = raw;
    let mut out: Vec<Keybind> = Vec::new();
    while rest.len() > 0
        invariant
            raw0 == raw@,
            out@.len() + rest@.len() == raw0.len(),
            rest@ == raw0.skip(out@.len() as int),
            forall|i: int| 0 <= i < out@.len() ==> keybind_matches(#[trigger] out@[i], raw0[i]),
            forall|i: int| 0 <= i < out@.len() ==> !spawn_without_args(#[trigger] raw0[i]),
            keybinds_wf(out@),
        decreases rest@.len(),
    {
        let ghost k = out@.len() as int;
        let t = rest.remove(0);
        proof {
            assert(t == raw0[k]);
            assert(rest@ =~= raw0.skip(k + 1));
        }
        let (modmask, sym, name, argsopt) = t;
        let action = parse_action(&name);
        let args: Vec<String> = match argsopt {
            Some(v) => v,
            None => Vec::new(),
        };
        if action == Action::Spawn && args.len() == 0 {
            proof {
                assert(spawn_without_args(raw0[k]));
                assert(exists|i: int| 0 <= i < raw0.len() && spawn_without_args(#[trigger] raw0[i]));
            }
            return Err(ConfigError::SpawnWithoutArgs);
        }
        out.push(Keybind { modmask, sym, action, args });
        proof {
            assert(keybind_matches(out@[k], raw0[k]));
            assert(!spawn_without_args(raw0[k]));
        }
    }
    proof {
        assert(out@.len() == raw0.len());
    }
    Ok(out)
}

/// Compile the raw mouse-binding tuples into the closed table, in order.
pub fn compile_mousebinds(raw: Vec<(u32, u32, String)>) -> (ms: Vec<Mousebind>)
    ensures
        ms@.len() == raw@.len(),
        forall|i: int| 0 <= i < raw@.len() ==> mousebind_matches(#[trigger] ms@[i], raw@[i]),
{
    let ghost raw0: Seq<(u32, u32, String)> = raw@;
    let mut rest = raw;
    let mut out: Vec<Mousebind> = Vec::new();
    while rest.len() > 0
        invariant
            raw0 == raw@,
            out@.len() + rest@.len() == raw0.len(),
            rest@ == raw0.skip(out@.len() as int),
            forall|i: int| 0 <= i < out@.len() ==> mousebind_matches(#[trigger] out@[i], raw0[i]),
        decreases rest@.len(),
    {
        let ghost k = out@.len() as int;
        let t = rest.remove(0);
        proof {
            assert(t == raw0[k]);
            assert(rest@ =~= raw0.skip(k + 1));
        }
        let action = parse_action(&t.2);
        out.push(Mousebind { modmask: t.0, button: t.1, action });
        proof {
            assert(mousebind_matches(out@[k], raw0[k]));
        }
    }
    out
}

} // verus!
