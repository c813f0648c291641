use vstd::prelude::*;
use vstd::string::*;
use crate::config;
use crate::config::{normalized, opt_str, strs};

verus! {

/// A session to build: its name, its effective start directory, and its
/// windows in creation order.
#[derive(Debug, PartialEq)]
pub struct Session {
    pub name: Option<String>,
    pub dir: String,
    pub windows: Vec<Window>,
}

/// A window to build. A window without a directory starts in the session's
/// directory; its commands are sent to it once it exists.
#[derive(Debug, PartialEq)]
pub struct Window {
    pub name: Option<String>,
    pub dir: Option<String>,
    pub cmds: Option<Vec<String>>,
}

/// The mathematical model of a `Window`.
pub struct WindowView {
    pub name: Option<Seq<char>>,
    pub dir: Option<Seq<char>>,
    pub cmds: Option<Seq<Seq<char>>>,
}

/// The mathematical model of a `Session`.
pub struct SessionView {
    pub name: Option<Seq<char>>,
    pub dir: Seq<char>,
    pub windows: Seq<WindowView>,
}

/// The view of an optional list of strings.
pub open spec fn opt_strs(o: Option<Vec<String>>) -> Option<Seq<Seq<char>>> {
    match o {
        Some(v) => Some(strs(v@)),
        None => None,
    }
}

impl View for Window {
    type V = WindowView;

    open spec fn view(&self) -> WindowView {
        WindowView { name: opt_str(self.name), dir: opt_str(self.dir), cmds: opt_strs(self.cmds) }
    }
}

/// The views of a list of windows.
pub open spec fn windows_view(ws: Seq<Window>) -> Seq<WindowView> {
    ws.map_values(|w: Window| w@)
}

impl View for Session {
    type V = SessionView;

    open spec fn view(&self) -> SessionView {
        SessionView { name: opt_str(self.name), dir: self.dir@, windows: windows_view(self.windows@) }
    }
}

/// The directory a session starts in: the configured one, else the current
/// directory `"."`.
pub open spec fn effective_dir(start_directory: Option<String>) -> Seq<char> {
    match start_directory {
        Some(d) => d@,
        None => seq!['.'],
    }
}

/// The window that a window entry of the configuration becomes.
pub open spec fn window_of_config(c: config::Window) -> WindowView {
    WindowView {
        name: Some(c.name@),
        dir: opt_str(c.start_directory),
        cmds: match c.before_command {
            Some(b) => Some(normalized(b)),
            None => None,
        },
    }
}

/// The session that a configuration becomes.
pub open spec fn session_of_config(c: config::Config) -> SessionView {
    SessionView {
        name: opt_str(c.session_name),
        dir: effective_dir(c.start_directory),
        windows: c.windows@.map_values(|w: config::Window| window_of_config(w)),
    }
}

/// A window's single command becomes the list of just that command; a list
/// of commands is kept as it is, in order; no commands stay none.
pub proof fn lemma_commands_normalized(c: config::Window)
    ensures
        match c.before_command {
            Some(config::BeforeCommand::One(s)) => window_of_config(c).cmds == Some(seq![s@]),
            Some(config::BeforeCommand::Many(v)) => window_of_config(c).cmds == Some(strs(v@)),
            None => window_of_config(c).cmds is None,
        },
{
}

/// A configuration without a start directory gives a session that starts in
/// `"."`.
pub proof fn lemma_default_session_dir(c: config::Config)
    requires
        c.start_directory is None,
    ensures
        session_of_config(c).dir == seq!['.'],
{
}

impl Session {
    /// Resolves the session directory (default `"."`) and converts each
    /// window entry, keeping their order.
    pub fn from_config(config: config::Config) -> (r: Session)
        ensures
            r@ == session_of_config(config),
    {
        let dir = match config.start_directory {
            Some(d) => d,
            None => {
                let d = String::from_str(".");
                proof {
                    reveal_strlit(".");
                }
                d
            },
        };
        let mut rest = config.windows;
        let mut windows: Vec<Window> = Vec::new();
        let ghost all = rest@;
        while rest.len() > 0
            invariant
                all == config.windows@,
                windows@.len() + rest@.len() == all.len(),
                rest@ == all.subrange(windows@.len() as int, all.len() as int),
                forall|i: int|
                    0 <= i < windows@.len() ==> #[trigger] windows@[i]@ == window_of_config(all[i]),
            decreases rest@.len(),
        {
            let w = rest.remove(0);
            windows.push(Window::from_config(w));
        }
        let r = Session { name: config.session_name, dir, windows };
        assert(windows_view(r.windows@) =~= session_of_config(config).windows);
        assert(r@.dir == session_of_config(config).dir);
        r
    }
}

impl Window {
    /// Copies the name, keeps the directory unresolved, and normalizes the
    /// commands to a list.
    pub fn from_config(config: config::Window) -> (r: Window)
        ensures
            r@ == window_of_config(config),
    {
        let cmds = match config.before_command {
            None => None,
            Some(config::BeforeCommand::One(cmd)) => {
                let mut v: Vec<String> = Vec::new();
                v.push(cmd);
                proof {
                    assert(strs(v@) =~= seq![v@[0]@]);
                }
                Some(v)
            },
            Some(config::BeforeCommand::Many(cmds)) => Some(cmds),
        };
        Window { name: Some(config.name), dir: config.start_directory, cmds }
    }
}

/// One multiplexer operation. Keys are sent to the window created last.
#[derive(Debug, PartialEq)]
pub enum Op {
    /// Create the session, detached, with its first window.
    NewSession {
        start_directory: String,
        session_name: Option<String>,
        window_name: Option<String>,
    },
    /// Create a further window in the session.
    NewWindow { window_name: Option<String>, start_directory: String },
    /// Type text into the window created last.
    SendKeys { keys: String },
    /// Attach the terminal to the session.
    AttachSession,
}

/// The mathematical model of an `Op`.
pub enum OpView {
    NewSession {
        start_directory: Seq<char>,
        session_name: Option<Seq<char>>,
        window_name: Option<Seq<char>>,
    },
    NewWindow { window_name: Option<Seq<char>>, start_directory: Seq<char> },
    SendKeys { keys: Seq<char> },
    AttachSession,
}

impl View for Op {
    type V = OpView;

    open spec fn view(&self) -> OpView {
        match self {
            Op::NewSession { start_directory, session_name, window_name } => OpView::NewSession {
                start_directory: start_directory@,
                session_name: opt_str(*session_name),
                window_name: opt_str(*window_name),
            },
            Op::NewWindow { window_name, start_directory } => OpView::NewWindow {
                window_name: opt_str(*window_name),
                start_directory: start_directory@,
            },
            Op::SendKeys { keys } => OpView::SendKeys { keys: keys@ },
            Op::AttachSession => OpView::AttachSession,
        }
    }
}

/// The views of a list of operations.
pub open spec fn ops_view(v: Seq<Op>) -> Seq<OpView> {
    v.map_values(|o: Op| o@)
}

/// A command as typed: followed by a line terminator.
pub open spec fn line_of(cmd: Seq<char>) -> Seq<char> {
    cmd.push('\n')
}

/// The keys sent for a list of commands, one send per command, in order.
pub open spec fn send_ops(cmds: Seq<Seq<char>>) -> Seq<OpView> {
    cmds.map_values(|c: Seq<char>| OpView::SendKeys { keys: line_of(c) })
}

/// The sends for a window's commands, if it has any.
pub open spec fn command_ops(cmds: Option<Seq<Seq<char>>>) -> Seq<OpView> {
    match cmds {
        Some(c) => send_ops(c),
        None => Seq::empty(),
    }
}

/// Where a window starts: its own directory, else the session's.
pub open spec fn resolved_dir(w: WindowView, root: Seq<char>) -> Seq<char> {
    match w.dir {
        Some(d) => d,
        None => root,
    }
}

/// The operations for a window after the first: create it, then send its
/// commands.
pub open spec fn window_ops(w: WindowView, root: Seq<char>) -> Seq<OpView> {
    seq![OpView::NewWindow { window_name: w.name, start_directory: resolved_dir(w, root) }]
        + command_ops(w.cmds)
}

/// The operations for a list of windows after the first, in order.
pub open spec fn windows_ops(ws: Seq<WindowView>, root: Seq<char>) -> Seq<OpView>
    decreases ws.len(),
{
    if ws.len() == 0 {
        Seq::empty()
    } else {
        windows_ops(ws.drop_last(), root) + window_ops(ws.last(), root)
    }
}

/// The operation that creates the session, which also creates its first
/// window (if there is one) under that window's name.
pub open spec fn new_session_op(s: SessionView) -> OpView {
    OpView::NewSession {
        start_directory: s.dir,
        session_name: s.name,
        window_name: if s.windows.len() > 0 {
            s.windows[0].name
        } else {
            None
        },
    }
}

/// Every operation of a session's build, in order: create the session with
/// its first window, send that window's commands, create and fill each
/// further window, and attach last.
pub open spec fn session_ops(s: SessionView) -> Seq<OpView> {
    if s.windows.len() == 0 {
        seq![new_session_op(s), OpView::AttachSession]
    } else {
        seq![new_session_op(s)] + command_ops(s.windows[0].cmds) + windows_ops(
            s.windows.drop_first(),
            s.dir,
        ) + seq![OpView::AttachSession]
    }
}

pub(crate) fn copy_opt(o: &Option<String>) -> (r: Option<String>)
    ensures
        opt_str(r) == opt_str(*o),
{
    match o {
        Some(s) => Some(s.clone()),
        None => None,
    }
}

proof fn lemma_push_view(v: Seq<Op>, o: Op)
    ensures
        ops_view(v.push(o)) == ops_view(v).push(o@),
{
    assert(ops_view(v.push(o)) =~= ops_view(v).push(o@));
}

/// Appends to `plan` one send per command, each command followed by a line
/// terminator, in order.
pub fn send_command(cmds: &Vec<String>, plan: &mut Vec<Op>)
    ensures
        ops_view(final(plan)@) == ops_view(old(plan)@) + send_ops(strs(cmds@)),
{
    let ghost start = ops_view(plan@);
    let mut i: usize = 0;
    while i < cmds.len()
        invariant
            i <= cmds@.len(),
            ops_view(plan@) == start + send_ops(strs(cmds@.subrange(0, i as int))),
        decreases cmds@.len() - i,
    {
        let keys = cmds[i].clone().concat("\n");
        proof {
            reveal_strlit("\n");
            assert(keys@ =~= line_of(cmds@[i as int]@));
        }
        let op = Op::SendKeys { keys };
        proof {
            lemma_push_view(plan@, op);
            assert(strs(cmds@.subrange(0, i + 1)) =~= strs(cmds@.subrange(0, i as int)).push(
                cmds@[i as int]@,
            ));
            assert(send_ops(strs(cmds@.subrange(0, i + 1))) =~= send_ops(
                strs(cmds@.subrange(0, i as int)),
            ).push(op@));
        }
        plan.push(op);
        i += 1;
    }
    assert(cmds@.subrange(0, i as int) =~= cmds@);
}

impl Window {
    /// Appends to `plan` the creation of this window, in its own directory or
    /// else in `root`, followed by the sends of its commands.
    pub fn build(&self, root: &str, plan: &mut Vec<Op>)
        ensures
            ops_view(final(plan)@) == ops_view(old(plan)@) + window_ops(self@, root@),
    {
        let dir = match &self.dir {
            Some(d) => d.clone(),
            None => root.to_owned(),
        };
        let op = Op::NewWindow { window_name: copy_opt(&self.name), start_directory: dir };
        proof {
            lemma_push_view(plan@, op);
        }
        plan.push(op);
        match &self.cmds {
            Some(cmds) => send_command(cmds, plan),
            None => {},
        }
        assert(ops_view(plan@) =~= ops_view(old(plan)@) + window_ops(self@, root@));
    }
}

impl Session {
    /// The operations that build this session, in the order they must run.
    pub fn build(&self) -> (r: Vec<Op>)
        ensures
            ops_view(r@) == session_ops(self@),
    {
        let mut plan: Vec<Op> = Vec::new();
        let first_name = if self.windows.len() > 0 {
            copy_opt(&self.windows[0].name)
        } else {
            None
        };
        let op = Op::NewSession {
            start_directory: self.dir.clone(),
            session_name: copy_opt(&self.name),
            window_name: first_name,
        };
        proof {
            lemma_push_view(plan@, op);
        }
        plan.push(op);
        let ghost s = self@;
        if self.windows.len() > 0 {
            match &self.windows[0].cmds {
                Some(cmds) => send_command(cmds, &mut plan),
                None => {},
            }
            let ghost head = ops_view(plan@);
            assert(head =~= seq![new_session_op(s)] + command_ops(s.windows[0].cmds));
            let mut i: usize = 1;
            while i < self.windows.len()
                invariant
                    1 <= i <= self.windows@.len(),
                    s == self@,
                    ops_view(plan@) == head + windows_ops(s.windows.subrange(1, i as int), s.dir),
                decreases self.windows@.len() - i,
            {
                self.windows[i].build(self.dir.as_str(), &mut plan);
                proof {
                    let ws = s.windows.subrange(1, i + 1);
                    assert(ws.drop_last() =~= s.windows.subrange(1, i as int));
                    assert(ws.last() == self.windows@[i as int]@);
                }
                i += 1;
            }
            assert(s.windows.subrange(1, i as int) =~= s.windows.drop_first());
        }
        let op = Op::AttachSession;
        proof {
            lemma_push_view(plan@, op);
        }
        plan.push(op);
        assert(ops_view(plan@) =~= session_ops(s));
        plan
    }
}

} // verus!
