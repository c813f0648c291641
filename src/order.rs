//! Properties of the order in which a session's build runs its operations.
use vstd::prelude::*;
use crate::driver::{stage_of, Stage};
use crate::config;
use crate::tmux::{
    effective_dir, session_of_config, command_ops, new_session_op, resolved_dir, send_ops, session_ops, window_ops, windows_ops,
    OpView, SessionView, WindowView,
};

verus! {

/// How many operations of `ops` belong to `stage`.
pub open spec fn count_stage(ops: Seq<OpView>, stage: Stage) -> nat
    decreases ops.len(),
{
    if ops.len() == 0 {
        0
    } else {
        count_stage(ops.drop_last(), stage) + if stage_of(ops.last()) == stage {
            1nat
        } else {
            0nat
        }
    }
}

/// The number of operations that a window contributes: its creation and one
/// send per command.
pub open spec fn block_len(w: WindowView) -> int {
    1 + command_ops(w.cmds).len() as int
}

/// Where the operations of window `i` of `ws` start, counting from the
/// creation of the first window.
pub open spec fn block_start(ws: Seq<WindowView>, i: nat) -> int
    decreases i,
{
    if i == 0 {
        0
    } else {
        block_start(ws, (i - 1) as nat) + block_len(ws[i - 1])
    }
}

/// The operation that creates window `i` of a session: the session's own
/// creation for the first window, a new window for the others.
pub open spec fn creation_op(s: SessionView, i: int) -> OpView {
    if i == 0 {
        new_session_op(s)
    } else {
        OpView::NewWindow {
            window_name: s.windows[i].name,
            start_directory: resolved_dir(s.windows[i], s.dir),
        }
    }
}

proof fn lemma_count_add(a: Seq<OpView>, b: Seq<OpView>, stage: Stage)
    ensures
        count_stage(a + b, stage) == count_stage(a, stage) + count_stage(b, stage),
    decreases b.len(),
{
    if b.len() == 0 {
        assert(a + b =~= a);
    } else {
        assert((a + b).drop_last() =~= a + b.drop_last());
        lemma_count_add(a, b.drop_last(), stage);
    }
}

proof fn lemma_count_one(o: OpView, stage: Stage)
    ensures
        count_stage(seq![o], stage) == if stage_of(o) == stage {
            1nat
        } else {
            0nat
        },
{
    assert(seq![o].drop_last() =~= Seq::<OpView>::empty());
    assert(count_stage(Seq::<OpView>::empty(), stage) == 0);
    assert(seq![o].last() == o);
}

proof fn lemma_count_sends(cmds: Seq<Seq<char>>, stage: Stage)
    requires
        stage != Stage::CommandSend,
    ensures
        count_stage(send_ops(cmds), stage) == 0,
    decreases cmds.len(),
{
    if cmds.len() > 0 {
        assert(send_ops(cmds).drop_last() =~= send_ops(cmds.drop_last()));
        lemma_count_sends(cmds.drop_last(), stage);
    }
}

proof fn lemma_count_commands(cmds: Option<Seq<Seq<char>>>, stage: Stage)
    requires
        stage != Stage::CommandSend,
    ensures
        count_stage(command_ops(cmds), stage) == 0,
{
    match cmds {
        Some(c) => lemma_count_sends(c, stage),
        None => {},
    }
}

proof fn lemma_count_windows(ws: Seq<WindowView>, root: Seq<char>)
    ensures
        count_stage(windows_ops(ws, root), Stage::WindowCreate) == ws.len(),
        count_stage(windows_ops(ws, root), Stage::SessionCreate) == 0,
        count_stage(windows_ops(ws, root), Stage::Attach) == 0,
    decreases ws.len(),
{
    if ws.len() > 0 {
        let w = ws.last();
        let head = seq![
            OpView::NewWindow { window_name: w.name, start_directory: resolved_dir(w, root) },
        ];
        lemma_count_windows(ws.drop_last(), root);
        lemma_count_add(windows_ops(ws.drop_last(), root), window_ops(w, root), Stage::WindowCreate);
        lemma_count_add(windows_ops(ws.drop_last(), root), window_ops(w, root), Stage::SessionCreate);
        lemma_count_add(windows_ops(ws.drop_last(), root), window_ops(w, root), Stage::Attach);
        lemma_count_add(head, command_ops(w.cmds), Stage::WindowCreate);
        lemma_count_add(head, command_ops(w.cmds), Stage::SessionCreate);
        lemma_count_add(head, command_ops(w.cmds), Stage::Attach);
        lemma_count_commands(w.cmds, Stage::WindowCreate);
        lemma_count_commands(w.cmds, Stage::SessionCreate);
        lemma_count_commands(w.cmds, Stage::Attach);
        lemma_count_one(head[0], Stage::WindowCreate);
        lemma_count_one(head[0], Stage::SessionCreate);
        lemma_count_one(head[0], Stage::Attach);
    }
}

proof fn lemma_block_start_mono(ws: Seq<WindowView>, i: nat, j: nat)
    requires
        i <= j,
    ensures
        0 <= block_start(ws, i) <= block_start(ws, j),
    decreases j,
{
    if i < j {
        lemma_block_start_mono(ws, i, (j - 1) as nat);
    } else if i > 0 {
        lemma_block_start_mono(ws, (i - 1) as nat, (i - 1) as nat);
    }
}

proof fn lemma_block_start_prefix(ws: Seq<WindowView>, k: nat)
    requires
        ws.len() > 0,
        k < ws.len(),
    ensures
        block_start(ws.drop_last(), k) == block_start(ws, k),
    decreases k,
{
    if k > 0 {
        lemma_block_start_prefix(ws, (k - 1) as nat);
    }
}

proof fn lemma_windows_len(ws: Seq<WindowView>, root: Seq<char>)
    ensures
        windows_ops(ws, root).len() == block_start(ws, ws.len()),
    decreases ws.len(),
{
    if ws.len() > 0 {
        lemma_windows_len(ws.drop_last(), root);
        lemma_block_start_prefix(ws, (ws.len() - 1) as nat);
    }
}

proof fn lemma_window_block(ws: Seq<WindowView>, root: Seq<char>, k: nat)
    requires
        k < ws.len(),
    ensures
        0 <= block_start(ws, k),
        block_start(ws, k) + 1 <= block_start(ws, k + 1) <= windows_ops(ws, root).len(),
        windows_ops(ws, root)[block_start(ws, k) as int] == (OpView::NewWindow {
            window_name: ws[k as int].name,
            start_directory: resolved_dir(ws[k as int], root),
        }),
        windows_ops(ws, root).subrange(block_start(ws, k) + 1, block_start(ws, k + 1) as int)
            == command_ops(ws[k as int].cmds),
    decreases ws.len(),
{
    let p = ws.drop_last();
    let n1 = p.len();
    let w = ws.last();
    let pre = windows_ops(p, root);
    lemma_windows_len(ws, root);
    lemma_windows_len(p, root);
    lemma_block_start_mono(ws, k + 1, ws.len());
    lemma_block_start_mono(ws, 0, k);
    lemma_block_start_prefix(ws, k);
    if k < n1 {
        lemma_window_block(p, root, k);
        lemma_block_start_prefix(ws, k + 1);
        assert(windows_ops(ws, root)[block_start(ws, k)] == pre[block_start(p, k)]);
        assert(windows_ops(ws, root).subrange(block_start(ws, k) + 1, block_start(ws, k + 1) as int)
            =~= pre.subrange(block_start(p, k) + 1, block_start(p, k + 1) as int));
    } else {
        assert(block_start(ws, k) == pre.len());
        assert(ws[k as int] == w);
        assert(windows_ops(ws, root)[block_start(ws, k)] == window_ops(w, root)[0]);
        assert(windows_ops(ws, root).subrange(block_start(ws, k) + 1, block_start(ws, k + 1) as int)
            =~= command_ops(w.cmds));
    }
}

proof fn lemma_block_start_shift(s: SessionView, i: nat)
    requires
        1 <= i <= s.windows.len(),
    ensures
        block_start(s.windows, i) == 1 + command_ops(s.windows[0].cmds).len() + block_start(
            s.windows.drop_first(),
            (i - 1) as nat,
        ),
    decreases i,
{
    assert(block_start(s.windows, 0) == 0);
    if i > 1 {
        lemma_block_start_shift(s, (i - 1) as nat);
        assert(s.windows.drop_first()[i - 2] == s.windows[i - 1]);
    }
}

/// For a session with at least one window, its build creates the session
/// exactly once, one further window for each window after the first, and
/// attaches exactly once, last. The operations of window `i` form one block:
/// its creation (the session's creation for the first window) followed by the
/// sends of its own commands and nothing else, and the block of window `i + 1`
/// follows it directly.
pub proof fn lemma_build_order(s: SessionView)
    requires
        s.windows.len() >= 1,
    ensures
        count_stage(session_ops(s), Stage::SessionCreate) == 1,
        count_stage(session_ops(s), Stage::WindowCreate) == s.windows.len() - 1,
        count_stage(session_ops(s), Stage::Attach) == 1,
        session_ops(s).len() == block_start(s.windows, s.windows.len()) + 1,
        session_ops(s).last() == OpView::AttachSession,
        forall|i: nat|
            i < s.windows.len() ==> session_ops(s)[#[trigger] block_start(s.windows, i) as int]
                == creation_op(s, i as int),
        forall|i: nat|
            i < s.windows.len() ==> session_ops(s).subrange(
                #[trigger] block_start(s.windows, i) + 1,
                block_start(s.windows, i + 1) as int,
            ) == command_ops(s.windows[i as int].cmds),
{
    let ws = s.windows;
    let ws1 = ws.drop_first();
    let ns = seq![new_session_op(s)];
    let c0 = command_ops(ws[0].cmds);
    let w = windows_ops(ws1, s.dir);
    let at = seq![OpView::AttachSession];
    let plan = session_ops(s);
    let off = 1 + c0.len();
    assert(plan == ns + c0 + w + at);
    lemma_windows_len(ws1, s.dir);
    lemma_block_start_shift(s, ws.len());
    lemma_count_windows(ws1, s.dir);
    lemma_count_one(new_session_op(s), Stage::SessionCreate);
    lemma_count_one(new_session_op(s), Stage::WindowCreate);
    lemma_count_one(new_session_op(s), Stage::Attach);
    lemma_count_one(OpView::AttachSession, Stage::SessionCreate);
    lemma_count_one(OpView::AttachSession, Stage::WindowCreate);
    lemma_count_one(OpView::AttachSession, Stage::Attach);
    lemma_count_commands(ws[0].cmds, Stage::SessionCreate);
    lemma_count_commands(ws[0].cmds, Stage::WindowCreate);
    lemma_count_commands(ws[0].cmds, Stage::Attach);
    lemma_count_add(ns, c0, Stage::SessionCreate);
    lemma_count_add(ns, c0, Stage::WindowCreate);
    lemma_count_add(ns, c0, Stage::Attach);
    lemma_count_add(ns + c0, w, Stage::SessionCreate);
    lemma_count_add(ns + c0, w, Stage::WindowCreate);
    lemma_count_add(ns + c0, w, Stage::Attach);
    lemma_count_add(ns + c0 + w, at, Stage::SessionCreate);
    lemma_count_add(ns + c0 + w, at, Stage::WindowCreate);
    lemma_count_add(ns + c0 + w, at, Stage::Attach);
    assert forall|i: nat| i < ws.len() implies plan[#[trigger] block_start(ws, i) as int]
        == creation_op(s, i as int) && plan.subrange(
        block_start(ws, i) + 1,
        block_start(ws, i + 1) as int,
    ) == command_ops(ws[i as int].cmds) by {
        if i == 0 {
            assert(block_start(ws, 0) == 0);
            assert(block_start(ws, 1) == off);
            assert(plan.subrange(1, off as int) =~= c0);
        } else {
            let j = (i - 1) as nat;
            lemma_block_start_shift(s, i);
            lemma_block_start_shift(s, i + 1);
            lemma_window_block(ws1, s.dir, j);
            assert(block_start(ws, i) == off + block_start(ws1, j));
            assert(ws1[j as int] == ws[i as int]);
            assert(plan[block_start(ws, i) as int] == w[block_start(ws1, j) as int]);
            assert(plan.subrange(block_start(ws, i) + 1, block_start(ws, i + 1) as int)
                =~= w.subrange(block_start(ws1, j) + 1, block_start(ws1, j + 1) as int));
        }
    }
}

/// Every window after the first is created in its own start directory when
/// the configuration gives one, whatever the session's directory, and in the
/// session's effective directory otherwise.
pub proof fn lemma_window_directory(c: config::Config, i: nat)
    requires
        1 <= i < c.windows.len(),
    ensures
        session_ops(session_of_config(c))[block_start(session_of_config(c).windows, i)]
            == (OpView::NewWindow {
            window_name: Some(c.windows[i as int].name@),
            start_directory: match c.windows[i as int].start_directory {
                Some(d) => d@,
                None => effective_dir(c.start_directory),
            },
        }),
{
    lemma_build_order(session_of_config(c));
}

/// A session without windows is built by creating it and attaching to it,
/// and nothing else.
pub proof fn lemma_build_without_windows(s: SessionView)
    requires
        s.windows.len() == 0,
    ensures
        session_ops(s) == seq![
            OpView::NewSession { start_directory: s.dir, session_name: s.name, window_name: None },
            OpView::AttachSession,
        ],
{
}

} // verus!
