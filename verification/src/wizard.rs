//! The setup wizard's state machine: an ordered chain of steps with
//! bidirectional navigation, wrapped cursor movement over each step's
//! option list, and a single-shot commit transition whose outcome is
//! reported back into the session.

use vstd::prelude::*;

use crate::store::{entries_view, path_preset_of, preset_of, SemanticConfig};
use crate::strutil::strs_view;

verus! {

// ---------------------------------------------------------------------------
// Steps
// ---------------------------------------------------------------------------
/// The wizard's steps, a strict linear chain from `Welcome` to `Done`.
#[derive(Clone, Copy, PartialEq, Eq, Structural, Debug)]
pub enum Step {
    Welcome,
    Shell,
    CommandStyle,
    FolderStyle,
    NewShellBehavior,
    Summary,
    Done,
}

impl Step {
    /// The step that follows this one; `Done` is terminal.
    pub open spec fn next_spec(self) -> Step {
        match self {
            Step::Welcome => Step::Shell,
            Step::Shell => Step::CommandStyle,
            Step::CommandStyle => Step::FolderStyle,
            Step::FolderStyle => Step::NewShellBehavior,
            Step::NewShellBehavior => Step::Summary,
            Step::Summary => Step::Done,
            Step::Done => Step::Done,
        }
    }

    /// The step that precedes this one; `Welcome` is the start.
    pub open spec fn prev_spec(self) -> Step {
        match self {
            Step::Welcome => Step::Welcome,
            Step::Shell => Step::Welcome,
            Step::CommandStyle => Step::Shell,
            Step::FolderStyle => Step::CommandStyle,
            Step::NewShellBehavior => Step::FolderStyle,
            Step::Summary => Step::NewShellBehavior,
            Step::Done => Step::Done,
        }
    }

    /// The step's position in the chain, counted from `Welcome`.
    pub open spec fn index_spec(self) -> int {
        match self {
            Step::Welcome => 0,
            Step::Shell => 1,
            Step::CommandStyle => 2,
            Step::FolderStyle => 3,
            Step::NewShellBehavior => 4,
            Step::Summary => 5,
            Step::Done => 6,
        }
    }

    /// Moves to the next step in the wizard.
    pub fn next(self) -> (r: Step)
        ensures
            r == self.next_spec(),
    {
        match self {
            Step::Welcome => Step::Shell,
            Step::Shell => Step::CommandStyle,
            Step::CommandStyle => Step::FolderStyle,
            Step::FolderStyle => Step::NewShellBehavior,
            Step::NewShellBehavior => Step::Summary,
            Step::Summary => Step::Done,
            Step::Done => Step::Done,
        }
    }

    /// Moves to the previous step in the wizard.
    pub fn prev(self) -> (r: Step)
        ensures
            r == self.prev_spec(),
    {
        match self {
            Step::Welcome => Step::Welcome,
            Step::Shell => Step::Welcome,
            Step::CommandStyle => Step::Shell,
            Step::FolderStyle => Step::CommandStyle,
            Step::NewShellBehavior => Step::FolderStyle,
            Step::Summary => Step::NewShellBehavior,
            Step::Done => Step::Done,
        }
    }

    /// Numeric index for the progress indicator.
    pub fn index(self) -> (r: usize)
        ensures
            r == self.index_spec(),
    {
        match self {
            Step::Welcome => 0,
            Step::Shell => 1,
            Step::CommandStyle => 2,
            Step::FolderStyle => 3,
            Step::NewShellBehavior => 4,
            Step::Summary => 5,
            Step::Done => 6,
        }
    }
}

// ---------------------------------------------------------------------------
// The session state
// ---------------------------------------------------------------------------
/// One wizard session: the current step, a cursor per selection step,
/// the fixed option lists, and the outcome flags.
#[derive(Debug)]
pub struct App {
    pub step: Step,
    pub shell_cursor: usize,
    pub command_style_cursor: usize,
    pub folder_style_cursor: usize,
    pub new_shell_cursor: usize,
    pub shells: Vec<String>,
    pub command_styles: Vec<String>,
    pub folder_styles: Vec<String>,
    pub new_shell_options: Vec<(String, String)>,
    pub should_quit: bool,
    pub write_error: Option<String>,
}

impl App {
    /// Every option list is non-empty and every cursor is in range.
    pub open spec fn wf(self) -> bool {
        &&& self.shells@.len() > 0
        &&& self.command_styles@.len() > 0
        &&& self.folder_styles@.len() > 0
        &&& self.new_shell_options@.len() > 0
        &&& self.shell_cursor < self.shells@.len()
        &&& self.command_style_cursor < self.command_styles@.len()
        &&& self.folder_style_cursor < self.folder_styles@.len()
        &&& self.new_shell_cursor < self.new_shell_options@.len()
    }

    /// The shell the cursor points at.
    pub open spec fn selected_shell_spec(self) -> Seq<char> {
        self.shells@[self.shell_cursor as int]@
    }

    /// The command style the cursor points at.
    pub open spec fn selected_command_style_spec(self) -> Seq<char> {
        self.command_styles@[self.command_style_cursor as int]@
    }

    /// The folder style the cursor points at.
    pub open spec fn selected_folder_style_spec(self) -> Seq<char> {
        self.folder_styles@[self.folder_style_cursor as int]@
    }

    /// The new-shell policy value the cursor points at.
    pub open spec fn selected_new_shell_spec(self) -> Seq<char> {
        self.new_shell_options@[self.new_shell_cursor as int].0@
    }
}

/// Both sessions hold the same four cursors.
pub open spec fn same_cursors(a: App, b: App) -> bool {
    &&& a.shell_cursor == b.shell_cursor
    &&& a.command_style_cursor == b.command_style_cursor
    &&& a.folder_style_cursor == b.folder_style_cursor
    &&& a.new_shell_cursor == b.new_shell_cursor
}

/// Both sessions hold the same four option lists.
pub open spec fn same_options(a: App, b: App) -> bool {
    &&& a.shells == b.shells
    &&& a.command_styles == b.command_styles
    &&& a.folder_styles == b.folder_styles
    &&& a.new_shell_options == b.new_shell_options
}

/// A cursor one position up, wrapping from the top to the bottom.
pub open spec fn up_index(i: int, n: int) -> int {
    if i == 0 {
        n - 1
    } else {
        i - 1
    }
}

/// A cursor one position down, wrapping from the bottom to the top.
pub open spec fn down_index(i: int, n: int) -> int {
    if i + 1 == n {
        0
    } else {
        i + 1
    }
}

/// The wrapped cursor moves are exactly the modular formulas
/// `(i - 1 + n) % n` and `(i + 1) % n`.
pub proof fn lemma_wrap_is_modular(i: int, n: int)
    requires
        0 <= i < n,
    ensures
        up_index(i, n) == (i - 1 + n) % n,
        down_index(i, n) == (i + 1) % n,
{
    if i == 0 {
        vstd::arithmetic::div_mod::lemma_small_mod((n - 1) as nat, n as nat);
    } else {
        vstd::arithmetic::div_mod::lemma_mod_add_multiples_vanish(i - 1, n);
        vstd::arithmetic::div_mod::lemma_small_mod((i - 1) as nat, n as nat);
    }
    if i + 1 == n {
        vstd::arithmetic::div_mod::lemma_mod_self_0(n);
    } else {
        vstd::arithmetic::div_mod::lemma_small_mod((i + 1) as nat, n as nat);
    }
}

/// The cursor of the current selection step moved one position up
/// with wraparound; everything else unchanged.
pub open spec fn moved_up(pre: App, post: App) -> bool {
    &&& post.step == pre.step
    &&& post.should_quit == pre.should_quit
    &&& post.write_error == pre.write_error
    &&& same_options(pre, post)
    &&& match pre.step {
        Step::Shell => {
            &&& post.shell_cursor == up_index(pre.shell_cursor as int, pre.shells@.len() as int)
            &&& post.command_style_cursor == pre.command_style_cursor
            &&& post.folder_style_cursor == pre.folder_style_cursor
            &&& post.new_shell_cursor == pre.new_shell_cursor
        },
        Step::CommandStyle => {
            &&& post.command_style_cursor == up_index(
                pre.command_style_cursor as int,
                pre.command_styles@.len() as int,
            )
            &&& post.shell_cursor == pre.shell_cursor
            &&& post.folder_style_cursor == pre.folder_style_cursor
            &&& post.new_shell_cursor == pre.new_shell_cursor
        },
        Step::FolderStyle => {
            &&& post.folder_style_cursor == up_index(
                pre.folder_style_cursor as int,
                pre.folder_styles@.len() as int,
            )
            &&& post.shell_cursor == pre.shell_cursor
            &&& post.command_style_cursor == pre.command_style_cursor
            &&& post.new_shell_cursor == pre.new_shell_cursor
        },
        Step::NewShellBehavior => {
            &&& post.new_shell_cursor == up_index(
                pre.new_shell_cursor as int,
                pre.new_shell_options@.len() as int,
            )
            &&& post.shell_cursor == pre.shell_cursor
            &&& post.command_style_cursor == pre.command_style_cursor
            &&& post.folder_style_cursor == pre.folder_style_cursor
        },
        _ => same_cursors(pre, post),
    }
}

/// The cursor of the current selection step moved one position down
/// with wraparound; everything else unchanged.
pub open spec fn moved_down(pre: App, post: App) -> bool {
    &&& post.step == pre.step
    &&& post.should_quit == pre.should_quit
    &&& post.write_error == pre.write_error
    &&& same_options(pre, post)
    &&& match pre.step {
        Step::Shell => {
            &&& post.shell_cursor == down_index(pre.shell_cursor as int, pre.shells@.len() as int)
            &&& post.command_style_cursor == pre.command_style_cursor
            &&& post.folder_style_cursor == pre.folder_style_cursor
            &&& post.new_shell_cursor == pre.new_shell_cursor
        },
        Step::CommandStyle => {
            &&& post.command_style_cursor == down_index(
                pre.command_style_cursor as int,
                pre.command_styles@.len() as int,
            )
            &&& post.shell_cursor == pre.shell_cursor
            &&& post.folder_style_cursor == pre.folder_style_cursor
            &&& post.new_shell_cursor == pre.new_shell_cursor
        },
        Step::FolderStyle => {
            &&& post.folder_style_cursor == down_index(
                pre.folder_style_cursor as int,
                pre.folder_styles@.len() as int,
            )
            &&& post.shell_cursor == pre.shell_cursor
            &&& post.command_style_cursor == pre.command_style_cursor
            &&& post.new_shell_cursor == pre.new_shell_cursor
        },
        Step::NewShellBehavior => {
            &&& post.new_shell_cursor == down_index(
                pre.new_shell_cursor as int,
                pre.new_shell_options@.len() as int,
            )
            &&& post.shell_cursor == pre.shell_cursor
            &&& post.command_style_cursor == pre.command_style_cursor
            &&& post.folder_style_cursor == pre.folder_style_cursor
        },
        _ => same_cursors(pre, post),
    }
}

/// The configuration that the session's current selections denote.
pub open spec fn selections_config(app: App, c: SemanticConfig) -> bool {
    &&& c.general.command_style@ == app.selected_command_style_spec()
    &&& c.general.folder_style@ == app.selected_folder_style_spec()
    &&& c.shells.default@ == app.selected_shell_spec()
    &&& strs_view(c.shells.enabled@) == seq![app.selected_shell_spec()]
    &&& c.shells.on_new_shell@ == app.selected_new_shell_spec()
    &&& entries_view(c.commands@) == preset_of(app.selected_command_style_spec())
    &&& entries_view(c.paths@) == path_preset_of(app.selected_folder_style_spec())
    &&& c.wf()
}

/// Forward navigation: on `Summary` the session is untouched and the
/// selections' configuration is handed out for persistence; on any
/// other step the session moves to the next step.
pub open spec fn advance_rel(pre: App, post: App, emitted: Option<SemanticConfig>) -> bool {
    if pre.step == Step::Summary {
        &&& post == pre
        &&& emitted matches Some(c) && selections_config(pre, c)
    } else {
        &&& emitted is None
        &&& post.step == pre.step.next_spec()
        &&& same_cursors(pre, post)
        &&& same_options(pre, post)
        &&& post.should_quit == pre.should_quit
        &&& post.write_error == pre.write_error
    }
}

/// Backward navigation: the previous step, with any commit error
/// cleared; selections are preserved.
pub open spec fn went_back(pre: App, post: App) -> bool {
    &&& post.step == pre.step.prev_spec()
    &&& post.write_error is None
    &&& same_cursors(pre, post)
    &&& same_options(pre, post)
    &&& post.should_quit == pre.should_quit
}

/// The session is flagged to terminate; nothing else changes.
pub open spec fn quit_rel(pre: App, post: App) -> bool {
    &&& post.should_quit == true
    &&& post.step == pre.step
    &&& post.write_error == pre.write_error
    &&& same_cursors(pre, post)
    &&& same_options(pre, post)
}

/// The outcome of one persistence attempt folded back into the
/// session: success clears the error and finishes the wizard; failure
/// records the message and stays on the current step.
pub open spec fn commit_resolved(pre: App, post: App, error: Option<String>) -> bool {
    &&& same_cursors(pre, post)
    &&& same_options(pre, post)
    &&& post.should_quit == pre.should_quit
    &&& match error {
        None => post.step == Step::Done && post.write_error is None,
        Some(m) => post.step == pre.step && post.write_error == Some(m),
    }
}

/// Navigation round trip: advancing from any step before `Summary`
/// and then going back returns to that step, and neither move touches
/// the cursors or the option lists.
pub proof fn lemma_advance_back_round_trip(
    pre: App,
    mid: App,
    post: App,
    emitted: Option<SemanticConfig>,
)
    requires
        pre.step != Step::Summary,
        pre.step != Step::Done,
        advance_rel(pre, mid, emitted),
        went_back(mid, post),
    ensures
        post.step == pre.step,
        same_cursors(pre, post),
        same_options(pre, post),
{
}

/// Commit recovery: a failed persistence attempt leaves the session
/// on `Summary` with the failure recorded and the selections intact,
/// so that a retried commit emits a configuration of the same
/// selections; a subsequent success clears the error and finishes the
/// wizard.
pub proof fn lemma_commit_retry(
    pre: App,
    failed: App,
    retried: App,
    done: App,
    m: String,
    emitted: Option<SemanticConfig>,
)
    requires
        pre.step == Step::Summary,
        commit_resolved(pre, failed, Some(m)),
        advance_rel(failed, retried, emitted),
        commit_resolved(retried, done, None),
    ensures
        failed.step == Step::Summary,
        failed.write_error == Some(m),
        emitted matches Some(c) && selections_config(pre, c),
        same_cursors(pre, done),
        same_options(pre, done),
        done.step == Step::Done,
        done.write_error is None,
{
}

/// `Done` is terminal: no session operation leaves it.
pub proof fn lemma_done_is_terminal(pre: App, post: App, emitted: Option<SemanticConfig>)
    requires
        pre.step == Step::Done,
        advance_rel(pre, post, emitted) || went_back(pre, post) || moved_up(pre, post) || moved_down(
            pre,
            post,
        ) || quit_rel(pre, post),
    ensures
        post.step == Step::Done,
{
}

/// `Done` is reached only through a successful commit: no navigation
/// or cursor move, and no failed commit, ever produces it.
pub proof fn lemma_done_only_after_successful_commit(
    pre: App,
    post: App,
    emitted: Option<SemanticConfig>,
    m: String,
)
    requires
        pre.step != Step::Done,
        advance_rel(pre, post, emitted) || went_back(pre, post) || moved_up(pre, post) || moved_down(
            pre,
            post,
        ) || quit_rel(pre, post) || commit_resolved(pre, post, Some(m)),
    ensures
        post.step != Step::Done,
{
}

impl App {
    /// A fresh session: at `Welcome`, every cursor on the first
    /// option, the fixed option lists in place.
    pub fn new() -> (r: App)
        ensures
            r.step == Step::Welcome,
            r.shell_cursor == 0,
            r.command_style_cursor == 0,
            r.folder_style_cursor == 0,
            r.new_shell_cursor == 0,
            strs_view(r.shells@) == seq!["fish"@, "bash"@, "zsh"@],
            strs_view(r.command_styles@) == seq!["natural"@, "traditional"@, "verbose"@],
            strs_view(r.folder_styles@) == seq!["natural"@, "traditional"@, "verbose"@],
            entries_view(r.new_shell_options@) == seq![
                ("auto-setup"@, "Automatically configure new shells"@),
                ("notify"@, "Notify when a new shell is detected"@),
                ("ignore"@, "Do nothing"@),
            ],
            r.should_quit == false,
            r.write_error is None,
            r.wf(),
    {
        let mut shells: Vec<String> = Vec::new();
        shells.push(String::from_str("fish"));
        shells.push(String::from_str("bash"));
        shells.push(String::from_str("zsh"));
        let mut command_styles: Vec<String> = Vec::new();
        command_styles.push(String::from_str("natural"));
        command_styles.push(String::from_str("traditional"));
        command_styles.push(String::from_str("verbose"));
        let mut folder_styles: Vec<String> = Vec::new();
        folder_styles.push(String::from_str("natural"));
        folder_styles.push(String::from_str("traditional"));
        folder_styles.push(String::from_str("verbose"));
        let mut new_shell_options: Vec<(String, String)> = Vec::new();
        new_shell_options.push(
            (String::from_str("auto-setup"), String::from_str("Automatically configure new shells")),
        );
        new_shell_options.push(
            (String::from_str("notify"), String::from_str("Notify when a new shell is detected")),
        );
        new_shell_options.push((String::from_str("ignore"), String::from_str("Do nothing")));
        proof {
            assert(strs_view(shells@) =~= seq!["fish"@, "bash"@, "zsh"@]);
            assert(strs_view(command_styles@) =~= seq!["natural"@, "traditional"@, "verbose"@]);
            assert(strs_view(folder_styles@) =~= seq!["natural"@, "traditional"@, "verbose"@]);
            assert(entries_view(new_shell_options@) =~= seq![
                ("auto-setup"@, "Automatically configure new shells"@),
                ("notify"@, "Notify when a new shell is detected"@),
                ("ignore"@, "Do nothing"@),
            ]);
        }
        App {
            step: Step::Welcome,
            shell_cursor: 0,
            command_style_cursor: 0,
            folder_style_cursor: 0,
            new_shell_cursor: 0,
            shells,
            command_styles,
            folder_styles,
            new_shell_options,
            should_quit: false,
            write_error: None,
        }
    }

    /// The shell currently selected.
    pub fn selected_shell(&self) -> (r: &str)
        requires
            self.wf(),
        ensures
            r@ == self.selected_shell_spec(),
    {
        self.shells[self.shell_cursor].as_str()
    }

    /// The command style currently selected.
    pub fn selected_command_style(&self) -> (r: &str)
        requires
            self.wf(),
        ensures
            r@ == self.selected_command_style_spec(),
    {
        self.command_styles[self.command_style_cursor].as_str()
    }

    /// The folder style currently selected.
    pub fn selected_folder_style(&self) -> (r: &str)
        requires
            self.wf(),
        ensures
            r@ == self.selected_folder_style_spec(),
    {
        self.folder_styles[self.folder_style_cursor].as_str()
    }

    /// The new-shell policy currently selected.
    pub fn selected_new_shell(&self) -> (r: &str)
        requires
            self.wf(),
        ensures
            r@ == self.selected_new_shell_spec(),
    {
        self.new_shell_options[self.new_shell_cursor].0.as_str()
    }

    /// Moves the current step's cursor one position up, wrapping at
    /// the top; a no-op on steps without a selection list.
    pub fn move_up(&mut self)
        requires
            old(self).wf(),
        ensures
            final(self).wf(),
            moved_up(*old(self), *final(self)),
    {
        match self.step {
            Step::Shell => {
                let n = self.shells.len();
                self.shell_cursor = if self.shell_cursor == 0 {
                    n - 1
                } else {
                    self.shell_cursor - 1
                };
            },
            Step::CommandStyle => {
                let n = self.command_styles.len();
                self.command_style_cursor = if self.command_style_cursor == 0 {
                    n - 1
                } else {
                    self.command_style_cursor - 1
                };
            },
            Step::FolderStyle => {
                let n = self.folder_styles.len();
                self.folder_style_cursor = if self.folder_style_cursor == 0 {
                    n - 1
                } else {
                    self.folder_style_cursor - 1
                };
            },
            Step::NewShellBehavior => {
                let n = self.new_shell_options.len();
                self.new_shell_cursor = if self.new_shell_cursor == 0 {
                    n - 1
                } else {
                    self.new_shell_cursor - 1
                };
            },
            _ => {},
        }
    }

    /// Moves the current step's cursor one position down, wrapping at
    /// the bottom; a no-op on steps without a selection list.
    pub fn move_down(&mut self)
        requires
            old(self).wf(),
        ensures
            final(self).wf(),
            moved_down(*old(self), *final(self)),
    {
        match self.step {
            Step::Shell => {
                let n = self.shells.len();
                self.shell_cursor = if self.shell_cursor + 1 == n {
                    0
                } else {
                    self.shell_cursor + 1
                };
            },
            Step::CommandStyle => {
                let n = self.command_styles.len();
                self.command_style_cursor = if self.command_style_cursor + 1 == n {
                    0
                } else {
                    self.command_style_cursor + 1
                };
            },
            Step::FolderStyle => {
                let n = self.folder_styles.len();
                self.folder_style_cursor = if self.folder_style_cursor + 1 == n {
                    0
                } else {
                    self.folder_style_cursor + 1
                };
            },
            Step::NewShellBehavior => {
                let n = self.new_shell_options.len();
                self.new_shell_cursor = if self.new_shell_cursor + 1 == n {
                    0
                } else {
                    self.new_shell_cursor + 1
                };
            },
            _ => {},
        }
    }

    /// Moves forward. On `Summary` the session stays put and the
    /// configuration built from the current selections is returned,
    /// to be handed to the persistence collaborator; its outcome is
    /// reported back through `finish_commit`.
    pub fn advance(&mut self) -> (r: Option<SemanticConfig>)
        requires
            old(self).wf(),
        ensures
            final(self).wf(),
            advance_rel(*old(self), *final(self), r),
    {
        if self.step == Step::Summary {
            let cfg = SemanticConfig::from_selections(
                self.selected_shell(),
                self.selected_command_style(),
                self.selected_folder_style(),
                self.selected_new_shell(),
            );
            Some(cfg)
        } else {
            self.step = self.step.next();
            None
        }
    }

    /// Folds the outcome of a persistence attempt back in: `None`
    /// finishes the wizard, `Some(message)` records the failure and
    /// keeps the session on `Summary` so the commit can be retried.
    pub fn finish_commit(&mut self, error: Option<String>)
        requires
            old(self).wf(),
            old(self).step == Step::Summary,
        ensures
            final(self).wf(),
            commit_resolved(*old(self), *final(self), error),
    {
        match error {
            None => {
                self.write_error = None;
                self.step = Step::Done;
            },
            Some(m) => {
                self.write_error = Some(m);
            },
        }
    }

    /// Moves backward, clearing any recorded commit error; selections
    /// are preserved.
    pub fn go_back(&mut self)
        requires
            old(self).wf(),
        ensures
            final(self).wf(),
            went_back(*old(self), *final(self)),
    {
        self.write_error = None;
        self.step = self.step.prev();
    }

    /// Flags the session to terminate without persisting.
    pub fn quit(&mut self)
        requires
            old(self).wf(),
        ensures
            final(self).wf(),
            quit_rel(*old(self), *final(self)),
    {
        self.should_quit = true;
    }
}

// ---------------------------------------------------------------------------
// The input adapter
// ---------------------------------------------------------------------------
/// An abstract navigation intent, independent of how it was produced.
#[derive(Clone, Copy, PartialEq, Eq, Structural, Debug)]
pub enum Intent {
    Quit,
    Confirm,
    Back,
    Up,
    Down,
    Noop,
}

/// Maps one intent onto exactly one session operation; `Noop` leaves
/// the session untouched. The configuration emitted by a confirmed
/// `Summary` step is passed through to the caller.
pub fn apply_intent(app: &mut App, intent: Intent) -> (r: Option<SemanticConfig>)
    requires
        old(app).wf(),
    ensures
        final(app).wf(),
        match intent {
            Intent::Quit => quit_rel(*old(app), *final(app)) && r is None,
            Intent::Confirm => advance_rel(*old(app), *final(app), r),
            Intent::Back => went_back(*old(app), *final(app)) && r is None,
            Intent::Up => moved_up(*old(app), *final(app)) && r is None,
            Intent::Down => moved_down(*old(app), *final(app)) && r is None,
            Intent::Noop => *final(app) == *old(app) && r is None,
        },
{
    match intent {
        Intent::Quit => {
            app.quit();
            None
        },
        Intent::Confirm => app.advance(),
        Intent::Back => {
            app.go_back();
            None
        },
        Intent::Up => {
            app.move_up();
            None
        },
        Intent::Down => {
            app.move_down();
            None
        },
        Intent::Noop => None,
    }
}

} // verus!
