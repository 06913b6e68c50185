//! Slash commands mapped to safe graphical menu entries.

use vstd::prelude::*;

use crate::text::{
    ascii_lower, ascii_lower_view, is_white_space, lemma_ascii_lower_white_space, lemma_trim_ends,
    lemma_trim_fixed, push_char, str_equal, to_ascii_lowercase, trim, trim_view,
};

verus! {

/// How the desktop UI presents a slash command.
#[derive(Debug, Clone, Copy, PartialEq, Eq)]
pub enum CommandKind {
    /// A known command without arguments: one click runs it.
    Action,
    /// A known command that opens a parameter form.
    Form,
    /// Anything else: sent to the agent as prompt text, never executed.
    PromptDispatch,
}

/// One argument of a command form.
#[derive(Debug, Clone, PartialEq, Eq)]
pub struct CommandArgument {
    pub name: String,
    pub required: bool,
}

/// A menu entry for a slash command.
#[derive(Debug, Clone, PartialEq, Eq)]
pub struct DesktopCommand {
    pub slash: String,
    pub kind: CommandKind,
    pub requires_confirmation: bool,
    pub can_spawn_process: bool,
    pub arguments: Vec<CommandArgument>,
}

/// The abstract value of a [`CommandArgument`].
pub struct CommandArgumentView {
    pub name: Seq<char>,
    pub required: bool,
}

/// The abstract value of a [`DesktopCommand`].
pub struct DesktopCommandView {
    pub slash: Seq<char>,
    pub kind: CommandKind,
    pub requires_confirmation: bool,
    pub can_spawn_process: bool,
    pub arguments: Seq<CommandArgumentView>,
}

impl View for CommandArgument {
    type V = CommandArgumentView;

    open spec fn view(&self) -> CommandArgumentView {
        CommandArgumentView { name: self.name@, required: self.required }
    }
}

impl View for DesktopCommand {
    type V = DesktopCommandView;

    open spec fn view(&self) -> DesktopCommandView {
        DesktopCommandView {
            slash: self.slash@,
            kind: self.kind,
            requires_confirmation: self.requires_confirmation,
            can_spawn_process: self.can_spawn_process,
            arguments: self.arguments@.map_values(|a: CommandArgument| a@),
        }
    }
}

/// The canonical spelling of a slash command: trimmed, ASCII lower-cased and
/// starting with `/` (one is prepended when missing).
pub open spec fn normalize_slash_view(slash: Seq<char>) -> Seq<char> {
    let t = ascii_lower_view(trim_view(slash));
    if t.len() > 0 && t[0] == '/' {
        t
    } else {
        seq!['/'] + t
    }
}

/// The commands that have a dedicated desktop control.
pub open spec fn is_known_slash(n: Seq<char>) -> bool {
    ||| n == "/rename"@
    ||| n == "/model"@
    ||| n == "/effort"@
    ||| n == "/new"@
    ||| n == "/clear"@
    ||| n == "/quit"@
    ||| n == "/exit"@
}

/// The destructive commands that the UI confirms before running.
pub open spec fn confirmation_required(n: Seq<char>) -> bool {
    ||| n == "/quit"@
    ||| n == "/exit"@
    ||| n == "/new"@
    ||| n == "/clear"@
    ||| n == "/rewind"@
    ||| n == "/logout"@
    ||| n == "/memory clear"@
    ||| n == "/worktree rm"@
}

/// The form field name of a command's argument.
pub open spec fn argument_name_view(n: Seq<char>) -> Seq<char> {
    if n == "/rename"@ {
        "session_name"@
    } else if n == "/model"@ {
        "model"@
    } else if n == "/effort"@ {
        "effort"@
    } else {
        "argument"@
    }
}

/// The kind of the menu entry for the normalized command `n`.
pub open spec fn command_kind_view(n: Seq<char>, takes_arguments: bool) -> CommandKind {
    if !is_known_slash(n) {
        CommandKind::PromptDispatch
    } else if takes_arguments {
        CommandKind::Form
    } else {
        CommandKind::Action
    }
}

/// The menu entry that [`DesktopCommand::from_slash`] builds.
pub open spec fn desktop_command_view(
    slash: Seq<char>,
    takes_arguments: bool,
    arguments_required: bool,
) -> DesktopCommandView {
    let n = normalize_slash_view(slash);
    DesktopCommandView {
        slash: n,
        kind: command_kind_view(n, takes_arguments),
        requires_confirmation: confirmation_required(n),
        can_spawn_process: false,
        arguments: if takes_arguments {
            seq![CommandArgumentView { name: argument_name_view(n), required: arguments_required }]
        } else {
            Seq::empty()
        },
    }
}

impl DesktopCommand {
    /// Builds the menu entry for a slash command. Only the known commands get
    /// an action or a form; any other command is dispatched as prompt text,
    /// and no entry may ever spawn a process.
    pub fn from_slash(slash: &str, takes_arguments: bool, arguments_required: bool) -> (r: Self)
        ensures
            r@ == desktop_command_view(slash@, takes_arguments, arguments_required),
            !r.can_spawn_process,
    {
        let normalized = normalize_slash(slash);
        let n = normalized.as_str();
        let is_known = str_equal(n, "/rename") || str_equal(n, "/model") || str_equal(n, "/effort")
            || str_equal(n, "/new") || str_equal(n, "/clear") || str_equal(n, "/quit")
            || str_equal(n, "/exit");
        let kind = if !is_known {
            CommandKind::PromptDispatch
        } else if takes_arguments {
            CommandKind::Form
        } else {
            CommandKind::Action
        };
        let confirm = requires_confirmation(n);
        let mut arguments: Vec<CommandArgument> = Vec::new();
        if takes_arguments {
            arguments.push(
                CommandArgument {
                    name: argument_name(n).to_owned(),
                    required: arguments_required,
                },
            );
        }
        let r = DesktopCommand {
            slash: normalized,
            kind,
            requires_confirmation: confirm,
            can_spawn_process: false,
            arguments,
        };
        assert(r@.arguments =~= desktop_command_view(slash@, takes_arguments, arguments_required).arguments);
        r
    }
}

/// Trims, lower-cases and `/`-prefixes a slash command.
pub fn normalize_slash(slash: &str) -> (r: String)
    ensures
        r@ == normalize_slash_view(slash@),
{
    let lowered = to_ascii_lowercase(trim(slash));
    let t = lowered.as_str();
    if t.unicode_len() > 0 && t.get_char(0) == '/' {
        lowered
    } else {
        let mut r = String::new();
        push_char(&mut r, '/');
        r.append(t);
        assert(r@ =~= seq!['/'] + lowered@);
        r
    }
}

/// Whether the normalized command is destructive and must be confirmed.
pub fn requires_confirmation(slash: &str) -> (r: bool)
    ensures
        r == confirmation_required(slash@),
{
    str_equal(slash, "/quit") || str_equal(slash, "/exit") || str_equal(slash, "/new")
        || str_equal(slash, "/clear") || str_equal(slash, "/rewind") || str_equal(slash, "/logout")
        || str_equal(slash, "/memory clear") || str_equal(slash, "/worktree rm")
}

/// The form field name for the argument of a normalized command.
pub fn argument_name(slash: &str) -> (r: &'static str)
    ensures
        r@ == argument_name_view(slash@),
{
    if str_equal(slash, "/rename") {
        "session_name"
    } else if str_equal(slash, "/model") {
        "model"
    } else if str_equal(slash, "/effort") {
        "effort"
    } else {
        "argument"
    }
}

/// The canonical spelling of a command starts with `/`, and spelling it
/// again changes nothing.
pub proof fn lemma_normalize_slash_stable(slash: Seq<char>)
    ensures
        normalize_slash_view(slash).len() > 0,
        normalize_slash_view(slash)[0] == '/',
        normalize_slash_view(normalize_slash_view(slash)) == normalize_slash_view(slash),
{
    let tr = trim_view(slash);
    let t = ascii_lower_view(tr);
    let n = normalize_slash_view(slash);
    lemma_trim_ends(slash);
    if t.len() > 0 {
        lemma_ascii_lower_white_space(tr[0]);
        lemma_ascii_lower_white_space(tr.last());
        assert(t[0] == ascii_lower(tr[0]));
        assert(t.last() == ascii_lower(tr.last()));
    }
    if t.len() > 0 && t[0] == '/' {
        assert(n == t);
    } else {
        assert(n =~= seq!['/'] + t);
        assert(n[0] == '/');
        if t.len() > 0 {
            assert(n.last() == t.last());
        }
    }
    assert(!is_white_space('/'));
    lemma_trim_fixed(n);
    assert forall|i: int| 0 <= i < n.len() implies #[trigger] ascii_lower(n[i]) == n[i] by {
        if n == t {
            lemma_ascii_lower_white_space(tr[i]);
        } else if i > 0 {
            lemma_ascii_lower_white_space(tr[i - 1]);
        }
    }
    assert(ascii_lower_view(trim_view(n)) =~= n);
}

/// The seven commands with a desktop control are exactly the ones that get
/// an action or a form: a menu entry is dispatched as prompt text if and only
/// if its normalized spelling is none of `/rename`, `/model`, `/effort`,
/// `/new`, `/clear`, `/quit` and `/exit`; a known command taking no
/// argument is an action, one taking an argument a form.
pub proof fn lemma_known_commands_get_controls(
    slash: Seq<char>,
    takes_arguments: bool,
    arguments_required: bool,
)
    ensures
        ({
            let n = normalize_slash_view(slash);
            let kind = desktop_command_view(slash, takes_arguments, arguments_required).kind;
            let known = n == "/rename"@ || n == "/model"@ || n == "/effort"@ || n == "/new"@ || n
                == "/clear"@ || n == "/quit"@ || n == "/exit"@;
            &&& (kind == CommandKind::PromptDispatch) <==> !known
            &&& known && !takes_arguments ==> kind == CommandKind::Action
            &&& known && takes_arguments ==> kind == CommandKind::Form
        }),
{
}

/// `/exit` typed as is is a known, confirmed action.
pub proof fn lemma_exit_is_a_confirmed_action()
    ensures
        desktop_command_view("/exit"@, false, false).kind == CommandKind::Action,
        desktop_command_view("/exit"@, false, false).requires_confirmation,
{
    reveal_strlit("/exit");
    let r = "/exit"@;
    assert(crate::text::trim_start_view(r) == r);
    assert(crate::text::trim_end_view(r) == r);
    assert(ascii_lower_view(r) =~= r);
    assert(normalize_slash_view(r) == r);
    lemma_known_commands_get_controls(r, false, false);
}

} // verus!
