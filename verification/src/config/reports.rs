//! What the `grok models` subcommands print: the authentication status and
//! the model list, and the confirmations after a model was added or made the
//! default.

use vstd::prelude::*;

use crate::services::terminal_launcher::strings_view;
use crate::text::{str_equal, to_string};

verus! {

/// How the user is authenticated.
#[derive(Debug, Clone, PartialEq, Eq)]
pub enum AuthStatus {
    /// `XAI_API_KEY` is set.
    ApiKey,
    /// Logged in with the given host.
    LoggedIn(String),
    /// The selected model carries its own API key.
    ModelCredentials(String),
    /// A deployment key authenticates the user.
    DeploymentKey,
    NotAuthenticated,
}

/// The sentence that describes an authentication status.
pub open spec fn auth_status_line_view(s: AuthStatus) -> Seq<char> {
    match s {
        AuthStatus::ApiKey => "You are using XAI_API_KEY."@,
        AuthStatus::LoggedIn(host) => "You are logged in with "@ + host@ + "."@,
        AuthStatus::ModelCredentials(model) => "Model '"@ + model@ + "' is using its own API key."@,
        AuthStatus::DeploymentKey => "You are authenticated via deployment key."@,
        AuthStatus::NotAuthenticated => "You are not authenticated."@,
    }
}

/// One entry of the model list: the default model is starred and marked.
pub open spec fn model_line_view(id: Seq<char>, current: Seq<char>) -> Seq<char> {
    if id == current {
        "  * "@ + id + " (default)"@
    } else {
        "  - "@ + id
    }
}

/// The lines of `grok models`: the authentication status, the default model
/// and then every available model in the order the agent listed them.
pub open spec fn models_report_view(
    status: AuthStatus,
    current: Seq<char>,
    available: Seq<Seq<char>>,
) -> Seq<Seq<char>> {
    seq![
        auth_status_line_view(status),
        Seq::empty(),
        "Default model: "@ + current,
        Seq::empty(),
        "Available models:"@,
    ] + available.map_values(|id: Seq<char>| model_line_view(id, current))
}

/// The lines printed after `name` was added to the configuration at `path`.
pub open spec fn model_added_report_view(name: Seq<char>, path: Seq<char>) -> Seq<Seq<char>> {
    seq![
        "Added model '"@ + name + "' to "@ + path + "."@,
        Seq::empty(),
        "You can now use it with:"@,
        "  grok -m "@ + name + " \"<prompt>\""@,
        "or set it as the default with:"@,
        "  grok models default "@ + name,
    ]
}

/// The lines printed after `model` was made the default.
pub open spec fn default_set_report_view(model: Seq<char>) -> Seq<Seq<char>> {
    seq![
        "Set default model to '"@ + model + "'."@,
        Seq::empty(),
        "New sessions will use this model unless you pass -m/--model."@,
    ]
}

/// `a` and `b` joined.
fn concat2(a: &str, b: &str) -> (r: String)
    ensures
        r@ == a@ + b@,
{
    let mut r = to_string(a);
    r.append(b);
    r
}

/// `a`, `b` and `c` joined.
fn concat3(a: &str, b: &str, c: &str) -> (r: String)
    ensures
        r@ == a@ + b@ + c@,
{
    let mut r = to_string(a);
    r.append(b);
    r.append(c);
    r
}

impl AuthStatus {
    /// The sentence that describes this status.
    pub fn line(&self) -> (r: String)
        ensures
            r@ == auth_status_line_view(*self),
    {
        match self {
            AuthStatus::ApiKey => to_string("You are using XAI_API_KEY."),
            AuthStatus::LoggedIn(host) => concat3("You are logged in with ", host.as_str(), "."),
            AuthStatus::ModelCredentials(model) => concat3(
                "Model '",
                model.as_str(),
                "' is using its own API key.",
            ),
            AuthStatus::DeploymentKey => to_string("You are authenticated via deployment key."),
            AuthStatus::NotAuthenticated => to_string("You are not authenticated."),
        }
    }
}

/// The list entry of model `id` when `current` is the default.
pub fn model_line(id: &str, current: &str) -> (r: String)
    ensures
        r@ == model_line_view(id@, current@),
{
    if str_equal(id, current) {
        concat3("  * ", id, " (default)")
    } else {
        concat2("  - ", id)
    }
}

/// The report of `grok models`.
pub fn models_report(status: &AuthStatus, current: &str, available: &Vec<String>) -> (r: Vec<
    String,
>)
    ensures
        strings_view(r@) == models_report_view(*status, current@, strings_view(available@)),
{
    let mut r: Vec<String> = Vec::new();
    r.push(status.line());
    r.push(String::new());
    r.push(concat2("Default model: ", current));
    r.push(String::new());
    r.push(to_string("Available models:"));
    let ghost head = strings_view(r@);
    let ghost ids = strings_view(available@);
    let ghost lines = ids.map_values(|id: Seq<char>| model_line_view(id, current@));
    assert(head =~= seq![
        auth_status_line_view(*status),
        Seq::empty(),
        "Default model: "@ + current@,
        Seq::empty(),
        "Available models:"@,
    ]);
    assert(lines.take(0) =~= Seq::<Seq<char>>::empty());
    let n = available.len();
    let mut i: usize = 0;
    while i < n
        invariant
            n == available@.len(),
            ids == strings_view(available@),
            lines == ids.map_values(|id: Seq<char>| model_line_view(id, current@)),
            i <= n,
            strings_view(r@) == head + lines.take(i as int),
        decreases n - i,
    {
        let line = model_line(available[i].as_str(), current);
        let ghost before = strings_view(r@);
        assert(ids[i as int] == available@[i as int]@);
        assert(lines[i as int] == line@);
        r.push(line);
        assert(strings_view(r@) =~= before.push(lines[i as int]));
        assert(lines.take(i + 1) =~= lines.take(i as int).push(lines[i as int]));
        assert(strings_view(r@) =~= head + lines.take(i + 1));
        i = i + 1;
    }
    assert(lines.take(n as int) =~= lines);
    assert(strings_view(r@) =~= models_report_view(*status, current@, ids));
    r
}

/// The confirmation printed after a model was added.
pub fn model_added_report(name: &str, path: &str) -> (r: Vec<String>)
    ensures
        strings_view(r@) == model_added_report_view(name@, path@),
{
    let mut first = concat3("Added model '", name, "' to ");
    first.append(path);
    first.append(".");
    let r = vec![
        first,
        String::new(),
        to_string("You can now use it with:"),
        concat3("  grok -m ", name, " \"<prompt>\""),
        to_string("or set it as the default with:"),
        concat2("  grok models default ", name),
    ];
    assert(strings_view(r@) =~= model_added_report_view(name@, path@));
    r
}

/// The confirmation printed after a default model was set.
pub fn default_set_report(model: &str) -> (r: Vec<String>)
    ensures
        strings_view(r@) == default_set_report_view(model@),
{
    let r = vec![
        concat3("Set default model to '", model, "'."),
        String::new(),
        to_string("New sessions will use this model unless you pass -m/--model."),
    ];
    assert(strings_view(r@) =~= default_set_report_view(model@));
    r
}

/// Whether a printed list entry is marked as the default model.
pub open spec fn marked_default(line: Seq<char>) -> bool {
    line.len() >= 4 && line.take(4) == "  * "@
}

/// In the model list exactly the entries whose id is the current model are
/// marked as the default, so among distinct ids at most one is; every other
/// entry is listed as `  - <id>`.
pub proof fn lemma_only_the_current_model_is_default(
    status: AuthStatus,
    current: Seq<char>,
    available: Seq<Seq<char>>,
)
    ensures
        ({
            let lines = models_report_view(status, current, available);
            &&& lines.len() == 5 + available.len()
            &&& forall|i: int|
                0 <= i < available.len() ==> (marked_default(#[trigger] lines[5 + i])
                    <==> available[i] == current)
            &&& forall|i: int|
                0 <= i < available.len() && available[i] != current ==> #[trigger] lines[5 + i]
                    == "  - "@ + available[i]
            &&& forall|i: int, j: int|
                0 <= i < j < available.len() && available[i] != available[j] ==> !(marked_default(
                    #[trigger] lines[5 + i],
                ) && marked_default(#[trigger] lines[5 + j]))
        }),
{
    reveal_strlit("  * ");
    reveal_strlit("  - ");
    let lines = models_report_view(status, current, available);
    assert forall|i: int| 0 <= i < available.len() implies (marked_default(#[trigger] lines[5 + i])
        <==> available[i] == current) by {
        let id = available[i];
        assert(lines[5 + i] == model_line_view(id, current));
        if id == current {
            assert(("  * "@ + id + " (default)"@).take(4) =~= "  * "@);
        } else {
            assert(("  - "@ + id).take(4) =~= "  - "@);
            assert("  - "@[2] != "  * "@[2]);
        }
    }
}

} // verus!
