//! How an installed upload is launched: which executable, with which
//! arguments, through which wrapper.
use vstd::prelude::*;
use vstd::string::StringExecFns;
use crate::heuristics::GamePlatform;
use crate::itch_api::types::{Manifest, ManifestAction};

verus! {

/// The name of the manifest action that launches a game by default.
pub open spec fn play_action() -> Seq<char> {
    "play"@
}

/// Finds the action named `action_name` (by default, `play`) in a game's
/// manifest: the index of the first one with that name in the manifest's
/// actions. `None` when there is no manifest, no action list or no such
/// action.
pub fn launch_action(manifest: Option<&Manifest>, action_name: Option<&str>) -> (r: Option<usize>)
    ensures
        ({
            let name = match action_name {
                Some(n) => n@,
                None => play_action(),
            };
            match manifest {
                Some(m) => match m.actions {
                    Some(actions) => match r {
                        Some(i) => i < actions@.len() && actions@[i as int].name@ == name && forall|
                            j: int,
                        | 0 <= j < i ==> #[trigger] actions@[j].name@ != name,
                        None => forall|i: int| 0 <= i < actions@.len() ==> #[trigger] actions@[i].name@ != name,
                    },
                    None => r is None,
                },
                None => r is None,
            }
        }),
{
    let name = match action_name {
        Some(n) => String::from_str(n),
        None => String::from_str("play"),
    };
    let m = match manifest {
        Some(m) => m,
        None => {
            return None;
        },
    };
    let actions = match &m.actions {
        Some(a) => a,
        None => {
            return None;
        },
    };
    let mut i: usize = 0;
    while i < actions.len()
        invariant
            i <= actions@.len(),
            name@ == match action_name {
                Some(n) => n@,
                None => play_action(),
            },
            manifest == Some(m),
            m.actions == Some(*actions),
            forall|j: int| 0 <= j < i ==> #[trigger] actions@[j].name@ != name@,
        decreases actions@.len() - i,
    {
        if actions[i].name == name {
            return Some(i);
        }
        i = i + 1;
    }
    None
}

/// How the executable of an upload is chosen.
#[derive(Debug, Clone, PartialEq, Eq)]
pub enum LaunchMethod {
    /// This executable.
    AlternativeExecutable(String),
    /// The manifest action with this name.
    ManifestAction(String),
    /// The manifest's `play` action if there is one, otherwise the
    /// heuristics, for this platform and the game with this title.
    Heuristics(GamePlatform, String),
}

/// What a launch runs.
#[derive(Debug, Clone, PartialEq, Eq)]
pub enum LaunchTarget {
    /// This executable, with its path as the launch method or the manifest
    /// action gives it, and these arguments.
    Executable { path: String, args: Vec<String> },
    /// The executable the heuristics find, with these arguments.
    SearchExecutable { args: Vec<String> },
}

/// The arguments a manifest action is launched with: the given ones, or the
/// action's own when none are given.
pub open spec fn action_arguments(given: Seq<String>, action: ManifestAction) -> Seq<String> {
    if given.len() == 0 {
        match action.args {
            Some(a) => a@,
            None => seq![],
        }
    } else {
        given
    }
}

fn arguments_for(given: &Vec<String>, action: &ManifestAction) -> (r: Vec<String>)
    ensures
        r@ == action_arguments(given@, *action),
{
    if given.len() == 0 {
        match &action.args {
            Some(a) => a.clone(),
            None => Vec::new(),
        }
    } else {
        given.clone()
    }
}

/// Decides what a launch runs. `action` is the action [`launch_action`] found in
/// the manifest: the named action for a manifest action launch, the `play`
/// action for a heuristics launch.
pub fn resolve_launch(
    method: &LaunchMethod,
    action: Option<&ManifestAction>,
    game_arguments: &Vec<String>,
) -> (r: Result<LaunchTarget, String>)
    ensures
        match method {
            LaunchMethod::AlternativeExecutable(p) => r matches Ok(LaunchTarget::Executable { path, args })
                && path@ == p@ && args@ == game_arguments@,
            LaunchMethod::ManifestAction(name) => match action {
                Some(a) => r matches Ok(LaunchTarget::Executable { path, args }) && path@ == a.path@
                    && args@ == action_arguments(game_arguments@, *a),
                None => r matches Err(msg) && msg@
                    == "The provided launch action doesn't exist in the manifest: "@ + name@,
            },
            LaunchMethod::Heuristics(_, _) => match action {
                Some(a) => r matches Ok(LaunchTarget::Executable { path, args }) && path@ == a.path@
                    && args@ == action_arguments(game_arguments@, *a),
                None => r matches Ok(LaunchTarget::SearchExecutable { args }) && args@
                    == game_arguments@,
            },
        },
{
    match method {
        LaunchMethod::AlternativeExecutable(p) => Ok(
            LaunchTarget::Executable { path: p.clone(), args: game_arguments.clone() },
        ),
        LaunchMethod::ManifestAction(name) => match action {
            Some(a) => {
                let args = arguments_for(game_arguments, a);
                Ok(LaunchTarget::Executable { path: a.path.clone(), args })
            },
            None => Err(
                String::from_str("The provided launch action doesn't exist in the manifest: ").concat(
                    name.as_str(),
                ),
            ),
        },
        LaunchMethod::Heuristics(_, _) => match action {
            Some(a) => {
                let args = arguments_for(game_arguments, a);
                Ok(LaunchTarget::Executable { path: a.path.clone(), args })
            },
            None => Ok(LaunchTarget::SearchExecutable { args: game_arguments.clone() }),
        },
    }
}

/// The program and arguments that run `executable` with `game_arguments`:
/// without a wrapper the executable itself; with one, the wrapper's first
/// word, then its other words, then the executable. The game's arguments
/// come last.
pub open spec fn spec_command_line(
    wrapper: Seq<Seq<char>>,
    executable: Seq<char>,
    game_arguments: Seq<Seq<char>>,
) -> (Seq<char>, Seq<Seq<char>>) {
    if wrapper.len() == 0 {
        (executable, game_arguments)
    } else {
        (wrapper[0], wrapper.skip(1) + seq![executable] + game_arguments)
    }
}

/// The texts of a list of strings.
pub open spec fn texts(v: Seq<String>) -> Seq<Seq<char>> {
    v.map_values(|s: String| s@)
}

fn append_texts(out: &mut Vec<String>, items: &Vec<String>, from: usize)
    requires
        from <= items@.len(),
    ensures
        texts(final(out)@) == texts(old(out)@) + texts(items@).skip(from as int),
{
    let mut i = from;
    while i < items.len()
        invariant
            from <= i <= items@.len(),
            texts(out@) == texts(old(out)@) + texts(items@).subrange(from as int, i as int),
        decreases items@.len() - i,
    {
        let ghost before = out@;
        out.push(items[i].clone());
        proof {
            assert(texts(out@) =~= texts(before).push(items@[i as int]@));
            assert(texts(items@).subrange(from as int, i + 1) =~= texts(items@).subrange(
                from as int,
                i as int,
            ).push(items@[i as int]@));
        }
        i = i + 1;
    }
    proof {
        assert(texts(items@).subrange(from as int, i as int) =~= texts(items@).skip(from as int));
    }
}

/// The program to run and its arguments.
pub fn command_line(wrapper: &Vec<String>, executable: &str, game_arguments: &Vec<String>) -> (r: (
    String,
    Vec<String>,
))
    ensures
        (r.0@, texts(r.1@)) == spec_command_line(texts(wrapper@), executable@, texts(game_arguments@)),
{
    let mut args: Vec<String> = Vec::new();
    if wrapper.len() == 0 {
        append_texts(&mut args, game_arguments, 0);
        proof {
            assert(texts(game_arguments@).skip(0) =~= texts(game_arguments@));
            assert(texts(args@) =~= texts(game_arguments@));
        }
        (String::from_str(executable), args)
    } else {
        append_texts(&mut args, wrapper, 1);
        let ghost mid = texts(args@);
        args.push(String::from_str(executable));
        proof {
            assert(texts(args@) =~= mid.push(executable@));
        }
        append_texts(&mut args, game_arguments, 0);
        proof {
            assert(texts(game_arguments@).skip(0) =~= texts(game_arguments@));
            assert(texts(args@) =~= texts(wrapper@).skip(1) + seq![executable@] + texts(game_arguments@));
        }
        (wrapper[0].clone(), args)
    }
}

/// The error code of a program that isn't in an executable format for the
/// system.
pub const EXEC_FORMAT_ERROR: i32 = 8;

/// The message for a launch that couldn't start the process, given the
/// system's error code and its description of the error.
pub open spec fn spec_spawn_error_message(raw_os_error: Option<i32>, description: Seq<char>) -> Seq<char> {
    if raw_os_error == Some(EXEC_FORMAT_ERROR) {
        "Couldn't spawn the child process because it is not an executable format for this OS\nMaybe a wrapper is missing or the selected game executable isn't the correct one!"@
    } else {
        "Couldn't spawn the child process: "@ + description
    }
}

/// The message for a launch that couldn't start the process.
pub fn spawn_error_message(raw_os_error: Option<i32>, description: &str) -> (r: String)
    ensures
        r@ == spec_spawn_error_message(raw_os_error, description@),
{
    if raw_os_error == Some(EXEC_FORMAT_ERROR) {
        String::from_str(
            "Couldn't spawn the child process because it is not an executable format for this OS\nMaybe a wrapper is missing or the selected game executable isn't the correct one!",
        )
    } else {
        String::from_str("Couldn't spawn the child process: ").concat(description)
    }
}


/// What `shell_words::split` gives for `s`: the words, split as a Unix
/// shell does, or `None` when a quote isn't closed.
pub uninterp spec fn spec_shell_split(s: Seq<char>) -> Option<Seq<Seq<char>>>;

/// Splits `s` into words with `shell_words::split`. The contract claims
/// only that the outcome depends on the text alone.
#[verifier::external_body]
fn shell_split(s: &str) -> (r: Option<Vec<String>>)
    ensures
        r is Some <==> spec_shell_split(s@) is Some,
        r matches Some(v) ==> spec_shell_split(s@) == Some(texts(v@)),
{
    match shell_words::split(s) {
        Ok(v) => Some(v),
        Err(_) => None,
    }
}

/// Which list of words couldn't be split.
#[derive(Debug, Clone, Copy, PartialEq, Eq)]
pub enum WordsKind {
    WrapperArguments,
    GameArguments,
    EnvironmentVariables,
}

/// Why the options of a launch can't be used.
#[derive(Debug, Clone, PartialEq, Eq)]
pub enum LaunchOptionsError {
    /// A list of words has a quote that isn't closed.
    UnclosedQuote { kind: WordsKind, text: String },
    /// An environment variable has no `=` between its name and its value.
    MissingEquals { variable: String },
    /// None of an executable, a manifest action or a platform was given.
    NoLaunchMethod,
}

/// The words of an optional list: none when it is absent.
pub fn split_words(text: Option<&str>, kind: WordsKind) -> (r: Result<Vec<String>, LaunchOptionsError>)
    ensures
        match text {
            None => r matches Ok(v) && v@.len() == 0,
            Some(t) => match spec_shell_split(t@) {
                Some(words) => r matches Ok(v) && texts(v@) == words,
                None => r matches Err(LaunchOptionsError::UnclosedQuote { kind: k, text: x }) && k
                    == kind && x@ == t@,
            },
        },
{
    match text {
        None => Ok(Vec::new()),
        Some(t) => match shell_split(t) {
            Some(v) => Ok(v),
            None => Err(LaunchOptionsError::UnclosedQuote { kind, text: String::from_str(t) }),
        },
    }
}

/// The index of the first `=` in `s`, if any.
pub open spec fn first_equals(s: Seq<char>) -> Option<int> {
    if exists|i: int| 0 <= i < s.len() && s[i] == '=' {
        Some(choose|i: int| 0 <= i < s.len() && s[i] == '=' && forall|j: int| 0 <= j < i ==> s[j] != '=')
    } else {
        None
    }
}

/// Splits an environment variable `NAME=value` at its first `=`.
pub fn parse_environment_variable(variable: &str) -> (r: Result<(String, String), LaunchOptionsError>)
    ensures
        (forall|i: int| 0 <= i < variable@.len() ==> variable@[i] != '=') ==> (r matches Err(
            LaunchOptionsError::MissingEquals { variable: v },
        ) && v@ == variable@),
        r matches Ok((k, v)) ==> exists|i: int|
            0 <= i < variable@.len() && variable@[i] == '=' && (forall|j: int|
                0 <= j < i ==> variable@[j] != '=') && k@ == variable@.subrange(0, i) && v@
                == variable@.subrange(i + 1, variable@.len() as int),
        (exists|i: int| 0 <= i < variable@.len() && variable@[i] == '=') ==> r is Ok,
{
    let n = variable.unicode_len();
    let mut i: usize = 0;
    while i < n
        invariant
            i <= n,
            n == variable@.len(),
            forall|j: int| 0 <= j < i ==> variable@[j] != '=',
        decreases n - i,
    {
        if variable.get_char(i) == '=' {
            let name = substring(variable, 0, i);
            let value = substring(variable, i + 1, n);
            return Ok((name, value));
        }
        i = i + 1;
    }
    Err(LaunchOptionsError::MissingEquals { variable: String::from_str(variable) })
}

/// The characters of `s` from `from` to `to`.
fn substring(s: &str, from: usize, to: usize) -> (r: String)
    requires
        from <= to <= s@.len(),
    ensures
        r@ == s@.subrange(from as int, to as int),
{
    let mut out = String::new();
    let mut i = from;
    while i < to
        invariant
            from <= i <= to,
            to <= s@.len(),
            out@ == s@.subrange(from as int, i as int),
        decreases to - i,
    {
        crate::text::push_char(&mut out, s.get_char(i));
        proof {
            assert(s@.subrange(from as int, i + 1) =~= s@.subrange(from as int, i as int).push(s@[i as int]));
        }
        i = i + 1;
    }
    out
}

/// The launch method the options ask for: an executable first, then a
/// manifest action, then a platform to search an executable for.
pub fn choose_launch_method(
    executable: Option<String>,
    action: Option<String>,
    platform: Option<GamePlatform>,
    game_title: String,
) -> (r: Result<LaunchMethod, LaunchOptionsError>)
    ensures
        match (executable, action, platform) {
            (Some(e), _, _) => r == Ok::<LaunchMethod, LaunchOptionsError>(LaunchMethod::AlternativeExecutable(e)),
            (None, Some(a), _) => r == Ok::<LaunchMethod, LaunchOptionsError>(LaunchMethod::ManifestAction(a)),
            (None, None, Some(p)) => r == Ok::<LaunchMethod, LaunchOptionsError>(LaunchMethod::Heuristics(p, game_title)),
            (None, None, None) => r == Err::<LaunchMethod, LaunchOptionsError>(LaunchOptionsError::NoLaunchMethod),
        },
{
    if let Some(e) = executable {
        Ok(LaunchMethod::AlternativeExecutable(e))
    } else if let Some(a) = action {
        Ok(LaunchMethod::ManifestAction(a))
    } else if let Some(p) = platform {
        Ok(LaunchMethod::Heuristics(p, game_title))
    } else {
        Err(LaunchOptionsError::NoLaunchMethod)
    }
}

/// A launch runs the wrapper's words, then the executable, then the game's
/// arguments: the program followed by its arguments is exactly that
/// sequence, so the game's arguments always come last and whole.
pub proof fn command_lines_run_the_wrapper_then_the_game(
    wrapper: Seq<Seq<char>>,
    executable: Seq<char>,
    game_arguments: Seq<Seq<char>>,
)
    ensures
        seq![spec_command_line(wrapper, executable, game_arguments).0] + spec_command_line(
            wrapper,
            executable,
            game_arguments,
        ).1 == wrapper + seq![executable] + game_arguments,
{
    let (prog, args) = spec_command_line(wrapper, executable, game_arguments);
    if wrapper.len() == 0 {
        assert(seq![prog] + args =~= wrapper + seq![executable] + game_arguments);
    } else {
        assert(seq![prog] + args =~= wrapper + seq![executable] + game_arguments);
    }
}

} // verus!
