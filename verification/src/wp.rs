//! The external management tool: its handle, the privilege-aware
//! construction of its command line, the interpretation of a finished
//! invocation, and the decisions of the installation-root locator and of
//! the installer.

use vstd::prelude::*;
use vstd::string::*;
use crate::text::dec_str;
use crate::text::string_views;
use crate::text::u64_to_string;

verus! {

/// The errors of the tool front-end, each carrying its message text.
#[derive(Debug)]
pub enum WpError {
    /// The run cannot proceed: root not found, or install declined.
    Configuration(String),
    /// The external tool exited non-zero; carries the captured error text.
    Execution(String),
    /// A response of the external tool was malformed.
    Parse(String),
    /// Filesystem or network access failed outside the tool itself.
    Resource(String),
}

impl WpError {
    /// The message text the error carries.
    pub fn text(&self) -> (msg: &String)
        ensures
            msg@ == (match *self {
                WpError::Configuration(ref m) => m@,
                WpError::Execution(ref m) => m@,
                WpError::Parse(ref m) => m@,
                WpError::Resource(ref m) => m@,
            }),
    {
        match self {
            WpError::Configuration(m) => m,
            WpError::Execution(m) => m,
            WpError::Parse(m) => m,
            WpError::Resource(m) => m,
        }
    }
}

/// Handle on the external management tool: the resolved executable path.
pub struct WpCli {
    pub executable_path: String,
}

/// A fully built invocation of the external tool: the program to execute
/// and its argument list, in order.
pub struct Invocation {
    pub program: String,
    pub args: Vec<String>,
}

/// The mathematical value of an invocation.
#[verifier::ext_equal]
pub ghost struct InvocationView {
    pub program: Seq<char>,
    pub args: Seq<Seq<char>>,
}

impl View for Invocation {
    type V = InvocationView;

    open spec fn view(&self) -> InvocationView {
        InvocationView { program: self.program@, args: string_views(self.args@) }
    }
}

/// The privilege-aware invocation of the tool, a pure function of the tool
/// path, the original arguments, whether the current identity is the
/// superuser, and the owner of the target resource (absent when the owner
/// could not be read):
/// - an unprivileged caller runs the tool directly with the arguments
///   unchanged;
/// - a privileged caller whose target is owned by the superuser runs the
///   tool directly with one extra flag permitting superuser execution;
/// - a privileged caller whose target is owned by another account runs the
///   privilege-switch utility instead, handing it the owner id, an
///   end-of-options marker, the tool path, and the original arguments
///   unchanged and in order;
/// - a privileged caller who could not read the owner runs the tool
///   directly with the arguments unchanged.
pub open spec fn privileged_invocation(
    tool: Seq<char>,
    args: Seq<Seq<char>>,
    privileged: bool,
    owner_uid: Option<u32>,
) -> InvocationView {
    if !privileged {
        InvocationView { program: tool, args }
    } else {
        match owner_uid {
            Option::None => InvocationView { program: tool, args },
            Option::Some(uid) => if uid == 0 {
                InvocationView { program: tool, args: args.push("--allow-root"@) }
            } else {
                InvocationView {
                    program: "sudo"@,
                    args: seq!["-u"@, seq!['#'] + dec_str(uid as int), "--"@, tool] + args,
                }
            },
        }
    }
}

/// Clones a list of strings.
fn clone_strings(v: &Vec<String>) -> (cloned: Vec<String>)
    ensures
        string_views(cloned@) == string_views(v@),
{
    let mut cloned: Vec<String> = Vec::new();
    let n = v.len();
    let mut i: usize = 0;
    while i < n
        invariant
            n == v@.len(),
            i <= n,
            cloned@.len() == i,
            forall|k: int| 0 <= k < i ==> cloned@[k]@ == v@[k]@,
        decreases n - i,
    {
        cloned.push(v[i].clone());
        i = i + 1;
    }
    proof {
        assert(string_views(cloned@) =~= string_views(v@));
    }
    cloned
}

impl WpCli {
    /// A fresh handle that names the tool by its well-known name on the
    /// search path.
    pub fn new() -> (cli: WpCli)
        ensures
            cli.executable_path@ == "wp"@,
    {
        WpCli { executable_path: "wp".to_owned() }
    }

    /// A handle on the tool at a resolved executable path, as the
    /// installer produces it once the tool's location is settled.
    pub fn with_path(path: String) -> (cli: WpCli)
        ensures
            cli.executable_path@ == path@,
    {
        WpCli { executable_path: path }
    }

    /// Whether the handle still names the tool by its well-known name, so
    /// that availability is a search of the path rather than of one file.
    pub fn uses_well_known_name(&self) -> (well_known: bool)
        ensures
            well_known == (self.executable_path@ == "wp"@),
    {
        crate::text::str_eq(self.executable_path.as_str(), "wp")
    }

    /// Builds the privilege-aware invocation of the tool for the given
    /// argument list, current privilege, and owner of the target resource.
    pub fn build_invocation(
        &self,
        args: &Vec<String>,
        privileged: bool,
        owner_uid: Option<u32>,
    ) -> (inv: Invocation)
        ensures
            inv@ == privileged_invocation(
                self.executable_path@,
                string_views(args@),
                privileged,
                owner_uid,
            ),
    {
        let mut final_args = clone_strings(args);
        if privileged {
            match owner_uid {
                Option::Some(uid) => {
                    if uid == 0 {
                        let ghost before = string_views(final_args@);
                        final_args.push("--allow-root".to_owned());
                        proof {
                            assert(string_views(final_args@) =~= before.push("--allow-root"@));
                        }
                        let inv = Invocation { program: self.executable_path.clone(), args: final_args };
                        proof {
                            assert(inv@ =~= privileged_invocation(
                                self.executable_path@,
                                string_views(args@),
                                privileged,
                                owner_uid,
                            ));
                        }
                        inv
                    } else {
                        let mut uid_arg = "#".to_owned();
                        uid_arg.append(u64_to_string(uid as u64).as_str());
                        let mut new_args: Vec<String> = Vec::new();
                        new_args.push("-u".to_owned());
                        new_args.push(uid_arg);
                        new_args.push("--".to_owned());
                        new_args.push(self.executable_path.clone());
                        new_args.append(&mut final_args);
                        let inv = Invocation { program: "sudo".to_owned(), args: new_args };
                        proof {
                            reveal_strlit("#");
                            assert(seq!['#'] =~= "#"@);
                            assert(inv@ =~= privileged_invocation(
                                self.executable_path@,
                                string_views(args@),
                                privileged,
                                owner_uid,
                            ));
                        }
                        inv
                    }
                },
                Option::None => {
                    let inv = Invocation { program: self.executable_path.clone(), args: final_args };
                    proof {
                        assert(inv@ =~= privileged_invocation(
                            self.executable_path@,
                            string_views(args@),
                            privileged,
                            owner_uid,
                        ));
                    }
                    inv
                },
            }
        } else {
            let inv = Invocation { program: self.executable_path.clone(), args: final_args };
            proof {
                assert(inv@ =~= privileged_invocation(
                    self.executable_path@,
                    string_views(args@),
                    privileged,
                    owner_uid,
                ));
            }
            inv
        }
    }
}

/// The error text of a failed invocation: the captured standard-error
/// text, falling back to the standard-output text when standard error is
/// empty.
pub open spec fn run_failure_text(stdout: Seq<char>, stderr: Seq<char>) -> Seq<char> {
    "WP-CLI failed: "@ + (if stderr.len() == 0 {
        stdout
    } else {
        stderr
    })
}

/// Interprets a finished invocation: a successful exit yields the captured
/// standard-output text; a non-zero exit yields an execution error carrying
/// the captured error text.
pub fn interpret_output(success: bool, stdout: String, stderr: String) -> (outcome: Result<
    String,
    WpError,
>)
    ensures
        success ==> (outcome matches Ok(out) && out@ == stdout@),
        !success ==> (outcome matches Err(WpError::Execution(msg)) && msg@ == run_failure_text(
            stdout@,
            stderr@,
        )),
{
    if success {
        Ok(stdout)
    } else {
        let mut msg = "WP-CLI failed: ".to_owned();
        if stderr.as_str().unicode_len() == 0 {
            msg.append(stdout.as_str());
        } else {
            msg.append(stderr.as_str());
        }
        Err(WpError::Execution(msg))
    }
}

/// Where the locator settles, before any interactive prompt.
#[derive(Debug, PartialEq, Eq, Structural)]
pub enum RootChoice {
    /// The nearest ancestor whose index carries the marker file.
    Ancestor(usize),
    /// No ancestor has the marker, but the fixed fallback directory does.
    Fallback,
    /// Neither ancestors nor fallback have the marker: a path must be
    /// asked for interactively.
    NeedPrompt,
}

/// The locator's decision: given, for the working directory and each
/// ancestor in upward order, whether it holds the marker file, and whether
/// the fixed fallback directory holds it, the nearest marked ancestor wins;
/// failing that the fallback; failing that a prompt is needed.
pub fn choose_root(ancestor_has_marker: &Vec<bool>, fallback_has_marker: bool) -> (choice:
    RootChoice)
    ensures
        choice matches RootChoice::Ancestor(i) ==> i < ancestor_has_marker@.len()
            && ancestor_has_marker@[i as int] && (forall|k: int|
            0 <= k < i ==> !ancestor_has_marker@[k]),
        (forall|k: int| 0 <= k < ancestor_has_marker@.len() ==> !ancestor_has_marker@[k])
            ==> !(choice matches RootChoice::Ancestor(_)),
        choice == RootChoice::Fallback ==> (forall|k: int|
            0 <= k < ancestor_has_marker@.len() ==> !ancestor_has_marker@[k])
            && fallback_has_marker,
        choice == RootChoice::NeedPrompt ==> (forall|k: int|
            0 <= k < ancestor_has_marker@.len() ==> !ancestor_has_marker@[k])
            && !fallback_has_marker,
{
    let n = ancestor_has_marker.len();
    let mut i: usize = 0;
    while i < n
        invariant
            n == ancestor_has_marker@.len(),
            i <= n,
            forall|k: int| 0 <= k < i ==> !ancestor_has_marker@[k],
        decreases n - i,
    {
        if ancestor_has_marker[i] {
            return RootChoice::Ancestor(i);
        }
        i = i + 1;
    }
    if fallback_has_marker {
        RootChoice::Fallback
    } else {
        RootChoice::NeedPrompt
    }
}

/// Validation of an interactively entered root path: the path is accepted
/// exactly when it holds the marker file; otherwise the run is refused
/// with a configuration error.
pub fn validate_entered_root(has_marker: bool) -> (outcome: Result<(), WpError>)
    ensures
        has_marker <==> outcome is Ok,
        outcome matches Err(e) ==> (e matches WpError::Configuration(msg) && msg@
            == "Invalid WordPress path provided."@),
{
    if has_marker {
        Ok(())
    } else {
        Err(WpError::Configuration("Invalid WordPress path provided.".to_owned()))
    }
}

/// What the installer should do next, before any interactive prompt.
#[derive(Debug, PartialEq, Eq, Structural)]
pub enum InstallStep {
    /// The tool is already available; nothing to do.
    AlreadyInstalled,
    /// A previously downloaded local copy exists and is used.
    UseLocalCopy,
    /// The tool is missing: confirmation to download must be asked for.
    MustPrompt,
}

/// The installer's decision: an available tool needs nothing, a local copy
/// from an earlier run is reused, and only otherwise is a download prompt
/// needed.
pub fn install_step(installed: bool, local_copy_exists: bool) -> (step: InstallStep)
    ensures
        installed ==> step == InstallStep::AlreadyInstalled,
        !installed && local_copy_exists ==> step == InstallStep::UseLocalCopy,
        !installed && !local_copy_exists ==> step == InstallStep::MustPrompt,
{
    if installed {
        InstallStep::AlreadyInstalled
    } else if local_copy_exists {
        InstallStep::UseLocalCopy
    } else {
        InstallStep::MustPrompt
    }
}

/// The outcome of the download prompt: declining the download is a
/// configuration error that aborts the run.
pub fn install_confirmation(confirmed: bool) -> (outcome: Result<(), WpError>)
    ensures
        confirmed <==> outcome is Ok,
        outcome matches Err(e) ==> (e matches WpError::Configuration(msg) && msg@
            == "WP-CLI is required to proceed."@),
{
    if confirmed {
        Ok(())
    } else {
        Err(WpError::Configuration("WP-CLI is required to proceed.".to_owned()))
    }
}

} // verus!
