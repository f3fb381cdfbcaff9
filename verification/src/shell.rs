//! Shell detection and configuration: which integration script a shell
//! type gets, and which program and arguments realize a requested shell
//! type. Probing the machine (spawning processes, reading the environment)
//! is the embedding application's work; the decisions are here.

use vstd::prelude::*;

use crate::text::{str_eq, str_starts_with};
use vstd::string::{StrSliceExecFns, StringExecFns};

verus! {

/// Shell integration snippets, injected after launch. The leading space
/// keeps them out of shell history; redirection hides their output.
pub const SHELL_INTEGRATION_BASH: &'static str = " eval '__sw_cwd(){ printf \"\\e]7;file://%s%s\\e\\\\\" \"${HOSTNAME:-localhost}\" \"$PWD\";};PROMPT_COMMAND=\"__sw_cwd${PROMPT_COMMAND:+;$PROMPT_COMMAND}\"' 2>/dev/null;__sw_cwd;printf '\\ec'\n";

/// Integration snippet for zsh, via a precmd hook.
pub const SHELL_INTEGRATION_ZSH: &'static str = " eval '__sw_cwd(){ printf \"\\e]7;file://%s%s\\e\\\\\" \"${HOST:-localhost}\" \"$PWD\";};autoload -Uz add-zsh-hook;add-zsh-hook precmd __sw_cwd;add-zsh-hook chpwd __sw_cwd' 2>/dev/null;__sw_cwd;printf '\\ec'\n";

/// Integration snippet for fish, via a variable event.
pub const SHELL_INTEGRATION_FISH: &'static str = " eval 'function __sw_cwd --on-variable PWD; printf \"\\e]7;file://%s%s\\e\\\\\" (hostname) $PWD; end' 2>/dev/null;__sw_cwd;printf '\\ec'\n";

/// Integration snippet for PowerShell, wrapping the prompt function.
pub const SHELL_INTEGRATION_PWSH: &'static str = " $null = Invoke-Expression 'if(-not $env:__sw_i){$env:__sw_i=1;function __sw_cwd{Write-Host -NoNewline \"`e]9;9;$($PWD.Path)`e\\\"};$__sw_op=$function:prompt;function global:prompt{__sw_cwd;if($__sw_op){&$__sw_op}else{\"PS $PWD> \"}}}';__sw_cwd;Clear-Host\n";

/// Integration snippet for cmd, via a DOSKEY macro and a custom prompt.
pub const SHELL_INTEGRATION_CMD: &'static str = "@echo off & doskey cd=cd $* ^& echo $e]9;9;%CD%$e\\ & prompt $e]9;9;$p$e\\$p$g & cls\n";

/// Which integration script a shell type gets: one per supported family,
/// none for an unknown type.
pub fn get_shell_integration_script(shell_type: &str) -> (r: Option<&'static str>)
    ensures
        (r is Some <==> (shell_type@ == "bash"@ || shell_type@ == "gitbash"@ || shell_type@
            == "zsh"@ || shell_type@ == "fish"@ || shell_type@ == "pwsh"@ || shell_type@
            == "powershell"@ || shell_type@ == "cmd"@)),
        (shell_type@ == "bash"@ || shell_type@ == "gitbash"@) ==> r == Some(
            SHELL_INTEGRATION_BASH,
        ),
        shell_type@ == "zsh"@ ==> r == Some(SHELL_INTEGRATION_ZSH),
        shell_type@ == "fish"@ ==> r == Some(SHELL_INTEGRATION_FISH),
        (shell_type@ == "pwsh"@ || shell_type@ == "powershell"@) ==> r == Some(
            SHELL_INTEGRATION_PWSH,
        ),
        shell_type@ == "cmd"@ ==> r == Some(SHELL_INTEGRATION_CMD),
{
    proof {
        reveal_strlit("bash");
        reveal_strlit("gitbash");
        reveal_strlit("zsh");
        reveal_strlit("fish");
        reveal_strlit("pwsh");
        reveal_strlit("powershell");
        reveal_strlit("cmd");
        assert("zsh"@[0] != "bash"@[0]);
        assert("zsh"@[0] != "gitbash"@[0]);
        assert("fish"@[0] != "bash"@[0]);
        assert("fish"@[0] != "gitbash"@[0]);
        assert("fish"@[0] != "zsh"@[0]);
        assert("pwsh"@[0] != "bash"@[0]);
        assert("pwsh"@[0] != "gitbash"@[0]);
        assert("pwsh"@[0] != "zsh"@[0]);
        assert("pwsh"@[0] != "fish"@[0]);
        assert("powershell"@[0] != "bash"@[0]);
        assert("powershell"@[0] != "gitbash"@[0]);
        assert("powershell"@[0] != "zsh"@[0]);
        assert("powershell"@[0] != "fish"@[0]);
        assert("cmd"@[0] != "bash"@[0]);
        assert("cmd"@[0] != "gitbash"@[0]);
        assert("cmd"@[0] != "zsh"@[0]);
        assert("cmd"@[0] != "fish"@[0]);
        assert("cmd"@[0] != "pwsh"@[0]);
        assert("cmd"@[0] != "powershell"@[0]);
    }
    if str_eq(shell_type, "bash") || str_eq(shell_type, "gitbash") {
        Some(SHELL_INTEGRATION_BASH)
    } else if str_eq(shell_type, "zsh") {
        Some(SHELL_INTEGRATION_ZSH)
    } else if str_eq(shell_type, "fish") {
        Some(SHELL_INTEGRATION_FISH)
    } else if str_eq(shell_type, "pwsh") || str_eq(shell_type, "powershell") {
        Some(SHELL_INTEGRATION_PWSH)
    } else if str_eq(shell_type, "cmd") {
        Some(SHELL_INTEGRATION_CMD)
    } else {
        None
    }
}

/// The default shell program: cmd on Windows, else the SHELL environment
/// value, else /bin/bash.
pub fn default_shell_program(windows: bool, shell_env: Option<String>) -> (r: String)
    ensures
        windows ==> r@ == "cmd.exe"@,
        !windows ==> (match shell_env {
            Some(s) => r@ == s@,
            None => r@ == "/bin/bash"@,
        }),
{
    if windows {
        "cmd.exe".to_owned()
    } else {
        match shell_env {
            Some(s) => s,
            None => "/bin/bash".to_owned(),
        }
    }
}

/// Mathematical model of a shell launch command.
pub struct ShellCommandV {
    pub program: Seq<char>,
    pub args: Seq<Seq<char>>,
}

/// A shell launch command: the program and its arguments.
#[derive(Debug)]
pub struct ShellCommand {
    /// The program to launch.
    pub program: String,
    /// Its command-line arguments.
    pub args: Vec<String>,
}

impl View for ShellCommand {
    type V = ShellCommandV;

    open spec fn view(&self) -> ShellCommandV {
        ShellCommandV { program: self.program@, args: self.args.deep_view() }
    }
}

/// Which program and arguments realize a requested shell type. `windows`
/// says whether this is a Windows machine; `powershell_path` and
/// `gitbash_path` are the probed locations of PowerShell and Git Bash, if
/// found; `default_shell` is the machine's default shell program.
pub open spec fn spec_shell_command(
    t: Option<Seq<char>>,
    windows: bool,
    powershell_path: Option<Seq<char>>,
    gitbash_path: Option<Seq<char>>,
    default_shell: Seq<char>,
) -> ShellCommandV {
    let no_args = Seq::<Seq<char>>::empty();
    match t {
        Some(name) => {
            if name == "cmd"@ {
                ShellCommandV { program: "cmd.exe"@, args: no_args }
            } else if name == "powershell"@ {
                if windows {
                    match powershell_path {
                        Some(p) => ShellCommandV { program: p, args: no_args },
                        None => ShellCommandV { program: "powershell.exe"@, args: no_args },
                    }
                } else {
                    ShellCommandV { program: default_shell, args: no_args }
                }
            } else if name == "wsl"@ {
                ShellCommandV { program: "wsl.exe"@, args: no_args }
            } else if name == "gitbash"@ {
                if windows {
                    match gitbash_path {
                        Some(p) => ShellCommandV { program: p, args: seq!["--login"@] },
                        None => ShellCommandV { program: default_shell, args: no_args },
                    }
                } else {
                    ShellCommandV { program: "bash"@, args: no_args }
                }
            } else if name == "bash"@ {
                ShellCommandV { program: "bash"@, args: no_args }
            } else if name == "zsh"@ {
                ShellCommandV { program: "zsh"@, args: no_args }
            } else if name.len() > 7 && name.take(7) == "custom:"@ {
                ShellCommandV { program: name.skip(7), args: no_args }
            } else {
                ShellCommandV { program: default_shell, args: no_args }
            }
        },
        None => ShellCommandV { program: default_shell, args: no_args },
    }
}

/// Resolves a requested shell type to a launch command, per
/// `spec_shell_command`. A `custom:/path/to/shell` request launches the
/// named path; an unknown or absent type falls back to the default shell.
pub fn get_shell_by_type(
    shell_type: Option<&str>,
    windows: bool,
    powershell_path: Option<String>,
    gitbash_path: Option<String>,
    default_shell: String,
) -> (r: ShellCommand)
    ensures
        r@ == spec_shell_command(
            (match shell_type {
                Some(t) => Some(t@),
                None => None,
            }),
            windows,
            powershell_path.deep_view(),
            gitbash_path.deep_view(),
            default_shell@,
        ),
{
    let no_args: Vec<String> = Vec::new();
    proof {
        assert(no_args.deep_view() =~= Seq::<Seq<char>>::empty());
    }
    match shell_type {
        Some(name) => {
            if str_eq(name, "cmd") {
                ShellCommand { program: "cmd.exe".to_owned(), args: no_args }
            } else if str_eq(name, "powershell") {
                if windows {
                    match powershell_path {
                        Some(p) => ShellCommand { program: p, args: no_args },
                        None => ShellCommand { program: "powershell.exe".to_owned(), args: no_args },
                    }
                } else {
                    ShellCommand { program: default_shell, args: no_args }
                }
            } else if str_eq(name, "wsl") {
                ShellCommand { program: "wsl.exe".to_owned(), args: no_args }
            } else if str_eq(name, "gitbash") {
                if windows {
                    match gitbash_path {
                        Some(p) => {
                            let mut args: Vec<String> = Vec::new();
                            args.push("--login".to_owned());
                            proof {
                                assert(args.deep_view() =~= seq!["--login"@]);
                            }
                            ShellCommand { program: p, args }
                        },
                        None => ShellCommand { program: default_shell, args: no_args },
                    }
                } else {
                    ShellCommand { program: "bash".to_owned(), args: no_args }
                }
            } else if str_eq(name, "bash") {
                ShellCommand { program: "bash".to_owned(), args: no_args }
            } else if str_eq(name, "zsh") {
                ShellCommand { program: "zsh".to_owned(), args: no_args }
            } else {
                let n: usize = name.unicode_len();
                if n > 7 && str_starts_with(name, "custom:") {
                    proof {
                        reveal_strlit("custom:");
                    }
                    let path = name.substring_char(7, n);
                    ShellCommand { program: String::from_str(path), args: no_args }
                } else {
                    proof {
                        reveal_strlit("custom:");
                    }
                    ShellCommand { program: default_shell, args: no_args }
                }
            }
        },
        None => ShellCommand { program: default_shell, args: no_args },
    }
}

/// The well-known installation paths where Git Bash is probed for, ending
/// with the per-user installation under the given profile directory.
pub fn gitbash_candidate_paths(userprofile: &str) -> (r: Vec<String>)
    ensures
        r.deep_view() =~= seq![
            "C:\\Program Files\\Git\\bin\\bash.exe"@,
            "C:\\Program Files (x86)\\Git\\bin\\bash.exe"@,
            userprofile@ + "\\AppData\\Local\\Programs\\Git\\bin\\bash.exe"@,
        ],
{
    let mut r: Vec<String> = Vec::new();
    r.push("C:\\Program Files\\Git\\bin\\bash.exe".to_owned());
    r.push("C:\\Program Files (x86)\\Git\\bin\\bash.exe".to_owned());
    let mut user_path = userprofile.to_owned();
    user_path.append("\\AppData\\Local\\Programs\\Git\\bin\\bash.exe");
    r.push(user_path);
    r
}

/// Whether a path found on the PATH is a Git-installed bash: it must
/// mention "Git".
pub fn is_git_bash_path(path: &str) -> (r: bool)
    ensures
        r == crate::text::spec_contains(path@, "Git"@),
{
    crate::text::str_contains(path, "Git")
}

} // verus!
