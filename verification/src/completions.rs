//! Shell completion scripts.

use vstd::prelude::*;

use crate::text::{ascii_lower, ascii_lowercase, same_chars};

verus! {

/// A shell for which a completion script exists.
#[derive(Debug, Clone, Copy, PartialEq, Eq, Structural)]
pub enum Shell {
    Bash,
    Zsh,
    Fish,
    Powershell,
}

/// The shell that a name denotes, compared without regard to ASCII case.
pub open spec fn shell_named(name: Seq<char>) -> Option<Shell> {
    let lower = ascii_lower(name);
    if lower == "bash"@ {
        Some(Shell::Bash)
    } else if lower == "zsh"@ {
        Some(Shell::Zsh)
    } else if lower == "fish"@ {
        Some(Shell::Fish)
    } else if lower == "powershell"@ || lower == "pwsh"@ {
        Some(Shell::Powershell)
    } else {
        None
    }
}

impl Shell {
    /// The shell named `value`: `bash`, `zsh`, `fish`, `powershell` or `pwsh`, in any ASCII case.
    pub fn parse(value: &str) -> (r: Option<Shell>)
        ensures
            r == shell_named(value@),
    {
        let lower = ascii_lowercase(value);
        if same_chars(&lower, &crate::text::chars_of("bash")) {
            Some(Shell::Bash)
        } else if same_chars(&lower, &crate::text::chars_of("zsh")) {
            Some(Shell::Zsh)
        } else if same_chars(&lower, &crate::text::chars_of("fish")) {
            Some(Shell::Fish)
        } else if same_chars(&lower, &crate::text::chars_of("powershell")) || same_chars(
            &lower,
            &crate::text::chars_of("pwsh"),
        ) {
            Some(Shell::Powershell)
        } else {
            None
        }
    }
}

/// The completion script for `shell`.
pub fn script(shell: Shell) -> (r: &'static str)
    ensures
        r == match shell {
            Shell::Bash => BASH,
            Shell::Zsh => ZSH,
            Shell::Fish => FISH,
            Shell::Powershell => POWERSHELL,
        },
{
    match shell {
        Shell::Bash => BASH,
        Shell::Zsh => ZSH,
        Shell::Fish => FISH,
        Shell::Powershell => POWERSHELL,
    }
}

pub const BASH: &'static str = r#"_yoo() {
  local current previous command
  COMPREPLY=()
  current="${COMP_WORDS[COMP_CWORD]}"
  previous="${COMP_WORDS[COMP_CWORD-1]}"
  command="${COMP_WORDS[1]}"

  if [[ "$previous" == "completions" ]]; then
    COMPREPLY=( $(compgen -W "bash zsh fish powershell" -- "$current") )
    return
  fi

  if [[ "$previous" == "--theme" ]]; then
    COMPREPLY=( $(compgen -W "neon ocean mono dracula tokyo-night gruvbox nord rose-pine catppuccin" -- "$current") )
    return
  fi

  case "$command" in
    fetch|status|project)
      COMPREPLY=( $(compgen -W "--json --no-art --plain --theme" -- "$current") ) ;;
    session)
      COMPREPLY=( $(compgen -W "--minutes" -- "$current") ) ;;
    snapshot)
      COMPREPLY=( $(compgen -W "list compare" -- "$current") ) ;;
    *)
      COMPREPLY=( $(compgen -W "init config doctor edit fetch status project snapshot session tip tips completions version help --fast --no-art --plain --name --theme -h --help -V --version" -- "$current") ) ;;
  esac
}
complete -F _yoo yoo
"#;

pub const ZSH: &'static str = r#"#compdef yoo

_yoo() {
  local -a commands themes shells
  commands=(
    'init:Create the default config and sample tip pack'
    'config:Print the config file location'
    'doctor:Check tools and project setup'
    'edit:Open the current directory in an editor'
    'fetch:Show environment and project information'
    'status:Alias for fetch'
    'project:Show a structured project overview'
    'snapshot:Save, list, or compare project snapshots'
    'session:Start a coding-session timer'
    'tip:Print a random tip'
    'tips:List installed tip packs'
    'completions:Generate shell completions'
    'version:Print version'
    'help:Print help'
  )
  themes=(neon ocean mono dracula tokyo-night gruvbox nord rose-pine catppuccin)
  shells=(bash zsh fish powershell)

  _arguments -C \
    '--fast[skip the typewriter animation]' \
    '--no-art[hide the ASCII logo]' \
    '--plain[disable ANSI colours]' \
    '--name[override the profile name]:name:' \
    '--theme[override the theme]:theme:($themes)' \
    '1:command:->command' \
    '*::argument:->args'

  case "$state" in
    command) _describe 'command' commands ;;
    args)
      case "$words[2]" in
        fetch|status|project)
          _arguments '--json[machine-readable JSON]' '--no-art[hide art]' '--plain[disable colours]' '--theme[override theme]:theme:($themes)' ;;
        session) _arguments '--minutes[session length]:minutes:' '1:minutes:' ;;
        edit) _arguments '--editor[use a specific editor]:editor:_command_names' ;;
        snapshot) _values 'action' list compare ;;
        completions) _values 'shell' $shells ;;
      esac ;;
  esac
}

_yoo "$@"
"#;

pub const FISH: &'static str = r#"complete -c yoo -f
complete -c yoo -n '__fish_use_subcommand' -a init -d 'Create the default config and sample tip pack'
complete -c yoo -n '__fish_use_subcommand' -a config -d 'Print the config file location'
complete -c yoo -n '__fish_use_subcommand' -a doctor -d 'Check tools and project setup'
complete -c yoo -n '__fish_use_subcommand' -a edit -d 'Open the current directory in an editor'
complete -c yoo -n '__fish_use_subcommand' -a fetch -d 'Show environment and project information'
complete -c yoo -n '__fish_use_subcommand' -a status -d 'Alias for fetch'
complete -c yoo -n '__fish_use_subcommand' -a project -d 'Show a structured project overview'
complete -c yoo -n '__fish_use_subcommand' -a snapshot -d 'Save, list, or compare project snapshots'
complete -c yoo -n '__fish_use_subcommand' -a session -d 'Start a coding-session timer'
complete -c yoo -n '__fish_use_subcommand' -a tip -d 'Print a random tip'
complete -c yoo -n '__fish_use_subcommand' -a tips -d 'List installed tip packs'
complete -c yoo -n '__fish_use_subcommand' -a completions -d 'Generate shell completions'
complete -c yoo -n '__fish_use_subcommand' -a version -d 'Print version'
complete -c yoo -n '__fish_use_subcommand' -a help -d 'Print help'
complete -c yoo -n '__fish_seen_subcommand_from completions' -a 'bash zsh fish powershell'
complete -c yoo -n '__fish_seen_subcommand_from fetch status project' -l json -d 'Print machine-readable JSON'
complete -c yoo -n '__fish_seen_subcommand_from fetch status project' -l no-art -d 'Hide the ASCII logo'
complete -c yoo -n '__fish_seen_subcommand_from fetch status project' -l plain -d 'Disable ANSI colours'
complete -c yoo -n '__fish_seen_subcommand_from fetch status project' -l theme -xa 'neon ocean mono dracula tokyo-night gruvbox nord rose-pine catppuccin'
complete -c yoo -n '__fish_seen_subcommand_from snapshot' -a 'list compare'
complete -c yoo -n '__fish_seen_subcommand_from session' -l minutes -d 'Session length in minutes'
complete -c yoo -n '__fish_seen_subcommand_from edit' -l editor -r -d 'Use a specific editor'
complete -c yoo -n 'not __fish_seen_subcommand_from init config doctor edit fetch status project snapshot session tip tips completions version help' -l fast -d 'Skip the typewriter animation'
complete -c yoo -n 'not __fish_seen_subcommand_from init config doctor edit fetch status project snapshot session tip tips completions version help' -l no-art -d 'Hide the ASCII logo'
complete -c yoo -n 'not __fish_seen_subcommand_from init config doctor edit fetch status project snapshot session tip tips completions version help' -l plain -d 'Disable ANSI colours'
complete -c yoo -n 'not __fish_seen_subcommand_from init config doctor edit fetch status project snapshot session tip tips completions version help' -l name -r -d 'Override the profile name'
complete -c yoo -n 'not __fish_seen_subcommand_from init config doctor edit fetch status project snapshot session tip tips completions version help' -l theme -xa 'neon ocean mono dracula tokyo-night gruvbox nord rose-pine catppuccin'
complete -c yoo -s h -l help -d 'Print help'
complete -c yoo -s V -l version -d 'Print version'
"#;

pub const POWERSHELL: &'static str = r#"Register-ArgumentCompleter -Native -CommandName yoo -ScriptBlock {
  param($wordToComplete, $commandAst, $cursorPosition)

  $commands = 'init','config','doctor','edit','fetch','status','project','snapshot','session','tip','tips','completions','version','help'
  $themes = 'neon','ocean','mono','dracula','tokyo-night','gruvbox','nord','rose-pine','catppuccin'
  $shells = 'bash','zsh','fish','powershell'
  $tokens = @($commandAst.CommandElements | ForEach-Object { $_.Extent.Text })
  $previous = if ($tokens.Count -gt 1) { $tokens[-2] } else { '' }
  $command = if ($tokens.Count -gt 1) { $tokens[1] } else { '' }

  if ($previous -eq 'completions') { $values = $shells }
  elseif ($previous -eq '--theme') { $values = $themes }
  elseif ($command -in @('fetch','status','project')) { $values = '--json','--no-art','--plain','--theme' }
  elseif ($command -eq 'session') { $values = '--minutes' }
  elseif ($command -eq 'snapshot') { $values = 'list','compare' }
  elseif ($command -eq 'edit') { $values = '--editor' }
  else { $values = $commands + @('--fast','--no-art','--plain','--name','--theme','-h','--help','-V','--version') }

  $values | Where-Object { $_ -like "$wordToComplete*" } | ForEach-Object {
    [System.Management.Automation.CompletionResult]::new($_, $_, 'ParameterValue', $_)
  }
}
"#;


} // verus!
