use vstd::prelude::*;
use vstd::string::StringExecFns;

use crate::bash::{bash_run, bash_span, span_of, BashString, BashStrings};
use crate::style::Pallet;
use crate::vcs::text_of;

verus! {

/// Bash's placeholder for the time of day.
pub const TIMESTAMP: &'static str = "\\D{%H:%M:%S}";

/// Bash's placeholder for the user name.
pub const USER: &'static str = "\\u";

/// Bash's placeholder for the working directory.
pub const WORKING_DIR: &'static str = "\\w";

/// Bash's placeholder for the host name.
pub const HOST: &'static str = "\\h";

/// The command run when no path to this program is known.
pub const DEFAULT_COMMAND: &'static str = "xprompt";

/// Bash code that sets the primary and continuation prompts from this program.
pub const INIT_SCRIPT: &'static str = "# Use xprompt for the primary and continuation prompts\nPS1=\"$(xprompt ps1)\"\nPS2=\"$(xprompt ps2)\"\n";

/// Emits Bash code that installs the prompts.
pub struct InitCommand;

impl InitCommand {
    /// The Bash code that installs the prompts.
    pub fn run(&self) -> (r: String)
        ensures
            r@ == INIT_SCRIPT@,
    {
        String::from_str(INIT_SCRIPT)
    }
}

/// The coloured time, user, host and directory placeholders of the primary prompt.
pub open spec fn base_spans(p: Pallet) -> Seq<(Seq<char>, u8)> {
    seq![
        (TIMESTAMP@, p.cyan),
        (" as "@, p.white),
        (USER@, p.blue),
        (" at "@, p.white),
        (HOST@, p.orange),
        (" in "@, p.white),
        (WORKING_DIR@, p.green),
    ]
}

/// The command that prints version control information: the given path,
/// else the path of the running program, else the bare command name.
pub open spec fn callback_of(path: Option<Seq<char>>, exe: Option<Seq<char>>) -> Seq<char> {
    match path {
        Some(p) => p,
        None => match exe {
            Some(e) => e,
            None => DEFAULT_COMMAND@,
        },
    }
}

/// The first line of the primary prompt, after a line break.
pub open spec fn base_text(p: Pallet) -> Seq<char> {
    "\\n"@ + bash_run(base_spans(p))
}

/// A command substitution that runs status mode each time the prompt is shown.
pub open spec fn callback_text(callback: Seq<char>) -> Seq<char> {
    " $("@ + callback + " vcs)"@
}

/// The line where the user types: a line break, then the input glyph in white.
pub open spec fn command_text(p: Pallet, input: Seq<char>) -> Seq<char> {
    "\\n"@ + bash_span(p.white, input) + " "@
}

/// The primary prompt.
pub open spec fn ps1_text(p: Pallet, callback: Seq<char>, input: Seq<char>) -> Seq<char> {
    base_text(p) + callback_text(callback) + command_text(p, input)
}

/// The continuation prompt.
pub open spec fn continuation_text(p: Pallet) -> Seq<char> {
    bash_span(p.yellow, "-> "@)
}

/// Primary prompt mode.
pub struct Ps1Command {
    /// Path to this program, when given; else it is detected.
    pub path: Option<String>,
    /// What the user is prompted with, usually `$` or `#`.
    pub input: String,
}

impl Ps1Command {
    /// The primary prompt; `exe` is the path of the running program, if known.
    pub fn run(&self, pallet: &Pallet, exe: &Option<String>) -> (r: String)
        ensures
            r@ == ps1_text(*pallet, callback_of(text_of(self.path), text_of(*exe)), self.input@),
    {
        let mut buf = String::new();
        self.write_base_prompt(&mut buf, pallet);
        self.write_vcs_callback(&mut buf, exe);
        self.write_command_prompt(&mut buf, pallet);
        assert(buf@ =~= ps1_text(
            *pallet,
            callback_of(text_of(self.path), text_of(*exe)),
            self.input@,
        ));
        buf
    }

    /// Appends a line break and the coloured placeholders.
    pub fn write_base_prompt(&self, buf: &mut String, pallet: &Pallet)
        ensures
            final(buf)@ == old(buf)@ + base_text(*pallet),
    {
        let strings = vec![
            BashString::new(pallet.cyan, TIMESTAMP),
            BashString::new(pallet.white, " as "),
            BashString::new(pallet.blue, USER),
            BashString::new(pallet.white, " at "),
            BashString::new(pallet.orange, HOST),
            BashString::new(pallet.white, " in "),
            BashString::new(pallet.green, WORKING_DIR),
        ];
        let prompt = BashStrings::new(strings);
        assert(prompt.strings@.map_values(|s: BashString| span_of(s)) =~= base_spans(*pallet));
        let text = prompt.render();
        buf.append("\\n");
        buf.append(text.as_str());
        assert(final(buf)@ =~= old(buf)@ + base_text(*pallet));
    }

    /// Appends a command substitution that runs status mode; Bash runs it each
    /// time it shows the prompt, so the information is always current.
    pub fn write_vcs_callback(&self, buf: &mut String, exe: &Option<String>)
        ensures
            final(buf)@ == old(buf)@ + callback_text(callback_of(text_of(self.path), text_of(*exe))),
    {
        let callback: &str = match &self.path {
            Some(p) => p.as_str(),
            None => match exe {
                Some(e) => e.as_str(),
                None => DEFAULT_COMMAND,
            },
        };
        buf.append(" $(");
        buf.append(callback);
        buf.append(" vcs)");
        assert(final(buf)@ =~= old(buf)@ + callback_text(
            callback_of(text_of(self.path), text_of(*exe)),
        ));
    }

    /// Appends a line break, the input glyph and a space.
    pub fn write_command_prompt(&self, buf: &mut String, pallet: &Pallet)
        ensures
            final(buf)@ == old(buf)@ + command_text(*pallet, self.input@),
    {
        let input = BashString::new(pallet.white, self.input.as_str());
        let text = input.render();
        buf.append("\\n");
        buf.append(text.as_str());
        buf.append(" ");
        assert(final(buf)@ =~= old(buf)@ + command_text(*pallet, self.input@));
    }
}

/// Continuation prompt mode.
pub struct Ps2Command;

impl Ps2Command {
    /// The continuation prompt; it depends on the colours alone.
    pub fn run(&self, pallet: &Pallet) -> (r: String)
        ensures
            r@ == continuation_text(*pallet),
    {
        BashString::new(pallet.yellow, "-> ").render()
    }
}

} // verus!
