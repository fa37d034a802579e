//! The closed set of commands the agent recognises, how a payload names one,
//! and what running one means on the host.

use crate::text::{bytes_equal, lemma_encoding_iff_decoding, spec_text_of, text_of};
use vstd::prelude::*;
use vstd::string::*;
use vstd::utf8::*;

verus! {

/// A host action the agent can be asked to perform.
#[derive(Clone, Copy, Debug, PartialEq, Eq, Structural)]
pub enum CommandName {
    /// Halt and power off the host immediately.
    Shutdown,
    /// Restart the host immediately.
    Reboot,
}

impl CommandName {
    /// The word that names this command in a payload.
    pub open spec fn spec_word(self) -> Seq<char> {
        match self {
            CommandName::Shutdown => "shutdown"@,
            CommandName::Reboot => "reboot"@,
        }
    }

    /// The command that `text` names: an exact, case-sensitive match of the
    /// whole text, or none.
    pub open spec fn spec_from_text(text: Seq<char>) -> Option<CommandName> {
        if text == "shutdown"@ {
            Some(CommandName::Shutdown)
        } else if text == "reboot"@ {
            Some(CommandName::Reboot)
        } else {
            None
        }
    }

    /// The command that a payload names: the payload read as UTF-8 text and
    /// matched as `spec_from_text` does. Bytes that are not UTF-8 name none.
    pub open spec fn spec_from_payload(payload: Seq<u8>) -> Option<CommandName> {
        if valid_utf8(payload) {
            Self::spec_from_text(decode_utf8(payload))
        } else {
            None
        }
    }

    /// The program that performs host actions with elevated privilege.
    pub open spec fn spec_program(self) -> Seq<char> {
        "sudo"@
    }

    /// The arguments handed to `spec_program` for this command: the host
    /// facility, then its flags.
    pub open spec fn spec_arguments(self) -> Seq<Seq<char>> {
        match self {
            CommandName::Shutdown => seq!["/usr/sbin/shutdown"@, "-hP"@, "now"@],
            CommandName::Reboot => seq!["/usr/sbin/reboot"@],
        }
    }

    /// The progress line written before this command runs.
    pub open spec fn spec_announcement(self) -> Seq<char> {
        match self {
            CommandName::Shutdown => "shutting down"@,
            CommandName::Reboot => "rebooting"@,
        }
    }

    /// What is said when this command cannot be launched.
    pub open spec fn spec_launch_failure(self) -> Seq<char> {
        match self {
            CommandName::Shutdown => "failed to shutdown"@,
            CommandName::Reboot => "failed to reboot"@,
        }
    }

    /// The word that names this command in a payload.
    pub fn word(&self) -> (r: &'static str)
        ensures
            r@ == self.spec_word(),
    {
        match self {
            CommandName::Shutdown => "shutdown",
            CommandName::Reboot => "reboot",
        }
    }

    /// Matches a text against the command words.
    pub fn from_text(text: &str) -> (r: Option<CommandName>)
        ensures
            r == Self::spec_from_text(text@),
    {
        proof {
            encode_utf8_valid_utf8(text@);
            encode_utf8_decode_utf8(text@);
        }
        Self::from_payload(text.as_bytes())
    }

    /// Matches a raw payload against the command words.
    pub fn from_payload(payload: &[u8]) -> (r: Option<CommandName>)
        ensures
            r == Self::spec_from_payload(payload@),
    {
        proof {
            lemma_encoding_iff_decoding(payload@, "shutdown"@);
            lemma_encoding_iff_decoding(payload@, "reboot"@);
        }
        if bytes_equal(payload, "shutdown".as_bytes()) {
            Some(CommandName::Shutdown)
        } else if bytes_equal(payload, "reboot".as_bytes()) {
            Some(CommandName::Reboot)
        } else {
            None
        }
    }

    /// The program to launch for this command.
    pub fn program(&self) -> (r: &'static str)
        ensures
            r@ == self.spec_program(),
    {
        "sudo"
    }

    /// The arguments to launch the program with.
    pub fn arguments(&self) -> (r: Vec<&'static str>)
        ensures
            r.deep_view() == self.spec_arguments(),
    {
        let mut args: Vec<&'static str> = Vec::new();
        match self {
            CommandName::Shutdown => {
                args.push("/usr/sbin/shutdown");
                args.push("-hP");
                args.push("now");
            },
            CommandName::Reboot => {
                args.push("/usr/sbin/reboot");
            },
        }
        assert(args.deep_view() =~= self.spec_arguments());
        args
    }

    /// The progress line to write before this command runs.
    pub fn announcement(&self) -> (r: &'static str)
        ensures
            r@ == self.spec_announcement(),
    {
        match self {
            CommandName::Shutdown => "shutting down",
            CommandName::Reboot => "rebooting",
        }
    }

    /// What to say when this command cannot be launched.
    pub fn launch_failure(&self) -> (r: &'static str)
        ensures
            r@ == self.spec_launch_failure(),
    {
        match self {
            CommandName::Shutdown => "failed to shutdown",
            CommandName::Reboot => "failed to reboot",
        }
    }
}

/// The diagnostic text of a finished command: what it wrote to standard
/// output, then what it wrote to standard error, each read as text.
pub open spec fn spec_report(stdout: Seq<u8>, stderr: Seq<u8>) -> Seq<char> {
    spec_text_of(stdout) + spec_text_of(stderr)
}

/// Joins the two captured streams, already read as text, into the diagnostic
/// text.
pub fn join_streams(stdout_text: &str, stderr_text: &str) -> (r: String)
    ensures
        r@ == stdout_text@ + stderr_text@,
{
    let mut report = String::from_str(stdout_text);
    report.append(stderr_text);
    report
}

/// The diagnostic text of a finished command, from its captured streams.
pub fn report(stdout: &[u8], stderr: &[u8]) -> (r: String)
    ensures
        r@ == spec_report(stdout@, stderr@),
{
    let out = text_of(stdout);
    let err = text_of(stderr);
    join_streams(out.as_str(), err.as_str())
}

/// Each command is named by its own word and by no other.
pub proof fn lemma_word_names_command(command: CommandName)
    ensures
        CommandName::spec_from_text(command.spec_word()) == Some(command),
        CommandName::spec_from_payload(encode_utf8(command.spec_word())) == Some(command),
{
    reveal_strlit("shutdown");
    reveal_strlit("reboot");
    assert("shutdown"@.len() != "reboot"@.len());
    encode_utf8_valid_utf8(command.spec_word());
    encode_utf8_decode_utf8(command.spec_word());
}

/// A payload names a command exactly when it is, byte for byte, the UTF-8
/// encoding of that command's word.
pub proof fn lemma_payload_names_command(payload: Seq<u8>, command: CommandName)
    ensures
        CommandName::spec_from_payload(payload) == Some(command) <==> payload == encode_utf8(
            command.spec_word(),
        ),
{
    reveal_strlit("shutdown");
    reveal_strlit("reboot");
    assert("shutdown"@.len() != "reboot"@.len());
    lemma_encoding_iff_decoding(payload, "shutdown"@);
    lemma_encoding_iff_decoding(payload, "reboot"@);
}

} // verus!
