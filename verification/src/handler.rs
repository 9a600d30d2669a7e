use vstd::prelude::*;
use crate::output::{output_well_formed, section_within, CommandOutput, OutputSection};

verus! {

/// A command invocation as the host delivers it: the command's name and its
/// descriptive fields. The positional arguments travel separately.
#[derive(Debug)]
pub struct SlashCommand {
    pub name: String,
    pub description: String,
    pub requires_argument: bool,
    pub tooltip_text: String,
}

/// The error message for a command whose name is not recognized.
pub open spec fn unknown_command_message(name: Seq<char>) -> Seq<char> {
    "Unknown slash command: "@ + name
}

/// The error message for a `r` command that arrived without a URL argument.
pub open spec fn missing_url_message() -> Seq<char> {
    "Please provide a URL."@
}

/// The fixed prefix of every fetch target: the Jina Reader proxy.
pub open spec fn reader_prefix() -> Seq<char> {
    "https://r.jina.ai/"@
}

/// The placeholder text returned while a scheduled fetch is still running.
pub open spec fn placeholder_text() -> Seq<char> {
    "Fetching content..."@
}

/// The label that every output section of this command carries.
pub open spec fn reader_label() -> Seq<char> {
    "Jina Reader"@
}

/// Checks the command name and the argument list. Returns the raw URL
/// argument on success and the exact user-facing message on failure.
pub fn validate(command_name: &String, arguments: &Vec<String>) -> (r: Result<String, String>)
    ensures
        command_name@ != "r"@ ==> (r matches Err(m) && m@ == unknown_command_message(
            command_name@,
        )),
        command_name@ == "r"@ && arguments@.len() == 0 ==> (r matches Err(m) && m@
            == missing_url_message()),
        command_name@ == "r"@ && arguments@.len() > 0 ==> (r matches Ok(u) && u@
            == arguments@[0]@),
{
    let recognized = String::from_str("r");
    if !command_name.eq(&recognized) {
        let mut m = String::from_str("Unknown slash command: ");
        m.append(command_name.as_str());
        Err(m)
    } else if arguments.len() == 0 {
        Err(String::from_str("Please provide a URL."))
    } else {
        Ok(arguments[0].clone())
    }
}

/// Builds the fetch target: the Jina Reader prefix followed by the raw URL
/// argument, verbatim — no validation, normalization, or escaping.
pub fn fetch_target(url: &String) -> (r: String)
    ensures
        r@ == reader_prefix() + url@,
{
    let mut t = String::from_str("https://r.jina.ai/");
    t.append(url.as_str());
    t
}

/// Maps a completed fetch into the command's output for the blocking design:
/// the fetched text itself, covered by one section over all of its characters
/// and labeled "Jina Reader"; a fetch error fails the command with the fetcher's
/// message, verbatim.
pub fn sync_output(fetched: Result<String, String>) -> (r: Result<CommandOutput, String>)
    ensures
        (fetched matches Ok(text) ==> (r matches Ok(out) && out.text == text
            && out.sections@.len() == 1 && out.sections@[0].start == 0 && out.sections@[0].end
            == text@.len() && out.sections@[0].label@ == reader_label()
            && output_well_formed(out))),
        (fetched matches Err(e) ==> r == Err::<CommandOutput, String>(e)),
{
    match fetched {
        Ok(text) => {
            let end = text.as_str().unicode_len();
            let section = OutputSection { start: 0, end, label: String::from_str("Jina Reader") };
            let out = CommandOutput { text, sections: vec![section] };
            proof {
                assert(section_within(out.sections@[0], out.text@));
                assert(output_well_formed(out));
            }
            Ok(out)
        },
        Err(e) => Err(e),
    }
}

/// The whole command for the blocking design, with the fetch outcome already
/// in hand: validation first, then the fetched text as the output.
pub fn handle_fetched(
    command_name: &String,
    arguments: &Vec<String>,
    fetched: Result<String, String>,
) -> (r: Result<CommandOutput, String>)
    ensures
        command_name@ != "r"@ ==> (r matches Err(m) && m@ == unknown_command_message(
            command_name@,
        )),
        command_name@ == "r"@ && arguments@.len() == 0 ==> (r matches Err(m) && m@
            == missing_url_message()),
        command_name@ == "r"@ && arguments@.len() > 0 ==> (match fetched {
            Ok(text) => r matches Ok(out) && out.text == text && out.sections@.len() == 1
                && out.sections@[0].start == 0 && out.sections@[0].end == text@.len()
                && out.sections@[0].label@ == reader_label() && output_well_formed(out),
            Err(e) => r == Err::<CommandOutput, String>(e),
        }),
{
    match validate(command_name, arguments) {
        Ok(_) => sync_output(fetched),
        Err(m) => Err(m),
    }
}

/// The extension as the host sees it. The state behind a scheduled fetch (the
/// HTTP client and the shared result slot) lives with the unverified runtime;
/// this type carries the command logic alone.
#[derive(Debug)]
pub struct JinaReaderExtension {}

impl JinaReaderExtension {
    pub fn new() -> (e: JinaReaderExtension) {
        JinaReaderExtension {}
    }

    /// The command under the scheduling design: a validation failure fails the
    /// call with its exact message; a valid invocation returns at once with
    /// the placeholder text and one section with the fixed span `[0, 22)`,
    /// kept as the observed behavior although the placeholder itself is
    /// shorter. The caller schedules the fetch; its eventual outcome is not
    /// part of this return value.
    pub fn run_slash_command(&self, command: SlashCommand, args: Vec<String>) -> (r: Result<
        CommandOutput,
        String,
    >)
        ensures
            command.name@ != "r"@ ==> (r matches Err(m) && m@ == unknown_command_message(
                command.name@,
            )),
            command.name@ == "r"@ && args@.len() == 0 ==> (r matches Err(m) && m@
                == missing_url_message()),
            command.name@ == "r"@ && args@.len() > 0 ==> (r matches Ok(out) && out.text@
                == placeholder_text() && out.sections@.len() == 1 && out.sections@[0].start == 0
                && out.sections@[0].end == 22 && out.sections@[0].label@ == reader_label()),
    {
        match validate(&command.name, &args) {
            Err(m) => Err(m),
            Ok(_) => {
                let section = OutputSection {
                    start: 0,
                    end: 22,
                    label: String::from_str("Jina Reader"),
                };
                Ok(
                    CommandOutput {
                        text: String::from_str("Fetching content..."),
                        sections: vec![section],
                    },
                )
            },
        }
    }
}

} // verus!
