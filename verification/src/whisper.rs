//! The interface to the transcription engine, an external program: the
//! arguments it is started with and the reading of what it leaves behind.

use vstd::prelude::*;
use vstd::string::StringExecFns;
use crate::text::{trim, trimmed};

verus! {

/// The name under which the engine is looked up on the search path.
pub const WHISPER_PROGRAM: &'static str = "whisper-cli";

/// The characters of each string of a list.
pub open spec fn texts(strings: Seq<String>) -> Seq<Seq<char>> {
    strings.map_values(|s: String| s@)
}

/// The arguments for transcribing `wav_path` with the model at `model_path`:
/// plain text output, no timestamps, language detected by the engine.
pub open spec fn arguments(model_path: Seq<char>, wav_path: Seq<char>) -> Seq<Seq<char>> {
    seq![
        "-m"@,
        model_path,
        "-f"@,
        wav_path,
        "--output-txt"@,
        "--no-timestamps"@,
        "-l"@,
        "auto"@,
    ]
}

/// Builds the argument list of the engine.
pub fn whisper_arguments(model_path: &str, wav_path: &str) -> (args: Vec<String>)
    ensures
        texts(args@) == arguments(model_path@, wav_path@),
{
    let args = vec![
        String::from_str("-m"),
        String::from_str(model_path),
        String::from_str("-f"),
        String::from_str(wav_path),
        String::from_str("--output-txt"),
        String::from_str("--no-timestamps"),
        String::from_str("-l"),
        String::from_str("auto"),
    ];
    assert(texts(args@) =~= arguments(model_path@, wav_path@));
    args
}

/// The program to start: the engine bundled next to the executable, where
/// there is one, else the engine on the search path.
pub fn whisper_program(bundled: Option<String>) -> (program: String)
    ensures
        program@ == (match bundled {
            Some(path) => path@,
            None => WHISPER_PROGRAM@,
        }),
{
    match bundled {
        Some(path) => path,
        None => String::from_str(WHISPER_PROGRAM),
    }
}

/// The file name of the bundled engine.
pub fn bundled_program_name(windows: bool) -> (name: &'static str)
    ensures
        name@ == (if windows {
            "whisper-cli.exe"@
        } else {
            "whisper-cli"@
        }),
{
    if windows {
        "whisper-cli.exe"
    } else {
        "whisper-cli"
    }
}

/// The description of a run that ended in failure: the exit status, then
/// what the engine wrote to its error and output streams, each only where
/// it wrote anything.
pub open spec fn failure_message(status: Seq<char>, stdout: Seq<char>, stderr: Seq<char>) -> Seq<
    char,
> {
    "whisper-cli exited with "@ + status + (if stderr.len() > 0 {
        "\nstderr:\n"@ + stderr
    } else {
        Seq::empty()
    }) + (if stdout.len() > 0 {
        "\nstdout:\n"@ + stdout
    } else {
        Seq::empty()
    })
}

/// What a run of the engine amounts to. A run that failed yields its
/// description. A run that succeeded yields the transcript file, or the
/// output stream where that file could not be read, without surrounding
/// white space.
pub open spec fn transcription(
    succeeded: bool,
    status: Seq<char>,
    stdout: Seq<char>,
    stderr: Seq<char>,
    transcript: Option<Seq<char>>,
) -> Result<Seq<char>, Seq<char>> {
    if !succeeded {
        Err(failure_message(status, stdout, stderr))
    } else {
        Ok(
            trimmed(
                match transcript {
                    Some(written) => written,
                    None => stdout,
                },
            ),
        )
    }
}

/// Reads the outcome of a finished run of the engine.
///
/// `succeeded` and `status` are the exit status and its printed form,
/// `stdout` and `stderr` what the engine wrote, `transcript` the content of
/// the transcript file, `None` where it could not be read.
pub fn transcription_result(
    succeeded: bool,
    status: &str,
    stdout: &str,
    stderr: &str,
    transcript: Option<&str>,
) -> (result: Result<String, String>)
    ensures
        (match result {
            Ok(text) => Ok(text@),
            Err(message) => Err(message@),
        }) == transcription(
            succeeded,
            status@,
            stdout@,
            stderr@,
            match transcript {
                Some(written) => Some(written@),
                None => None,
            },
        ),
{
    if !succeeded {
        let mut message = String::from_str("whisper-cli exited with ");
        message.append(status);
        if !stderr.is_empty() {
            message.append("\nstderr:\n");
            message.append(stderr);
        } else {
            assert(message@ + Seq::<char>::empty() =~= message@);
        }
        if !stdout.is_empty() {
            message.append("\nstdout:\n");
            message.append(stdout);
        } else {
            assert(message@ + Seq::<char>::empty() =~= message@);
        }
        assert(message@ =~= failure_message(status@, stdout@, stderr@));
        Err(message)
    } else {
        let raw = match transcript {
            Some(written) => written,
            None => stdout,
        };
        Ok(String::from_str(trim(raw)))
    }
}

/// The description of a run that could not be started at all.
pub fn spawn_failure_message() -> (message: String)
    ensures
        message@ == "Failed to execute whisper-cli. Is it installed and in PATH?"@,
{
    String::from_str("Failed to execute whisper-cli. Is it installed and in PATH?")
}

} // verus!
