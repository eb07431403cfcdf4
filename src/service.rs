//! One translation call, around the process run that the caller performs:
//! what goes to the translator's stdin, and what its run yields.
use vstd::prelude::*;

use crate::protocol::{
    decode_response, encode_request, json_str_member_spec, json_string_spec, json_u64_member_spec,
    preview_spec, request_json_spec, response_outcome_spec, TranslationError, TranslationKind,
};
use crate::runner::{check_command, command_outcome};

verus! {

/// The request line to send for translating `text` with `command`: fails
/// `EmptyCommand` when there is no program to run.
pub fn prepare_translation(command: &Vec<String>, kind: TranslationKind, text: &str) -> (r:
    Result<String, TranslationError>)
    ensures
        command@.len() == 0 ==> r matches Err(TranslationError::EmptyCommand),
        command@.len() > 0 ==> (r matches Ok(line) && line@ == request_json_spec(
            kind,
            json_string_spec(text@),
        )),
{
    match check_command(command) {
        Ok(()) => encode_request(kind, text),
        Err(e) => Err(e),
    }
}

/// The translation that a finished run yields. Stream failures come first,
/// then a non-zero exit; a clean exit has its stdout read as the response.
pub fn finish_translation(
    exit_code: Option<i32>,
    stdout: Result<Vec<u8>, TranslationError>,
    stderr: Result<Vec<u8>, TranslationError>,
) -> (r: Result<String, TranslationError>)
    ensures
        match (stdout, stderr) {
            (Err(e), _) => r == Err::<String, TranslationError>(e),
            (Ok(_), Err(e)) => r == Err::<String, TranslationError>(e),
            (Ok(out), Ok(err)) => if exit_code == Some(0i32) {
                response_outcome_spec(
                    json_u64_member_spec(out@, "schema_version"@),
                    json_str_member_spec(out@, "text"@),
                    out@,
                    r,
                )
            } else {
                &&& r matches Err(
                    TranslationError::NonZeroExit { code, stderr_preview, stdout_preview },
                )
                &&& code == exit_code
                &&& stderr_preview@ == preview_spec(err@)
                &&& stdout_preview@ == preview_spec(out@)
            },
        },
{
    match command_outcome(exit_code, stdout, stderr) {
        Ok(out) => decode_response(out.as_slice()),
        Err(e) => Err(e),
    }
}

} // verus!
