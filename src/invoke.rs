//! Calls of the ArDrive CLI: where the wallet comes from, what is run, and
//! what the run's exit status and output mean.
use crate::json::{jsons, lemma_blank_output_is_empty, normalize, output_outcome, Json, JsonParse, OutputError, Outcome};
use crate::records::{
    all_drives_decodable, all_files_decodable, decode_drives, decode_files, drive_decodable,
    drives_decode, file_decodable, files_decode, filter_by_extension, lemma_filter_decoded,
    records_with_extension, ArDriveDrive, ArDriveFile,
};
use crate::text::{
    chars_of, contains, contains_chars, texts, trim, trim_chars, trim_start_char, BOM,
};
use vstd::prelude::*;

verus! {

/// Where the wallet of a call comes from.
#[derive(Debug, Clone, Copy, PartialEq, Eq)]
pub enum WalletSource {
    /// A file that the caller names.
    ExplicitPath,
    /// The `ARDRIVE_WALLET` environment variable, which holds the wallet itself.
    Environment,
    /// The wallet stored by `set-wallet` in the user's configuration.
    StoredFile,
}

/// The source that supplies the wallet: a named file first; else the
/// environment variable, where it holds more than white space; else the
/// stored file, where it exists; else none.
pub open spec fn wallet_source(
    explicit_given: bool,
    env_value: Option<Seq<char>>,
    stored_exists: bool,
) -> Option<WalletSource> {
    if explicit_given {
        Some(WalletSource::ExplicitPath)
    } else if env_value matches Some(v) && trim(v).len() > 0 {
        Some(WalletSource::Environment)
    } else if stored_exists {
        Some(WalletSource::StoredFile)
    } else {
        None
    }
}

/// The characters of an optional text.
pub open spec fn str_view(o: Option<&str>) -> Option<Seq<char>> {
    match o {
        Some(s) => Some(s@),
        None => None,
    }
}

/// Chooses the source of the wallet (see `wallet_source`).
pub fn choose_wallet_source(explicit_given: bool, env_value: Option<&str>, stored_exists: bool) -> (r:
    Option<WalletSource>)
    ensures
        r == wallet_source(explicit_given, str_view(env_value), stored_exists),
{
    if explicit_given {
        return Some(WalletSource::ExplicitPath);
    }
    if let Some(v) = env_value {
        if trim_chars(&chars_of(v)).len() > 0 {
            return Some(WalletSource::Environment);
        }
    }
    if stored_exists {
        Some(WalletSource::StoredFile)
    } else {
        None
    }
}

/// An explicit path wins over the environment and the stored file, whatever
/// they hold.
pub proof fn lemma_explicit_path_wins(env_value: Option<Seq<char>>, stored_exists: bool)
    ensures
        wallet_source(true, env_value, stored_exists) == Some(WalletSource::ExplicitPath),
{
}

/// What the CLI is asked to do.
#[derive(Debug, Clone, PartialEq, Eq)]
pub enum Operation {
    /// Print the contents of one drive.
    ListDrive { drive_id: String },
    /// List every drive that the wallet can reach.
    ListAllDrives,
    /// List every file of one drive.
    ListDriveFiles { drive_id: String },
}

/// The arguments that list drive `id` with the wallet in file `wallet`.
pub open spec fn list_drive_args(id: Seq<char>, wallet: Seq<char>) -> Seq<Seq<char>> {
    seq!["list-drive"@, "-d"@, id, "--wallet-file"@, wallet]
}

/// The arguments that list every drive with the wallet in file `wallet`.
pub open spec fn list_all_drives_args(wallet: Seq<char>) -> Seq<Seq<char>> {
    seq!["list-all-drives"@, "--wallet-file"@, wallet]
}

/// The arguments that list every file of drive `id` with the wallet in file
/// `wallet`.
pub open spec fn list_drive_files_args(id: Seq<char>, wallet: Seq<char>) -> Seq<Seq<char>> {
    seq!["list-drive"@, "-d"@, id, "--all"@, "--wallet-file"@, wallet]
}

/// The arguments that carry out `op` with the wallet in file `wallet`.
pub open spec fn op_args(op: Operation, wallet: Seq<char>) -> Seq<Seq<char>> {
    match op {
        Operation::ListDrive { drive_id } => list_drive_args(drive_id@, wallet),
        Operation::ListAllDrives => list_all_drives_args(wallet),
        Operation::ListDriveFiles { drive_id } => list_drive_files_args(drive_id@, wallet),
    }
}

/// The arguments that carry out `op` with the wallet in file `wallet_file`.
pub fn command_args(op: &Operation, wallet_file: &str) -> (r: Vec<String>)
    ensures
        texts(r@) == op_args(*op, wallet_file@),
{
    let mut r: Vec<String> = Vec::new();
    match op {
        Operation::ListDrive { drive_id } => {
            r.push("list-drive".to_owned());
            r.push("-d".to_owned());
            r.push(drive_id.clone());
        },
        Operation::ListAllDrives => {
            r.push("list-all-drives".to_owned());
        },
        Operation::ListDriveFiles { drive_id } => {
            r.push("list-drive".to_owned());
            r.push("-d".to_owned());
            r.push(drive_id.clone());
            r.push("--all".to_owned());
        },
    }
    r.push("--wallet-file".to_owned());
    r.push(wallet_file.to_owned());
    proof { assert(texts(r@) =~= op_args(*op, wallet_file@)); }
    r
}

/// A run of the CLI: the program, its arguments and the environment it adds,
/// and whether the program's presence must first be checked with
/// `--version`.
#[derive(Debug, Clone, PartialEq, Eq)]
pub struct Invocation {
    pub program: String,
    pub args: Vec<String>,
    pub env: Vec<(String, String)>,
    pub probe_version: bool,
}

/// The program run: the project's own copy where one was found, else the
/// system-wide `ardrive`.
pub open spec fn program_for(local_binary: Option<String>) -> Seq<char> {
    match local_binary {
        Some(p) => p@,
        None => "ardrive"@,
    }
}

/// Plans the run of `op` with the wallet in file `wallet_file`. A copy found
/// in the project runs as it is; the system-wide one is checked first.
/// The child runs in production mode.
pub fn plan_invocation(op: &Operation, local_binary: Option<String>, wallet_file: &str) -> (r:
    Invocation)
    ensures
        r.program@ == program_for(local_binary),
        r.probe_version == local_binary is None,
        texts(r.args@) == op_args(*op, wallet_file@),
        r.env@.len() == 1,
        r.env@[0].0@ == "NODE_ENV"@,
        r.env@[0].1@ == "production"@,
{
    let probe_version = local_binary.is_none();
    let program = match local_binary {
        Some(p) => p,
        None => "ardrive".to_owned(),
    };
    let mut env: Vec<(String, String)> = Vec::new();
    env.push(("NODE_ENV".to_owned(), "production".to_owned()));
    Invocation { program, args: command_args(op, wallet_file), env, probe_version }
}

/// Why a call of the CLI failed.
#[derive(Debug, Clone, PartialEq, Eq)]
pub enum ArDriveError {
    /// No wallet was named, set in the environment, or stored.
    CredentialUnavailable,
    /// The wallet file could not be read.
    CredentialUnreadable { path: String, reason: String },
    /// Neither a project copy nor a system-wide CLI could be run.
    BinaryUnavailable { reason: String },
    /// The CLI exited with failure; `command` is its arguments with the
    /// wallet file left out.
    SubprocessFailed {
        command: Vec<String>,
        exit_code: Option<i32>,
        stdout: String,
        stderr: String,
    },
    /// The CLI does not know the drive.
    InvalidDriveId,
    /// The CLI printed nothing.
    EmptyOutput,
    /// The CLI printed an error message.
    ErrorInOutput { text: String },
    /// The output holds no JSON document.
    Unparseable { text: String, line: usize, message: String },
    /// The document is in none of the known envelopes.
    UnexpectedShape { structure: String },
    /// A record does not decode.
    RecordDecode { index: usize, field: Option<String> },
}

/// Whether `e` reports that the CLI exited with failure, with its output
/// kept verbatim and the arguments `args`.
pub open spec fn reports_exit_failure(
    args: Seq<Seq<char>>,
    exit_code: Option<i32>,
    stdout: Seq<char>,
    stderr: Seq<char>,
    e: ArDriveError,
) -> bool {
    &&& e matches ArDriveError::SubprocessFailed { command, exit_code: c, stdout: o, stderr: x }
    &&& texts(command@) == args
    &&& c == exit_code
    &&& o@ == stdout
    &&& x@ == stderr
}

/// Whether `r` reports the outcome `o` of the output, before any record is
/// decoded: `true` for records.
pub open spec fn reports_output<T>(o: Outcome, r: Result<T, ArDriveError>) -> bool {
    match o {
        Outcome::Empty => r matches Err(ArDriveError::EmptyOutput),
        Outcome::ErrorMarker(c) => r matches Err(ArDriveError::ErrorInOutput { text }) && text@
            == c,
        Outcome::Unparseable(c, p) => r matches Err(
            ArDriveError::Unparseable { text, line, message },
        ) && text@ == c && p == JsonParse::Failed(line, message@),
        Outcome::UnexpectedShape => r matches Err(ArDriveError::UnexpectedShape { .. }),
        Outcome::Records(_) => true,
    }
}

/// The error for output that yielded no records.
fn output_error(e: OutputError) -> (r: ArDriveError)
    ensures
        e matches OutputError::Empty ==> r matches ArDriveError::EmptyOutput,
        e matches OutputError::ErrorMarker { text } ==> r matches ArDriveError::ErrorInOutput {
            text: t,
        } && t == text,
        e matches OutputError::Unparseable { text, line, message } ==> r matches ArDriveError::Unparseable {
            text: t,
            line: l,
            message: m,
        } && t == text && l == line && m == message,
        e matches OutputError::UnexpectedShape { .. } ==> r matches ArDriveError::UnexpectedShape {
            ..
        },
{
    match e {
        OutputError::Empty => ArDriveError::EmptyOutput,
        OutputError::ErrorMarker { text } => ArDriveError::ErrorInOutput { text },
        OutputError::Unparseable { text, line, message } => ArDriveError::Unparseable {
            text,
            line,
            message,
        },
        OutputError::UnexpectedShape { structure } => ArDriveError::UnexpectedShape { structure },
    }
}

/// The error for a failed exit of the CLI run for `op`.
fn exit_failure(op: &Operation, exit_code: Option<i32>, stdout: &str, stderr: &str) -> (r:
    ArDriveError)
    ensures
        reports_exit_failure(op_args(*op, "<wallet>"@), exit_code, stdout@, stderr@, r),
{
    ArDriveError::SubprocessFailed {
        command: command_args(op, "<wallet>"),
        exit_code,
        stdout: stdout.to_owned(),
        stderr: stderr.to_owned(),
    }
}

/// What the run of `ListDrive` yields: on success the output as printed,
/// else the failure.
pub fn interpret_list_drive(
    drive_id: &str,
    exited_ok: bool,
    exit_code: Option<i32>,
    stdout: &str,
    stderr: &str,
) -> (r: Result<String, ArDriveError>)
    ensures
        exited_ok ==> (r matches Ok(s) && s@ == stdout@),
        !exited_ok ==> (r matches Err(e) && reports_exit_failure(
            list_drive_args(drive_id@, "<wallet>"@),
            exit_code,
            stdout@,
            stderr@,
            e,
        )),
{
    if exited_ok {
        Ok(stdout.to_owned())
    } else {
        let op = Operation::ListDrive { drive_id: drive_id.to_owned() };
        Err(exit_failure(&op, exit_code, stdout, stderr))
    }
}

/// What the run of `ListAllDrives` yields: the failure where the CLI exited
/// with one; else what its output yields (see `output_outcome`), the
/// records decoded as drives, in order.
pub fn interpret_list_all_drives(
    exited_ok: bool,
    exit_code: Option<i32>,
    stdout: &str,
    stderr: &str,
) -> (r: Result<Vec<ArDriveDrive>, ArDriveError>)
    ensures
        !exited_ok ==> (r matches Err(e) && reports_exit_failure(
            list_all_drives_args("<wallet>"@),
            exit_code,
            stdout@,
            stderr@,
            e,
        )),
        exited_ok ==> reports_output(output_outcome(stdout@), r),
        exited_ok ==> (output_outcome(stdout@) matches Outcome::Records(rs) ==> {
            &&& r is Ok <==> all_drives_decodable(rs)
            &&& r matches Ok(ds) ==> drives_decode(rs, ds@)
            &&& r matches Err(e) ==> e matches ArDriveError::RecordDecode { index, .. } && index
                < rs.len() && !drive_decodable(rs[index as int]) && all_drives_decodable(
                rs.take(index as int),
            )
        }),
{
    if !exited_ok {
        let op = Operation::ListAllDrives;
        return Err(exit_failure(&op, exit_code, stdout, stderr));
    }
    match normalize(stdout) {
        Err(e) => Err(output_error(e)),
        Ok(recs) => match decode_drives(&recs) {
            Ok(ds) => Ok(ds),
            Err(e) => Err(ArDriveError::RecordDecode { index: e.index, field: e.field }),
        },
    }
}

/// Whether the CLI's output says that the drive is unknown.
pub open spec fn reports_invalid_entity(stdout: Seq<char>, stderr: Seq<char>) -> bool {
    contains(stdout, "Invalid entity ID"@) || contains(stderr, "Invalid entity ID"@)
}

/// The records kept by an optional extension filter.
pub open spec fn kept_records(rs: Seq<Json>, filter_ext: Option<Seq<char>>) -> Seq<Json> {
    match filter_ext {
        Some(ext) => records_with_extension(rs, ext),
        None => rs,
    }
}

/// What the run of `ListDriveFiles` yields: the failure where the CLI
/// exited with one; else `InvalidDriveId` where its output says the drive
/// is unknown; else what its output yields (see `output_outcome`), the
/// records decoded as files, in order, those without the extension
/// `filter_ext` (where one is given) left out. A record that does not decode
/// fails the whole listing, filtered out or not.
pub fn interpret_list_drive_files(
    drive_id: &str,
    exited_ok: bool,
    exit_code: Option<i32>,
    stdout: &str,
    stderr: &str,
    filter_ext: Option<&str>,
) -> (r: Result<Vec<ArDriveFile>, ArDriveError>)
    ensures
        !exited_ok ==> (r matches Err(e) && reports_exit_failure(
            list_drive_files_args(drive_id@, "<wallet>"@),
            exit_code,
            stdout@,
            stderr@,
            e,
        )),
        exited_ok && reports_invalid_entity(stdout@, stderr@) ==> r matches Err(
            ArDriveError::InvalidDriveId,
        ),
        exited_ok && !reports_invalid_entity(stdout@, stderr@) ==> reports_output(
            output_outcome(stdout@),
            r,
        ),
        exited_ok && !reports_invalid_entity(stdout@, stderr@) ==> (output_outcome(
            stdout@,
        ) matches Outcome::Records(rs) ==> {
            &&& r is Ok <==> all_files_decodable(rs)
            &&& r matches Ok(fs) ==> files_decode(kept_records(rs, str_view(filter_ext)), fs@)
            &&& r matches Err(e) ==> e matches ArDriveError::RecordDecode { index, .. } && index
                < rs.len() && !file_decodable(rs[index as int]) && all_files_decodable(
                rs.take(index as int),
            )
        }),
{
    if !exited_ok {
        let op = Operation::ListDriveFiles { drive_id: drive_id.to_owned() };
        return Err(exit_failure(&op, exit_code, stdout, stderr));
    }
    if contains_chars(&chars_of(stdout), "Invalid entity ID") || contains_chars(
        &chars_of(stderr),
        "Invalid entity ID",
    ) {
        return Err(ArDriveError::InvalidDriveId);
    }
    match normalize(stdout) {
        Err(e) => Err(output_error(e)),
        Ok(recs) => match decode_files(&recs) {
            Ok(fs) => match filter_ext {
                Some(ext) => {
                    proof { lemma_filter_decoded(jsons(recs@), fs@, ext@); }
                    Ok(filter_by_extension(fs, ext))
                },
                None => Ok(fs),
            },
            Err(e) => Err(ArDriveError::RecordDecode { index: e.index, field: e.field }),
        },
    }
}

/// A listing whose output is nothing but white space and byte-order marks
/// reports empty output, never a parse failure.
pub proof fn lemma_blank_listing_reports_empty<T>(stdout: Seq<char>, r: Result<T, ArDriveError>)
    requires
        trim_start_char(trim(stdout), BOM).len() == 0,
        reports_output(output_outcome(stdout), r),
    ensures
        r matches Err(ArDriveError::EmptyOutput),
{
    lemma_blank_output_is_empty(stdout);
}

} // verus!
