//! The compression of one file, as a sequence of decisions.
//!
//! Reading the input, talking to the compression service and writing the
//! result are the caller's work. A [`CompressJob`] tells the caller what to do
//! next and decides, from what the caller reports back, how to go on: which
//! answers end the job with an error, where the result is written, and how
//! the write is made safe against a crash (the payload goes to a temporary
//! file beside the target, which is then renamed over it).

use vstd::prelude::*;
use vstd::string::StringExecFns;
use crate::paths::{
    file_name,
    join,
    option_text,
    parent,
    path_file_name,
    path_join,
    path_parent,
    path_with_extension,
    split_file_name,
    extension_of,
    stem_of,
    with_extension,
};
use crate::batch::Outcome;
use crate::settings::{AppSettings, OutputMode};
use crate::text::{decimal, decimal_string};

verus! {

/// A downloaded payload of fewer bytes than this is not an image.
pub const MIN_PAYLOAD_BYTES: u64 = 64;

/// Progress reported when the upload begins.
pub const UPLOAD_START_PERCENT: u8 = 0;

/// Progress reported when the upload is done and the service works.
pub const PROCESSING_PERCENT: u8 = 40;

/// Progress reported when the download begins.
pub const DOWNLOAD_START_PERCENT: u8 = 50;

/// The highest progress of a download; the rest is left to the write.
pub const DOWNLOAD_END_PERCENT: u8 = 99;

/// The result of one compression.
#[derive(Debug, Clone, PartialEq, Eq)]
pub struct CompressResult {
    pub input_size: u64,
    pub output_size: u64,
    pub output_path: String,
}

/// Why a compression failed.
#[derive(Debug, Clone, PartialEq, Eq)]
pub enum CompressError {
    /// The settings hold no API key.
    MissingApiKey,
    /// The input file does not exist.
    InputMissing,
    /// The input file could not be read.
    InputUnreadable,
    /// The upload did not reach the service.
    UploadFailed,
    /// The service refused the upload, with this message.
    UploadRejected(String),
    /// The answer of the service could not be understood.
    BadResponse,
    /// The download did not complete.
    DownloadFailed,
    /// The service refused the download.
    DownloadRejected,
    /// The downloaded payload has only this many bytes.
    PayloadTooSmall(u64),
    /// The input path has no file name.
    NoFileName,
    /// The input path has no parent directory.
    NoParentDirectory,
    /// The output mode asks for a directory and none is configured.
    OutputDirectoryUnset,
    /// The directory for the output could not be created.
    CreateDirectoryFailed,
    /// The temporary file could not be written.
    WriteFailed,
    /// The temporary file could not be renamed to the output path.
    RenameFailed,
    /// The caller reported something that the job was not waiting for.
    OutOfOrder,
}

/// A [`CompressError`] over character sequences and natural numbers.
pub enum CompressErrorView {
    MissingApiKey,
    InputMissing,
    InputUnreadable,
    UploadFailed,
    UploadRejected(Seq<char>),
    BadResponse,
    DownloadFailed,
    DownloadRejected,
    PayloadTooSmall(nat),
    NoFileName,
    NoParentDirectory,
    OutputDirectoryUnset,
    CreateDirectoryFailed,
    WriteFailed,
    RenameFailed,
    OutOfOrder,
}

impl View for CompressError {
    type V = CompressErrorView;

    open spec fn view(&self) -> CompressErrorView {
        match *self {
            CompressError::MissingApiKey => CompressErrorView::MissingApiKey,
            CompressError::InputMissing => CompressErrorView::InputMissing,
            CompressError::InputUnreadable => CompressErrorView::InputUnreadable,
            CompressError::UploadFailed => CompressErrorView::UploadFailed,
            CompressError::UploadRejected(message) => CompressErrorView::UploadRejected(message@),
            CompressError::BadResponse => CompressErrorView::BadResponse,
            CompressError::DownloadFailed => CompressErrorView::DownloadFailed,
            CompressError::DownloadRejected => CompressErrorView::DownloadRejected,
            CompressError::PayloadTooSmall(len) => CompressErrorView::PayloadTooSmall(len as nat),
            CompressError::NoFileName => CompressErrorView::NoFileName,
            CompressError::NoParentDirectory => CompressErrorView::NoParentDirectory,
            CompressError::OutputDirectoryUnset => CompressErrorView::OutputDirectoryUnset,
            CompressError::CreateDirectoryFailed => CompressErrorView::CreateDirectoryFailed,
            CompressError::WriteFailed => CompressErrorView::WriteFailed,
            CompressError::RenameFailed => CompressErrorView::RenameFailed,
            CompressError::OutOfOrder => CompressErrorView::OutOfOrder,
        }
    }
}

/// The words for an error.
pub open spec fn error_text(error: CompressErrorView) -> Seq<char> {
    match error {
        CompressErrorView::MissingApiKey => "the API key is not set"@,
        CompressErrorView::InputMissing => "the file does not exist"@,
        CompressErrorView::InputUnreadable => "the file could not be read"@,
        CompressErrorView::UploadFailed => "the upload failed"@,
        CompressErrorView::UploadRejected(message) => "the upload was rejected: "@ + message,
        CompressErrorView::BadResponse => "the answer of the service could not be read"@,
        CompressErrorView::DownloadFailed => "the download failed"@,
        CompressErrorView::DownloadRejected => "the download was rejected"@,
        CompressErrorView::PayloadTooSmall(len) => "the downloaded file is damaged ("@ + decimal(
            len,
        ) + " bytes)"@,
        CompressErrorView::NoFileName => "the path has no file name"@,
        CompressErrorView::NoParentDirectory => "the path has no parent directory"@,
        CompressErrorView::OutputDirectoryUnset => "no output directory is set"@,
        CompressErrorView::CreateDirectoryFailed => "the output directory could not be created"@,
        CompressErrorView::WriteFailed => "the temporary file could not be written"@,
        CompressErrorView::RenameFailed => "the file could not be moved into place"@,
        CompressErrorView::OutOfOrder => "the steps of the compression got out of order"@,
    }
}

impl CompressError {
    /// The words for this error, for the interface to show.
    pub fn message(&self) -> (text: String)
        ensures
            text@ == error_text(self@),
    {
        match self {
            CompressError::MissingApiKey => String::from_str("the API key is not set"),
            CompressError::InputMissing => String::from_str("the file does not exist"),
            CompressError::InputUnreadable => String::from_str("the file could not be read"),
            CompressError::UploadFailed => String::from_str("the upload failed"),
            CompressError::UploadRejected(message) => {
                let mut text = String::from_str("the upload was rejected: ");
                text.append(message.as_str());
                text
            },
            CompressError::BadResponse => String::from_str(
                "the answer of the service could not be read",
            ),
            CompressError::DownloadFailed => String::from_str("the download failed"),
            CompressError::DownloadRejected => String::from_str("the download was rejected"),
            CompressError::PayloadTooSmall(len) => {
                let mut text = String::from_str("the downloaded file is damaged (");
                text.append(decimal_string(*len).as_str());
                text.append(" bytes)");
                text
            },
            CompressError::NoFileName => String::from_str("the path has no file name"),
            CompressError::NoParentDirectory => String::from_str(
                "the path has no parent directory",
            ),
            CompressError::OutputDirectoryUnset => String::from_str("no output directory is set"),
            CompressError::CreateDirectoryFailed => String::from_str(
                "the output directory could not be created",
            ),
            CompressError::WriteFailed => String::from_str(
                "the temporary file could not be written",
            ),
            CompressError::RenameFailed => String::from_str(
                "the file could not be moved into place",
            ),
            CompressError::OutOfOrder => String::from_str(
                "the steps of the compression got out of order",
            ),
        }
    }
}

/// The contents of a path or the error that stands in its place.
pub open spec fn path_result_view(result: Result<String, CompressError>) -> Result<
    Seq<char>,
    CompressErrorView,
> {
    match result {
        Ok(path) => Ok(path@),
        Err(error) => Err(error@),
    }
}

/// The name of the compressed copy that is written beside an input file
/// called `name`: `-tiny` goes between the stem and the extension.
pub open spec fn tiny_name(name: Seq<char>) -> Seq<char> {
    match extension_of(name) {
        Some(extension) => if extension.len() == 0 {
            stem_of(name) + "-tiny"@
        } else {
            stem_of(name) + "-tiny."@ + extension
        },
        None => stem_of(name) + "-tiny"@,
    }
}

/// Names the compressed copy of a file called `name`.
pub fn tiny_file_name(name: &str) -> (tiny: String)
    ensures
        tiny@ == tiny_name(name@),
{
    let parts = split_file_name(name);
    let mut tiny = parts.stem;
    match parts.extension {
        Some(extension) => {
            if extension.as_str().unicode_len() == 0 {
                tiny.append("-tiny");
            } else {
                tiny.append("-tiny.");
                tiny.append(extension.as_str());
            }
        },
        None => {
            tiny.append("-tiny");
        },
    }
    tiny
}

/// Where the result for `input` is written.
///
/// `Overwrite` keeps the input path. `Alongside` puts [`tiny_name`] of the
/// input's file name into the input's directory. `Directory` puts the input's
/// file name into `directory`, which must be set.
pub open spec fn resolved_output(input: Seq<char>, mode: OutputMode, directory: Seq<char>)
    -> Result<Seq<char>, CompressErrorView> {
    match mode {
        OutputMode::Overwrite => Ok(input),
        OutputMode::Alongside => match path_file_name(input) {
            None => Err(CompressErrorView::NoFileName),
            Some(name) => match path_parent(input) {
                None => Err(CompressErrorView::NoParentDirectory),
                Some(dir) => Ok(path_join(dir, tiny_name(name))),
            },
        },
        OutputMode::Directory => if directory.len() == 0 {
            Err(CompressErrorView::OutputDirectoryUnset)
        } else {
            match path_file_name(input) {
                None => Err(CompressErrorView::NoFileName),
                Some(name) => Ok(path_join(directory, name)),
            }
        },
    }
}

fn resolve_output(input: &str, mode: OutputMode, directory: &str) -> (output: Result<
    String,
    CompressError,
>)
    ensures
        path_result_view(output) == resolved_output(input@, mode, directory@),
{
    match mode {
        OutputMode::Overwrite => Ok(String::from_str(input)),
        OutputMode::Alongside => match file_name(input) {
            None => Err(CompressError::NoFileName),
            Some(name) => match parent(input) {
                None => Err(CompressError::NoParentDirectory),
                Some(dir) => Ok(join(dir.as_str(), tiny_file_name(name.as_str()).as_str())),
            },
        },
        OutputMode::Directory => if directory.unicode_len() == 0 {
            Err(CompressError::OutputDirectoryUnset)
        } else {
            match file_name(input) {
                None => Err(CompressError::NoFileName),
                Some(name) => Ok(join(directory, name.as_str())),
            }
        },
    }
}

/// Decides where the result for `input` is written; see [`resolved_output`].
pub fn resolve_output_path(input: &str, settings: &AppSettings) -> (output: Result<
    String,
    CompressError,
>)
    ensures
        path_result_view(output) == resolved_output(
            input@,
            settings.output_mode,
            settings.output_directory@,
        ),
{
    resolve_output(input, settings.output_mode, settings.output_directory.as_str())
}

/// The temporary file beside `output` that takes the payload first.
pub open spec fn temp_path_of(output: Seq<char>) -> Seq<char> {
    path_with_extension(output, "__tinytmp__"@)
}

/// Names the temporary file beside `output` that takes the payload first.
pub fn temp_path_for(output: &str) -> (temp: String)
    ensures
        temp@ == temp_path_of(output@),
{
    proof {
        reveal_strlit("__tinytmp__");
    }
    with_extension(output, "__tinytmp__")
}

/// How the compression of a file counts in its batch: a result is a success,
/// and every error, whatever its kind, is one failure of that file alone.
pub open spec fn outcome_of(result: Result<CompressResult, CompressError>) -> Outcome {
    match result {
        Ok(_) => Outcome::Success,
        Err(_) => Outcome::Failure,
    }
}

/// Tells how the compression of a file counts in its batch.
pub fn batch_outcome(result: &Result<CompressResult, CompressError>) -> (outcome: Outcome)
    ensures
        outcome == outcome_of(*result),
{
    match result {
        Ok(_) => Outcome::Success,
        Err(_) => Outcome::Failure,
    }
}

/// Whether a downloaded payload of `len` bytes is taken for an image.
pub open spec fn payload_accepted(len: nat) -> bool {
    len >= MIN_PAYLOAD_BYTES
}

/// Accepts or refuses a downloaded payload by its length; nothing else of it
/// is looked at.
pub fn check_payload(len: u64) -> (checked: Result<(), CompressError>)
    ensures
        checked is Ok <==> payload_accepted(len as nat),
        checked is Err ==> checked->Err_0@ == CompressErrorView::PayloadTooSmall(len as nat),
{
    if len < MIN_PAYLOAD_BYTES {
        Err(CompressError::PayloadTooSmall(len))
    } else {
        Ok(())
    }
}

/// What the compression of a file is busy with.
#[derive(Debug, Clone, Copy, PartialEq, Eq, Structural)]
pub enum Phase {
    Uploading,
    Processing,
    Downloading,
}

/// The name of a phase, as the interface knows it.
pub open spec fn phase_text(phase: Phase) -> Seq<char> {
    match phase {
        Phase::Uploading => "uploading"@,
        Phase::Processing => "processing"@,
        Phase::Downloading => "downloading"@,
    }
}

impl Phase {
    /// The name of this phase, as the interface knows it.
    pub fn name(&self) -> (name: &'static str)
        ensures
            name@ == phase_text(*self),
    {
        match self {
            Phase::Uploading => "uploading",
            Phase::Processing => "processing",
            Phase::Downloading => "downloading",
        }
    }
}

/// How far the compression of one file has come.
#[derive(Debug, Clone, Copy, PartialEq, Eq, Structural)]
pub struct Progress {
    /// Between 0 and 100.
    pub percent: u8,
    pub phase: Phase,
}

/// What observers are told of the compression of one file.
#[derive(Debug, Clone, PartialEq, Eq)]
pub struct ProgressEvent {
    pub path: String,
    /// Between 0 and 100.
    pub percent: u8,
    pub phase: Phase,
}

impl Progress {
    /// The event that tells this progress of the file at `path`.
    pub fn event_for(&self, path: &str) -> (event: ProgressEvent)
        ensures
            event.path@ == path@,
            event.percent == self.percent,
            event.phase == self.phase,
    {
        ProgressEvent { path: String::from_str(path), percent: self.percent, phase: self.phase }
    }
}

/// What a [`ProgressMeter`] remembers.
pub struct MeterView {
    /// The highest percentage that went through, or the one the meter
    /// started with.
    pub last: nat,
    /// The highest percentage that the meter lets through at all.
    pub limit: nat,
    /// The phase that the meter reports.
    pub phase: Phase,
}

impl MeterView {
    /// Whether the meter lets `percent` through: only what is above
    /// everything that went through before, and not above the limit.
    pub open spec fn admits(self, percent: nat) -> bool {
        self.last < percent <= self.limit
    }
}

/// Turns the percentages of a running transfer into progress reports. Only
/// a value that is higher than every value before goes through, so that
/// observers see each percentage once and never a smaller one after a larger
/// one; and the upload stays within its share of the whole, 0 to 40, as the
/// download stays within 50 to 99.
pub struct ProgressMeter {
    last: u8,
    limit: u8,
    phase: Phase,
}

impl View for ProgressMeter {
    type V = MeterView;

    closed spec fn view(&self) -> MeterView {
        MeterView { last: self.last as nat, limit: self.limit as nat, phase: self.phase }
    }
}

impl ProgressMeter {
    /// The meter of an upload.
    pub fn for_upload() -> (meter: ProgressMeter)
        ensures
            meter@ == (MeterView {
                last: UPLOAD_START_PERCENT as nat,
                limit: PROCESSING_PERCENT as nat,
                phase: Phase::Uploading,
            }),
    {
        ProgressMeter {
            last: UPLOAD_START_PERCENT,
            limit: PROCESSING_PERCENT,
            phase: Phase::Uploading,
        }
    }

    /// The meter of a download.
    pub fn for_download() -> (meter: ProgressMeter)
        ensures
            meter@ == (MeterView {
                last: DOWNLOAD_START_PERCENT as nat,
                limit: DOWNLOAD_END_PERCENT as nat,
                phase: Phase::Downloading,
            }),
    {
        ProgressMeter {
            last: DOWNLOAD_START_PERCENT,
            limit: DOWNLOAD_END_PERCENT,
            phase: Phase::Downloading,
        }
    }

    /// Offers `percent` to the meter. The result is the report to send, if
    /// the value goes through.
    pub fn offer(&mut self, percent: u8) -> (report: Option<Progress>)
        ensures
            report is Some <==> old(self)@.admits(percent as nat),
            report is Some ==> report->0 == (Progress { percent, phase: old(self)@.phase })
                && final(self)@ == (MeterView { last: percent as nat, ..old(self)@ }),
            report is None ==> final(self)@ == old(self)@,
    {
        if percent > self.last && percent <= self.limit {
            self.last = percent;
            Some(Progress { percent, phase: self.phase })
        } else {
            None
        }
    }
}

/// Where a job stands.
#[derive(Debug, Clone, Copy, PartialEq, Eq, Structural)]
pub enum JobStage {
    /// Nothing has happened yet.
    Created,
    /// Waiting for the input file to be read.
    ReadingInput,
    /// Waiting for the upload to end.
    Uploading,
    /// Waiting for the answer of the service to be read.
    AwaitingResult,
    /// Waiting for the download to end.
    Downloading,
    /// Waiting for the temporary file to be written.
    WritingTemp,
    /// Waiting for the temporary file to be renamed.
    Renaming,
    /// The output is in place.
    Succeeded,
    /// The job has ended with an error.
    Failed,
}

/// What the caller reports to a job.
#[derive(Debug, Clone, PartialEq, Eq)]
pub enum JobEvent {
    /// The job is to begin.
    Start,
    /// The input file does not exist.
    InputMissing,
    /// The input file exists and could not be read.
    InputUnreadable,
    /// The input file was read; it has this many bytes.
    InputRead(u64),
    /// The upload did not reach the service.
    UploadFailed,
    /// The service answered the upload with an error status and this message.
    UploadRejected(String),
    /// The service answered the upload with a success status.
    UploadAccepted,
    /// The answer of the service could not be understood.
    ResultUnreadable,
    /// The answer of the service says where the result is.
    ResultReady,
    /// The download did not complete.
    DownloadFailed,
    /// The service answered the download with an error status.
    DownloadRejected,
    /// The download is complete; the payload has this many bytes.
    Downloaded(u64),
    /// The directory for the output could not be created.
    DirectoryFailed,
    /// The temporary file could not be written.
    WriteFailed,
    /// The temporary file holds the payload.
    Written,
    /// The temporary file could not be renamed.
    RenameFailed,
    /// The temporary file was renamed to the output path.
    Renamed,
}

/// A [`JobEvent`] over character sequences and natural numbers.
pub enum JobEventView {
    Start,
    InputMissing,
    InputUnreadable,
    InputRead(nat),
    UploadFailed,
    UploadRejected(Seq<char>),
    UploadAccepted,
    ResultUnreadable,
    ResultReady,
    DownloadFailed,
    DownloadRejected,
    Downloaded(nat),
    DirectoryFailed,
    WriteFailed,
    Written,
    RenameFailed,
    Renamed,
}

impl View for JobEvent {
    type V = JobEventView;

    open spec fn view(&self) -> JobEventView {
        match *self {
            JobEvent::Start => JobEventView::Start,
            JobEvent::InputMissing => JobEventView::InputMissing,
            JobEvent::InputUnreadable => JobEventView::InputUnreadable,
            JobEvent::InputRead(len) => JobEventView::InputRead(len as nat),
            JobEvent::UploadFailed => JobEventView::UploadFailed,
            JobEvent::UploadRejected(message) => JobEventView::UploadRejected(message@),
            JobEvent::UploadAccepted => JobEventView::UploadAccepted,
            JobEvent::ResultUnreadable => JobEventView::ResultUnreadable,
            JobEvent::ResultReady => JobEventView::ResultReady,
            JobEvent::DownloadFailed => JobEventView::DownloadFailed,
            JobEvent::DownloadRejected => JobEventView::DownloadRejected,
            JobEvent::Downloaded(len) => JobEventView::Downloaded(len as nat),
            JobEvent::DirectoryFailed => JobEventView::DirectoryFailed,
            JobEvent::WriteFailed => JobEventView::WriteFailed,
            JobEvent::Written => JobEventView::Written,
            JobEvent::RenameFailed => JobEventView::RenameFailed,
            JobEvent::Renamed => JobEventView::Renamed,
        }
    }
}

/// What the caller has to do next.
#[derive(Debug, Clone, Copy, PartialEq, Eq, Structural)]
pub enum JobAction {
    /// Check that the input file exists and read it.
    ReadInput,
    /// Send the bytes of the input to the service.
    Upload,
    /// Read the answer of the service.
    AwaitResult,
    /// Fetch the compressed image.
    Download,
    /// Create the directory of the output path if it is missing, and write
    /// the payload to the temporary path.
    WriteTemp,
    /// Rename the temporary path to the output path.
    Rename,
    /// Nothing: the job has succeeded and holds its result.
    Succeed,
    /// Nothing but, where `remove_temp` says so, to remove the temporary
    /// file: the job has failed and holds its error.
    Fail { remove_temp: bool },
}

/// One answer of a job: what to tell the observers, and what to do.
#[derive(Debug, Clone, Copy, PartialEq, Eq, Structural)]
pub struct JobStep {
    pub progress: Option<Progress>,
    pub action: JobAction,
}

/// A job over character sequences and natural numbers.
pub struct JobView {
    pub stage: JobStage,
    pub input_path: Seq<char>,
    pub api_key: Seq<char>,
    pub output_mode: OutputMode,
    pub output_directory: Seq<char>,
    pub input_size: nat,
    pub output_size: nat,
    pub output_path: Seq<char>,
    pub temp_path: Seq<char>,
    pub error: Option<CompressErrorView>,
}

impl JobView {
    /// A job for `input_path` that has not begun.
    pub open spec fn created(
        input_path: Seq<char>,
        api_key: Seq<char>,
        output_mode: OutputMode,
        output_directory: Seq<char>,
    ) -> JobView {
        JobView {
            stage: JobStage::Created,
            input_path,
            api_key,
            output_mode,
            output_directory,
            input_size: 0,
            output_size: 0,
            output_path: Seq::empty(),
            temp_path: Seq::empty(),
            error: None,
        }
    }

    /// The job goes on to `stage` and asks for `action`.
    pub open spec fn go(self, stage: JobStage, progress: Option<Progress>, action: JobAction) -> (
        JobView,
        JobStep,
    ) {
        (JobView { stage, ..self }, JobStep { progress, action })
    }

    /// The job ends with `error`.
    pub open spec fn fail(self, error: CompressErrorView, remove_temp: bool) -> (
        JobView,
        JobStep,
    ) {
        (
            JobView { stage: JobStage::Failed, error: Some(error), ..self },
            JobStep { progress: None, action: JobAction::Fail { remove_temp } },
        )
    }

    /// The job after a download of `len` bytes: a payload that is too small
    /// or an output path that cannot be formed ends it; otherwise the paths
    /// are fixed and the payload is to be written.
    pub open spec fn downloaded(self, len: nat) -> (JobView, JobStep) {
        if !payload_accepted(len) {
            self.fail(CompressErrorView::PayloadTooSmall(len), false)
        } else {
            match resolved_output(self.input_path, self.output_mode, self.output_directory) {
                Err(error) => self.fail(error, false),
                Ok(output) => (JobView {
                    output_size: len,
                    output_path: output,
                    temp_path: temp_path_of(output),
                    ..self
                }).go(JobStage::WritingTemp, None, JobAction::WriteTemp),
            }
        }
    }

    /// A job holds an error exactly when it has failed.
    pub open spec fn wf(self) -> bool {
        self.stage == JobStage::Failed <==> self.error is Some
    }

    /// Whether the job has ended.
    pub open spec fn finished(self) -> bool {
        self.stage == JobStage::Succeeded || self.stage == JobStage::Failed
    }

    /// The job after `event`, and its answer. A job that has ended stays as
    /// it is and repeats its last answer. An event that a running job is not
    /// waiting for ends it with [`CompressErrorView::OutOfOrder`].
    pub open spec fn next(self, event: JobEventView) -> (JobView, JobStep) {
        match (self.stage, event) {
            (JobStage::Succeeded, _) => (
                self,
                JobStep { progress: None, action: JobAction::Succeed },
            ),
            (JobStage::Failed, _) => (
                self,
                JobStep { progress: None, action: JobAction::Fail { remove_temp: false } },
            ),
            (JobStage::Created, JobEventView::Start) => if self.api_key.len() == 0 {
                self.fail(CompressErrorView::MissingApiKey, false)
            } else {
                self.go(JobStage::ReadingInput, None, JobAction::ReadInput)
            },
            (JobStage::ReadingInput, JobEventView::InputMissing) => self.fail(
                CompressErrorView::InputMissing,
                false,
            ),
            (JobStage::ReadingInput, JobEventView::InputUnreadable) => self.fail(
                CompressErrorView::InputUnreadable,
                false,
            ),
            (JobStage::ReadingInput, JobEventView::InputRead(len)) => (JobView {
                input_size: len,
                ..self
            }).go(
                JobStage::Uploading,
                Some(Progress { percent: UPLOAD_START_PERCENT, phase: Phase::Uploading }),
                JobAction::Upload,
            ),
            (JobStage::Uploading, JobEventView::UploadFailed) => self.fail(
                CompressErrorView::UploadFailed,
                false,
            ),
            (JobStage::Uploading, JobEventView::UploadRejected(message)) => self.fail(
                CompressErrorView::UploadRejected(message),
                false,
            ),
            (JobStage::Uploading, JobEventView::UploadAccepted) => self.go(
                JobStage::AwaitingResult,
                Some(Progress { percent: PROCESSING_PERCENT, phase: Phase::Processing }),
                JobAction::AwaitResult,
            ),
            (JobStage::AwaitingResult, JobEventView::ResultUnreadable) => self.fail(
                CompressErrorView::BadResponse,
                false,
            ),
            (JobStage::AwaitingResult, JobEventView::ResultReady) => self.go(
                JobStage::Downloading,
                Some(Progress { percent: DOWNLOAD_START_PERCENT, phase: Phase::Downloading }),
                JobAction::Download,
            ),
            (JobStage::Downloading, JobEventView::DownloadFailed) => self.fail(
                CompressErrorView::DownloadFailed,
                false,
            ),
            (JobStage::Downloading, JobEventView::DownloadRejected) => self.fail(
                CompressErrorView::DownloadRejected,
                false,
            ),
            (JobStage::Downloading, JobEventView::Downloaded(len)) => self.downloaded(len),
            (JobStage::WritingTemp, JobEventView::DirectoryFailed) => self.fail(
                CompressErrorView::CreateDirectoryFailed,
                false,
            ),
            (JobStage::WritingTemp, JobEventView::WriteFailed) => self.fail(
                CompressErrorView::WriteFailed,
                false,
            ),
            (JobStage::WritingTemp, JobEventView::Written) => self.go(
                JobStage::Renaming,
                None,
                JobAction::Rename,
            ),
            (JobStage::Renaming, JobEventView::RenameFailed) => self.fail(
                CompressErrorView::RenameFailed,
                true,
            ),
            (JobStage::Renaming, JobEventView::Renamed) => self.go(
                JobStage::Succeeded,
                None,
                JobAction::Succeed,
            ),
            _ => self.fail(CompressErrorView::OutOfOrder, false),
        }
    }
}

/// The compression of one file.
pub struct CompressJob {
    stage: JobStage,
    input_path: String,
    api_key: String,
    output_mode: OutputMode,
    output_directory: String,
    input_size: u64,
    output_size: u64,
    output_path: String,
    temp_path: String,
    error: Option<CompressError>,
}

/// The contents of an optional error.
pub open spec fn option_error_view(error: Option<CompressError>) -> Option<CompressErrorView> {
    match error {
        Some(e) => Some(e@),
        None => None,
    }
}

impl View for CompressJob {
    type V = JobView;

    closed spec fn view(&self) -> JobView {
        JobView {
            stage: self.stage,
            input_path: self.input_path@,
            api_key: self.api_key@,
            output_mode: self.output_mode,
            output_directory: self.output_directory@,
            input_size: self.input_size as nat,
            output_size: self.output_size as nat,
            output_path: self.output_path@,
            temp_path: self.temp_path@,
            error: option_error_view(self.error),
        }
    }
}

impl CompressJob {
    /// A job that compresses the file at `input_path` under `settings`.
    pub fn new(input_path: &str, settings: &AppSettings) -> (job: CompressJob)
        ensures
            job@ == JobView::created(
                input_path@,
                settings.api_key@,
                settings.output_mode,
                settings.output_directory@,
            ),
    {
        CompressJob {
            stage: JobStage::Created,
            input_path: String::from_str(input_path),
            api_key: settings.api_key.clone(),
            output_mode: settings.output_mode,
            output_directory: settings.output_directory.clone(),
            input_size: 0,
            output_size: 0,
            output_path: String::new(),
            temp_path: String::new(),
            error: None,
        }
    }

    fn go(&mut self, stage: JobStage, progress: Option<Progress>, action: JobAction) -> (step:
        JobStep)
        ensures
            (final(self)@, step) == old(self)@.go(stage, progress, action),
    {
        self.stage = stage;
        JobStep { progress, action }
    }

    fn fail(&mut self, error: CompressError, remove_temp: bool) -> (step: JobStep)
        ensures
            (final(self)@, step) == old(self)@.fail(error@, remove_temp),
    {
        self.stage = JobStage::Failed;
        self.error = Some(error);
        JobStep { progress: None, action: JobAction::Fail { remove_temp } }
    }

    fn downloaded(&mut self, len: u64) -> (step: JobStep)
        ensures
            (final(self)@, step) == old(self)@.downloaded(len as nat),
    {
        match check_payload(len) {
            Err(error) => self.fail(error, false),
            Ok(()) => match resolve_output(
                self.input_path.as_str(),
                self.output_mode,
                self.output_directory.as_str(),
            ) {
                Err(error) => self.fail(error, false),
                Ok(output) => {
                    self.temp_path = temp_path_for(output.as_str());
                    self.output_path = output;
                    self.output_size = len;
                    self.go(JobStage::WritingTemp, None, JobAction::WriteTemp)
                },
            },
        }
    }

    /// Takes what the caller reports and answers with the next step; see
    /// [`JobView::next`].
    pub fn advance(&mut self, event: JobEvent) -> (step: JobStep)
        ensures
            (final(self)@, step) == old(self)@.next(event@),
    {
        match (self.stage, event) {
            (JobStage::Succeeded, _) => JobStep { progress: None, action: JobAction::Succeed },
            (JobStage::Failed, _) => JobStep {
                progress: None,
                action: JobAction::Fail { remove_temp: false },
            },
            (JobStage::Created, JobEvent::Start) => if self.api_key.as_str().unicode_len() == 0 {
                self.fail(CompressError::MissingApiKey, false)
            } else {
                self.go(JobStage::ReadingInput, None, JobAction::ReadInput)
            },
            (JobStage::ReadingInput, JobEvent::InputMissing) => self.fail(
                CompressError::InputMissing,
                false,
            ),
            (JobStage::ReadingInput, JobEvent::InputUnreadable) => self.fail(
                CompressError::InputUnreadable,
                false,
            ),
            (JobStage::ReadingInput, JobEvent::InputRead(len)) => {
                self.input_size = len;
                self.go(
                    JobStage::Uploading,
                    Some(Progress { percent: UPLOAD_START_PERCENT, phase: Phase::Uploading }),
                    JobAction::Upload,
                )
            },
            (JobStage::Uploading, JobEvent::UploadFailed) => self.fail(
                CompressError::UploadFailed,
                false,
            ),
            (JobStage::Uploading, JobEvent::UploadRejected(message)) => self.fail(
                CompressError::UploadRejected(message),
                false,
            ),
            (JobStage::Uploading, JobEvent::UploadAccepted) => self.go(
                JobStage::AwaitingResult,
                Some(Progress { percent: PROCESSING_PERCENT, phase: Phase::Processing }),
                JobAction::AwaitResult,
            ),
            (JobStage::AwaitingResult, JobEvent::ResultUnreadable) => self.fail(
                CompressError::BadResponse,
                false,
            ),
            (JobStage::AwaitingResult, JobEvent::ResultReady) => self.go(
                JobStage::Downloading,
                Some(Progress { percent: DOWNLOAD_START_PERCENT, phase: Phase::Downloading }),
                JobAction::Download,
            ),
            (JobStage::Downloading, JobEvent::DownloadFailed) => self.fail(
                CompressError::DownloadFailed,
                false,
            ),
            (JobStage::Downloading, JobEvent::DownloadRejected) => self.fail(
                CompressError::DownloadRejected,
                false,
            ),
            (JobStage::Downloading, JobEvent::Downloaded(len)) => self.downloaded(len),
            (JobStage::WritingTemp, JobEvent::DirectoryFailed) => self.fail(
                CompressError::CreateDirectoryFailed,
                false,
            ),
            (JobStage::WritingTemp, JobEvent::WriteFailed) => self.fail(
                CompressError::WriteFailed,
                false,
            ),
            (JobStage::WritingTemp, JobEvent::Written) => self.go(
                JobStage::Renaming,
                None,
                JobAction::Rename,
            ),
            (JobStage::Renaming, JobEvent::RenameFailed) => self.fail(
                CompressError::RenameFailed,
                true,
            ),
            (JobStage::Renaming, JobEvent::Renamed) => self.go(
                JobStage::Succeeded,
                None,
                JobAction::Succeed,
            ),
            _ => self.fail(CompressError::OutOfOrder, false),
        }
    }

    /// Where the job stands.
    pub fn stage(&self) -> (stage: JobStage)
        ensures
            stage == self@.stage,
    {
        self.stage
    }

    /// The file that is compressed.
    pub fn input_path(&self) -> (path: &str)
        ensures
            path@ == self@.input_path,
    {
        self.input_path.as_str()
    }

    /// Where the result goes; set once the download is complete.
    pub fn output_path(&self) -> (path: &str)
        ensures
            path@ == self@.output_path,
    {
        self.output_path.as_str()
    }

    /// Where the payload is written first; set once the download is complete.
    pub fn temp_path(&self) -> (path: &str)
        ensures
            path@ == self@.temp_path,
    {
        self.temp_path.as_str()
    }

    /// The directory that has to exist before the payload is written.
    pub fn output_parent(&self) -> (dir: Option<String>)
        ensures
            option_text(dir) == path_parent(self@.output_path),
    {
        parent(self.output_path.as_str())
    }

    /// The result of a job that has succeeded.
    pub fn result(&self) -> (result: Option<CompressResult>)
        ensures
            result is Some <==> self@.stage == JobStage::Succeeded,
            result is Some ==> {
                &&& result->0.input_size == self@.input_size
                &&& result->0.output_size == self@.output_size
                &&& result->0.output_path@ == self@.output_path
            },
    {
        match self.stage {
            JobStage::Succeeded => Some(
                CompressResult {
                    input_size: self.input_size,
                    output_size: self.output_size,
                    output_path: self.output_path.clone(),
                },
            ),
            _ => None,
        }
    }

    /// The error of a job that has failed.
    pub fn error(&self) -> (error: &Option<CompressError>)
        ensures
            option_error_view(*error) == self@.error,
    {
        &self.error
    }
}

/// The output path is only ever touched by a rename, and a rename is only
/// asked for once the whole payload stands in the temporary file: the job
/// asks for the write only after a download that was accepted and for which
/// an output path could be formed, and for the rename only after the write
/// has succeeded.
pub proof fn lemma_output_is_replaced_by_rename_only(job: JobView, event: JobEventView)
    ensures
        job.next(event).1.action == JobAction::WriteTemp ==> {
            &&& job.stage == JobStage::Downloading
            &&& event is Downloaded
            &&& payload_accepted(event->Downloaded_0)
            &&& resolved_output(job.input_path, job.output_mode, job.output_directory) == Ok::<
                Seq<char>,
                CompressErrorView,
            >(job.next(event).0.output_path)
            &&& job.next(event).0.temp_path == temp_path_of(job.next(event).0.output_path)
        },
        job.next(event).1.action == JobAction::Rename ==> {
            &&& job.stage == JobStage::WritingTemp
            &&& event == JobEventView::Written
            &&& job.next(event).0.output_path == job.output_path
            &&& job.next(event).0.temp_path == job.temp_path
        },
        job.next(event).0.stage == JobStage::Succeeded && !job.finished() ==> {
            &&& job.stage == JobStage::Renaming
            &&& event == JobEventView::Renamed
        },
{
}

/// The temporary file is removed exactly when the rename has failed; no
/// other failure leaves one behind that the job knows of.
pub proof fn lemma_temp_is_removed_after_failed_rename(job: JobView, event: JobEventView)
    ensures
        job.next(event).1.action == (JobAction::Fail { remove_temp: true }) <==> job.stage
            == JobStage::Renaming && event == JobEventView::RenameFailed,
{
}

/// A job that has ended keeps its stage, its result and its error whatever is
/// reported to it; and a job holds an error exactly when it has failed, from
/// its creation on.
pub proof fn lemma_finished_jobs_do_not_change(job: JobView, event: JobEventView)
    ensures
        job.finished() ==> job.next(event).0 == job,
        job.wf() ==> job.next(event).0.wf(),
        forall|input_path: Seq<char>, api_key: Seq<char>, mode: OutputMode, dir: Seq<char>|
            (#[trigger] JobView::created(input_path, api_key, mode, dir)).wf(),
        job.next(event).1.action is Fail <==> job.next(event).0.stage == JobStage::Failed,
        job.next(event).1.action == JobAction::Succeed <==> job.next(event).0.stage
            == JobStage::Succeeded,
{
}

/// Whatever a job tells its observers is one of three marks: the upload
/// begins at 0, the service works at 40, the download begins at 50.
pub proof fn lemma_job_progress_marks(job: JobView, event: JobEventView)
    ensures
        match job.next(event).1.progress {
            Some(progress) => {
                ||| progress == (Progress { percent: 0, phase: Phase::Uploading })
                    && job.next(event).1.action == JobAction::Upload
                ||| progress == (Progress { percent: 40, phase: Phase::Processing })
                    && job.next(event).1.action == JobAction::AwaitResult
                ||| progress == (Progress { percent: 50, phase: Phase::Downloading })
                    && job.next(event).1.action == JobAction::Download
            },
            None => true,
        },
{
}

/// A download is refused for its length exactly when it is shorter than
/// [`MIN_PAYLOAD_BYTES`]; the job looks at nothing else of the payload.
pub proof fn lemma_payload_is_judged_by_length(job: JobView, len: nat)
    requires
        job.wf(),
        job.stage == JobStage::Downloading,
    ensures
        job.next(JobEventView::Downloaded(len)).0.error == Some(
            CompressErrorView::PayloadTooSmall(len),
        ) <==> len < 64,
        len >= 64 && resolved_output(job.input_path, job.output_mode, job.output_directory) is Ok
            ==> job.next(JobEventView::Downloaded(len)).0.stage == JobStage::WritingTemp,
{
    if len >= 64 {
        match resolved_output(job.input_path, job.output_mode, job.output_directory) {
            Ok(_) => {},
            Err(error) => {
                assert(error != CompressErrorView::PayloadTooSmall(len));
            },
        }
    }
}

} // verus!
