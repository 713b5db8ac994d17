use vstd::prelude::*;

use crate::text::{decimal_digits, socket_address};

verus! {

/// The port on which every device's FTP server listens.
pub const FTP_PORT: u16 = 2001;

/// The user name of the anonymous FTP login.
pub const FTP_USER: &'static str = "anonymous";

/// The password of the anonymous FTP login.
pub const FTP_PASSWORD: &'static str = "";

/// The size of the buffer through which a file is sent.
pub const CHUNK_SIZE: usize = 8192;

/// The error given when the name of a picked Android file is not reported.
pub const NO_DISPLAY_NAME: &'static str = "Android no devolvio el nombre del archivo";

/// The error given when a path has no file name.
pub const NO_FILE_NAME: &'static str = "No se pudo obtener el nombre del archivo";

pub const LOGIN_ERROR_PREFIX: &'static str = "Error login FTP: ";

pub const PATH_ERROR_PREFIX: &'static str = "Ruta de archivo no valida: ";

pub const OPEN_ERROR_PREFIX: &'static str = "No se pudo abrir el archivo: ";

/// The address of the FTP server of the device at `ip`.
pub fn ftp_address(ip: &str) -> (r: String)
    ensures
        r@ == ip@ + seq![':'] + decimal_digits(FTP_PORT as nat),
{
    socket_address(ip, FTP_PORT)
}

/// Why sending a file failed; each variant but one carries the detail that
/// the failing step reported.
pub enum TransferError {
    /// Connecting to the server failed.
    Connect(String),
    /// The anonymous login was refused.
    Login(String),
    /// The file path could not be understood.
    InvalidPath(String),
    /// The file could not be opened.
    Open(String),
    /// The file's size could not be read.
    Metadata(String),
    /// The path has no file name.
    MissingFileName,
    /// The platform did not report the file's name.
    DisplayName(String),
    /// The server did not accept the upload.
    Upload(String),
    /// Reading the file failed.
    Read(String),
    /// Writing to the server failed.
    Write(String),
    /// Closing the upload failed.
    Finish(String),
}

/// The message that reports a transfer error.
pub open spec fn error_message(e: TransferError) -> Seq<char> {
    match e {
        TransferError::Connect(d) => d@,
        TransferError::Login(d) => LOGIN_ERROR_PREFIX@ + d@,
        TransferError::InvalidPath(d) => PATH_ERROR_PREFIX@ + d@,
        TransferError::Open(d) => OPEN_ERROR_PREFIX@ + d@,
        TransferError::Metadata(d) => d@,
        TransferError::MissingFileName => NO_FILE_NAME@,
        TransferError::DisplayName(d) => d@,
        TransferError::Upload(d) => d@,
        TransferError::Read(d) => d@,
        TransferError::Write(d) => d@,
        TransferError::Finish(d) => d@,
    }
}

fn prefixed(prefix: &str, detail: &String) -> (r: String)
    ensures
        r@ == prefix@ + detail@,
{
    let mut message = prefix.to_string();
    message.append(detail.as_str());
    message
}

impl TransferError {
    /// The message that reports this error.
    pub fn message(&self) -> (r: String)
        ensures
            r@ == error_message(*self),
    {
        match self {
            TransferError::Connect(d) => d.clone(),
            TransferError::Login(d) => prefixed(LOGIN_ERROR_PREFIX, d),
            TransferError::InvalidPath(d) => prefixed(PATH_ERROR_PREFIX, d),
            TransferError::Open(d) => prefixed(OPEN_ERROR_PREFIX, d),
            TransferError::Metadata(d) => d.clone(),
            TransferError::MissingFileName => NO_FILE_NAME.to_string(),
            TransferError::DisplayName(d) => d.clone(),
            TransferError::Upload(d) => d.clone(),
            TransferError::Read(d) => d.clone(),
            TransferError::Write(d) => d.clone(),
            TransferError::Finish(d) => d.clone(),
        }
    }
}

/// The name of a picked file as the Android document provider reports it:
/// the reported name, unless it is missing or empty.
pub fn display_name_from_reply(name: Option<String>) -> (r: Result<String, String>)
    ensures
        match name {
            Some(n) => if n@.len() > 0 {
                r == Ok::<String, String>(n)
            } else {
                r matches Err(e) && e@ == NO_DISPLAY_NAME@
            },
            None => r matches Err(e) && e@ == NO_DISPLAY_NAME@,
        },
{
    match name {
        Some(n) => {
            if n.as_str().is_empty() {
                Err(NO_DISPLAY_NAME.to_string())
            } else {
                Ok(n)
            }
        },
        None => Err(NO_DISPLAY_NAME.to_string()),
    }
}

/// The text after the last `/` of a path (all of it when it has no `/`).
pub open spec fn last_segment(path: Seq<char>) -> Seq<char>
    decreases path.len(),
{
    if path.len() == 0 || path.last() == '/' {
        seq![]
    } else {
        last_segment(path.drop_last()).push(path.last())
    }
}

/// Whether `name` is an ordinary file name on every platform: not empty, no
/// separator (`/`, `\`), no drive marker (`:`), and neither `.` nor `..`.
pub open spec fn is_plain_file_name(name: Seq<char>) -> bool {
    &&& name.len() > 0
    &&& !name.contains('/')
    &&& !name.contains('\\')
    &&& !name.contains(':')
    &&& name != seq!['.']
    &&& name != seq!['.', '.']
}

/// Whether a path has no platform prefix: no `\` at all (so `/` is its only
/// separator everywhere) and it does not start with `//` (which some platforms
/// read as a network share).
pub open spec fn has_no_prefix(path: Seq<char>) -> bool {
    &&& !path.contains('\\')
    &&& !(path.len() >= 2 && path[0] == '/' && path[1] == '/')
}

/// Whether `c` separates path components on some platform: `/` everywhere,
/// `\` on Windows as well.
pub open spec fn is_any_separator(c: char) -> bool {
    c == '/' || c == '\\'
}

/// The text after the last `/` or `\` of a path (all of it when it has
/// neither).
pub open spec fn last_segment_any(path: Seq<char>) -> Seq<char>
    decreases path.len(),
{
    if path.len() == 0 || is_any_separator(path.last()) {
        seq![]
    } else {
        last_segment_any(path.drop_last()).push(path.last())
    }
}

/// Whether a path starts with two separators, which some platforms read as a
/// network share or a device prefix.
pub open spec fn starts_with_two_separators(path: Seq<char>) -> bool {
    path.len() >= 2 && is_any_separator(path[0]) && is_any_separator(path[1])
}

/// A path without what every platform ignores at its end: trailing `/`
/// separators and trailing `/.` components.
pub open spec fn without_trailing(path: Seq<char>) -> Seq<char>
    decreases path.len(),
{
    if path.len() > 0 && path.last() == '/' {
        without_trailing(path.drop_last())
    } else if path.len() >= 2 && path.last() == '.' && path[path.len() - 2] == '/' {
        without_trailing(path.take(path.len() - 2))
    } else {
        path
    }
}

/// Whether `name` is the final component that some platform gives for
/// `path`, when the path ends in an ordinary name: the text after its last `/`
/// (where only `/` separates), or after its last `/` or `\` (where both do),
/// once trailing `/` and `/.` are set aside.
pub open spec fn is_final_name_of(path: Seq<char>, name: Seq<char>) -> bool {
    name == last_segment(without_trailing(path)) || name == last_segment_any(without_trailing(path))
}

/// Whether a path ends in an ordinary name on every platform: it does not
/// start with two separators, and once trailing `/` and `/.` are set aside,
/// its text after the last `/` or `\` is an ordinary file name.
pub open spec fn ends_in_plain_name(path: Seq<char>) -> bool {
    !starts_with_two_separators(path) && is_plain_file_name(last_segment_any(without_trailing(path)))
}

/// Whether a path is made only of `/` separators (a root).
pub open spec fn is_root(path: Seq<char>) -> bool {
    path.len() > 0 && forall|i: int| 0 <= i < path.len() ==> #[trigger] path[i] == '/'
}

/// The final component of a path, rendered lossily as text, or `None` when
/// the path has none (it is empty, a root, or ends in `..`).
///
/// Trusted: `std::path::Path::file_name`, with the component rendered by
/// `OsStr::to_string_lossy`. Its documentation gives the final component of
/// the path, ignoring trailing separators and `.` components, and `None` for
/// a root and for a path that terminates in `..` (`tmp/foo.txt` gives
/// `foo.txt`, `foo.txt/.//` gives `foo.txt`, `foo.txt/..` and `/` give
/// nothing); the separators are `/` everywhere and `\` on Windows as well.
/// The contract states:
/// - for a path that ends in an ordinary name (and does not start with two
///   separators, which Windows reads as a prefix), that name: the text after
///   the last `/`, or after the last `/` or `\`, depending on the platform;
/// - for a path with no `\` and no leading `//`, exactly the text after the
///   last `/` when it is an ordinary name, and nothing when it is `..`;
/// - nothing for a root, and never an empty name.
/// What other paths give (ending in `\`, `..` after a `\`, or with a
/// prefix) is not stated.
#[verifier::external_body]
pub fn path_file_name(path: &str) -> (r: Option<String>)
    ensures
        ends_in_plain_name(path@) ==> r.is_some() && is_final_name_of(path@, r.unwrap()@),
        has_no_prefix(path@) && is_plain_file_name(last_segment(path@)) ==> r.is_some() && r.unwrap()@
            == last_segment(path@),
        has_no_prefix(path@) && last_segment(path@) == seq!['.', '.'] ==> r == None::<String>,
        is_root(path@) ==> r == None::<String>,
        r matches Some(name) ==> name@.len() > 0,
{
    std::path::Path::new(path).file_name().map(|name| name.to_string_lossy().into_owned())
}

/// The name under which a file is uploaded, given its path's file name.
pub fn upload_name(file_name: Option<String>) -> (r: Result<String, TransferError>)
    ensures
        match file_name {
            Some(n) => r == Ok::<String, TransferError>(n),
            None => r == Err::<String, TransferError>(TransferError::MissingFileName),
        },
{
    match file_name {
        Some(n) => Ok(n),
        None => Err(TransferError::MissingFileName),
    }
}

/// The name under which the file at `file_path` is uploaded from a desktop
/// platform: the path's file name. For a path that ends in an ordinary name
/// (trailing `/` and `/.` set aside) it is that name, as the platform's
/// separators cut it (`/`, and also `\` on Windows); for a path without `\`
/// or leading `//` it is exactly the text after the last `/`. There is none
/// when the path ends in `..` or is a root. A name given is never empty.
pub fn desktop_upload_name(file_path: &str) -> (r: Result<String, TransferError>)
    ensures
        ends_in_plain_name(file_path@) ==> (r matches Ok(name) && is_final_name_of(file_path@, name@)),
        has_no_prefix(file_path@) && is_plain_file_name(last_segment(file_path@)) ==> (r matches Ok(
            name,
        ) && name@ == last_segment(file_path@)),
        has_no_prefix(file_path@) && last_segment(file_path@) == seq!['.', '.'] ==> (r matches Err(e)
            && e is MissingFileName),
        is_root(file_path@) ==> (r matches Err(e) && e is MissingFileName),
        r matches Ok(name) ==> name@.len() > 0,
        r matches Err(e) ==> e is MissingFileName,
{
    upload_name(path_file_name(file_path))
}

/// How far a file upload has come.
pub struct TransferProgress {
    /// The size of the file, as its metadata reported it.
    pub total_bytes: u64,
    /// The bytes sent so far.
    pub sent_bytes: u64,
}

/// What to do after a read from the file.
pub enum TransferStep {
    /// The file is exhausted: close the upload.
    Finished,
    /// Send the first `len` bytes of the buffer, then report progress.
    Forward(usize),
}

impl TransferProgress {
    /// The progress after a read of `read` bytes: unchanged at the end of
    /// the file, otherwise `read` more bytes sent.
    pub open spec fn after_read(self, read: nat) -> TransferProgress {
        if read == 0 {
            self
        } else {
            TransferProgress { total_bytes: self.total_bytes, sent_bytes: (self.sent_bytes + read) as u64 }
        }
    }

    /// The progress after the reads `reads`, one after the other.
    pub open spec fn after_reads(self, reads: Seq<nat>) -> TransferProgress
        decreases reads.len(),
    {
        if reads.len() == 0 {
            self
        } else {
            self.after_read(reads[0]).after_reads(reads.drop_first())
        }
    }

    /// The progress of an upload of a file of `total_bytes` bytes that has not started.
    pub fn start(total_bytes: u64) -> (p: TransferProgress)
        ensures
            p.total_bytes == total_bytes,
            p.sent_bytes == 0,
    {
        TransferProgress { total_bytes, sent_bytes: 0 }
    }

    /// Accounts for a read of `read` bytes from the file and says what to do:
    /// a read of nothing ends the upload, any other is forwarded.
    pub fn on_read(&mut self, read: usize) -> (r: TransferStep)
        requires
            old(self).sent_bytes + read <= u64::MAX,
        ensures
            *final(self) == old(self).after_read(read as nat),
            r == if read == 0 {
                TransferStep::Finished
            } else {
                TransferStep::Forward(read)
            },
    {
        if read == 0 {
            TransferStep::Finished
        } else {
            self.sent_bytes = self.sent_bytes + read as u64;
            TransferStep::Forward(read)
        }
    }
}

/// The sum of a sequence of byte counts.
pub open spec fn total_read(reads: Seq<nat>) -> nat
    decreases reads.len(),
{
    if reads.len() == 0 {
        0
    } else {
        reads[0] + total_read(reads.drop_first())
    }
}

/// The bytes counted as sent are those of all the reads, and the file size
/// stays as it was read, whatever the reads.
pub proof fn lemma_sent_bytes_add_up(p: TransferProgress, reads: Seq<nat>)
    requires
        p.sent_bytes + total_read(reads) <= u64::MAX,
    ensures
        p.after_reads(reads).sent_bytes == p.sent_bytes + total_read(reads),
        p.after_reads(reads).total_bytes == p.total_bytes,
    decreases reads.len(),
{
    if reads.len() > 0 {
        let next = p.after_read(reads[0]);
        lemma_sent_bytes_add_up(next, reads.drop_first());
    }
}

/// A step of sending a file, in the order the steps are taken.
#[derive(Clone, Copy)]
pub enum UploadStep {
    /// Connect to the server.
    Connect,
    /// Log in anonymously.
    Login,
    /// Open the file.
    Open,
    /// Read the file's size.
    Measure,
    /// Find the name the file is uploaded under.
    Name,
    /// Open the upload on the server.
    StartUpload,
    /// Read the next chunk of the file.
    Read,
    /// Write the first `len` bytes of the chunk to the server.
    Write(usize),
    /// Close the upload.
    Finish,
}

/// How a step turned out.
pub enum StepOutcome {
    /// The step succeeded.
    Done,
    /// The size of the file was read.
    SizeRead(u64),
    /// A chunk of this many bytes was read (none at the end of the file).
    BytesRead(usize),
    /// The step failed with this detail.
    Failed(String),
    /// The file's name could not be found, for this reason.
    Refused(TransferError),
}

/// What to do next.
pub enum UploadAction {
    /// Take this step.
    Perform(UploadStep),
    /// The file was sent.
    Completed,
    /// Sending stopped with this error.
    Aborted(TransferError),
}

/// The error of a step that failed with `detail`.
pub open spec fn step_error(step: UploadStep, detail: String) -> TransferError {
    match step {
        UploadStep::Connect => TransferError::Connect(detail),
        UploadStep::Login => TransferError::Login(detail),
        UploadStep::Open => TransferError::Open(detail),
        UploadStep::Measure => TransferError::Metadata(detail),
        UploadStep::Name => TransferError::DisplayName(detail),
        UploadStep::StartUpload => TransferError::Upload(detail),
        UploadStep::Read => TransferError::Read(detail),
        UploadStep::Write(_) => TransferError::Write(detail),
        UploadStep::Finish => TransferError::Finish(detail),
    }
}

/// Whether a step can turn out as `outcome`: any step can fail; reading the
/// size gives a size, reading a chunk gives a count of bytes (which must not
/// overflow the bytes sent), finding the name may be refused, and every other
/// step is simply done.
pub open spec fn outcome_fits(step: UploadStep, outcome: StepOutcome, progress: TransferProgress) -> bool {
    match outcome {
        StepOutcome::Failed(_) => true,
        StepOutcome::Refused(_) => step is Name,
        StepOutcome::SizeRead(_) => step is Measure,
        StepOutcome::BytesRead(n) => step is Read && progress.sent_bytes + n <= u64::MAX,
        StepOutcome::Done => !(step is Measure) && !(step is Read),
    }
}

/// The step after `step` succeeded plainly.
pub open spec fn step_after(step: UploadStep) -> Option<UploadStep> {
    match step {
        UploadStep::Connect => Some(UploadStep::Login),
        UploadStep::Login => Some(UploadStep::Open),
        UploadStep::Open => Some(UploadStep::Measure),
        UploadStep::Measure => Some(UploadStep::Name),
        UploadStep::Name => Some(UploadStep::StartUpload),
        UploadStep::StartUpload => Some(UploadStep::Read),
        UploadStep::Read => Some(UploadStep::Finish),
        UploadStep::Write(_) => Some(UploadStep::Read),
        UploadStep::Finish => None,
    }
}

/// Where a step with `outcome` leads: the next step (none once sending has
/// ended), the progress, and the action. A failure ends sending with the
/// failing step's error; the size read starts the progress; a chunk read is
/// counted and written, and an empty one closes the upload; closing the
/// upload completes it; every other step leads to the one after it.
pub open spec fn upload_transition(step: UploadStep, outcome: StepOutcome, progress: TransferProgress) -> (
    Option<UploadStep>,
    TransferProgress,
    UploadAction,
) {
    match outcome {
        StepOutcome::Failed(detail) => (None, progress, UploadAction::Aborted(step_error(step, detail))),
        StepOutcome::Refused(e) => (None, progress, UploadAction::Aborted(e)),
        StepOutcome::SizeRead(size) => (
            Some(UploadStep::Name),
            TransferProgress { total_bytes: size, sent_bytes: 0 },
            UploadAction::Perform(UploadStep::Name),
        ),
        StepOutcome::BytesRead(n) => if n == 0 {
            (Some(UploadStep::Finish), progress, UploadAction::Perform(UploadStep::Finish))
        } else {
            (Some(UploadStep::Write(n)), progress.after_read(n as nat), UploadAction::Perform(UploadStep::Write(n)))
        },
        StepOutcome::Done => match step_after(step) {
            Some(next) => (Some(next), progress, UploadAction::Perform(next)),
            None => (None, progress, UploadAction::Completed),
        },
    }
}

/// The sending of one file, step by step: the step under way (none once
/// sending has ended) and the progress.
pub struct Upload {
    step: Option<UploadStep>,
    progress: TransferProgress,
}

impl Upload {
    /// The step under way, or none once sending has ended.
    pub closed spec fn step_view(self) -> Option<UploadStep> {
        self.step
    }

    /// The progress of the upload.
    pub closed spec fn progress_view(self) -> TransferProgress {
        self.progress
    }

    /// Whether the step under way can turn out as `outcome`; nothing is
    /// expected once sending has ended.
    pub open spec fn expects(self, outcome: StepOutcome) -> bool {
        match self.step_view() {
            Some(step) => outcome_fits(step, outcome, self.progress_view()),
            None => false,
        }
    }

    /// A new upload, whose first step is to connect.
    pub fn new() -> (u: Upload)
        ensures
            u.step_view() == Some(UploadStep::Connect),
            u.progress_view() == (TransferProgress { total_bytes: 0, sent_bytes: 0 }),
    {
        Upload { step: Some(UploadStep::Connect), progress: TransferProgress { total_bytes: 0, sent_bytes: 0 } }
    }

    /// Whether the step under way can turn out as `outcome`.
    pub fn accepts(&self, outcome: &StepOutcome) -> (r: bool)
        ensures
            r == self.expects(*outcome),
    {
        match &self.step {
            None => false,
            Some(step) => match outcome {
                StepOutcome::Failed(_) => true,
                StepOutcome::Refused(_) => matches!(step, UploadStep::Name),
                StepOutcome::SizeRead(_) => matches!(step, UploadStep::Measure),
                StepOutcome::BytesRead(n) => matches!(step, UploadStep::Read) && *n as u64 <= u64::MAX
                    - self.progress.sent_bytes,
                StepOutcome::Done => !matches!(step, UploadStep::Measure) && !matches!(step, UploadStep::Read),
            },
        }
    }

    /// The size of the file, once read.
    pub fn total_bytes(&self) -> (r: u64)
        ensures
            r == self.progress_view().total_bytes,
    {
        self.progress.total_bytes
    }

    /// The bytes sent so far.
    pub fn sent_bytes(&self) -> (r: u64)
        ensures
            r == self.progress_view().sent_bytes,
    {
        self.progress.sent_bytes
    }

    /// Takes in how the step under way turned out and says what to do next.
    pub fn advance(&mut self, outcome: StepOutcome) -> (a: UploadAction)
        requires
            old(self).expects(outcome),
        ensures
            (final(self).step_view(), final(self).progress_view(), a) == upload_transition(
                old(self).step_view()->0,
                outcome,
                old(self).progress_view(),
            ),
            forall|n: usize|
                outcome == StepOutcome::BytesRead(n) && n > 0 ==> {
                    &&& a == UploadAction::Perform(UploadStep::Write(n))
                    &&& final(self).step_view() == Some(UploadStep::Write(n))
                    &&& final(self).progress_view().sent_bytes == old(self).progress_view().sent_bytes + n
                },
    {
        proof {
            assert forall|n: usize| outcome == StepOutcome::BytesRead(n) && n > 0 implies
                #[trigger] upload_transition(old(self).step_view()->0, outcome, old(self).progress_view())
                    == (Some(UploadStep::Write(n)), TransferProgress {
                        total_bytes: old(self).progress_view().total_bytes,
                        sent_bytes: (old(self).progress_view().sent_bytes + n) as u64,
                    }, UploadAction::Perform(UploadStep::Write(n))) by {
                lemma_chunk_read_is_written_whole(old(self).step_view()->0, n, old(self).progress_view());
            }
        }
        let step = match self.step.take() {
            Some(step) => step,
            None => {
                return UploadAction::Completed;
            },
        };
        match outcome {
            StepOutcome::Failed(detail) => {
                self.step = None;
                UploadAction::Aborted(
                    match step {
                        UploadStep::Connect => TransferError::Connect(detail),
                        UploadStep::Login => TransferError::Login(detail),
                        UploadStep::Open => TransferError::Open(detail),
                        UploadStep::Measure => TransferError::Metadata(detail),
                        UploadStep::Name => TransferError::DisplayName(detail),
                        UploadStep::StartUpload => TransferError::Upload(detail),
                        UploadStep::Read => TransferError::Read(detail),
                        UploadStep::Write(_) => TransferError::Write(detail),
                        UploadStep::Finish => TransferError::Finish(detail),
                    },
                )
            },
            StepOutcome::Refused(e) => {
                self.step = None;
                UploadAction::Aborted(e)
            },
            StepOutcome::SizeRead(size) => {
                self.progress = TransferProgress::start(size);
                self.step = Some(UploadStep::Name);
                UploadAction::Perform(UploadStep::Name)
            },
            StepOutcome::BytesRead(n) => {
                match self.progress.on_read(n) {
                    TransferStep::Finished => {
                        self.step = Some(UploadStep::Finish);
                        UploadAction::Perform(UploadStep::Finish)
                    },
                    TransferStep::Forward(len) => {
                        self.step = Some(UploadStep::Write(len));
                        UploadAction::Perform(UploadStep::Write(len))
                    },
                }
            },
            StepOutcome::Done => {
                let next = match step {
                    UploadStep::Connect => Some(UploadStep::Login),
                    UploadStep::Login => Some(UploadStep::Open),
                    UploadStep::Open => Some(UploadStep::Measure),
                    UploadStep::Measure => Some(UploadStep::Name),
                    UploadStep::Name => Some(UploadStep::StartUpload),
                    UploadStep::StartUpload => Some(UploadStep::Read),
                    UploadStep::Read => Some(UploadStep::Finish),
                    UploadStep::Write(_) => Some(UploadStep::Read),
                    UploadStep::Finish => None,
                };
                match next {
                    Some(next) => {
                        self.step = Some(next);
                        UploadAction::Perform(next)
                    },
                    None => UploadAction::Completed,
                }
            },
        }
    }
}

/// Sending ends exactly when the action is to stop: after a completion or an
/// error nothing more is expected, so nothing is read, written or sent after
/// a failure; and while sending goes on, the step taken next is the one the
/// action names.
pub proof fn lemma_upload_ends_on_completion_or_error(step: UploadStep, outcome: StepOutcome, progress: TransferProgress)
    ensures
        ({
            let (next, _, action) = upload_transition(step, outcome, progress);
            &&& next is None <==> (action is Completed || action is Aborted)
            &&& action matches UploadAction::Perform(s) ==> next == Some(s)
        }),
{
}

/// A chunk read is written whole: after a read of `n > 0` bytes, the next
/// step writes exactly those `n` bytes, and exactly `n` more bytes count as
/// sent; so over an upload the bytes written add up to the bytes read.
pub proof fn lemma_chunk_read_is_written_whole(step: UploadStep, n: usize, progress: TransferProgress)
    requires
        n > 0,
    ensures
        upload_transition(step, StepOutcome::BytesRead(n), progress) == (
            Some(UploadStep::Write(n)),
            TransferProgress {
                total_bytes: progress.total_bytes,
                sent_bytes: (progress.sent_bytes + n) as u64,
            },
            UploadAction::Perform(UploadStep::Write(n)),
        ),
{
}

/// The steps come in their order: connecting, logging in and opening the
/// file each lead, once done, to the next; reading the size of `size` bytes
/// starts the count at none of them sent and leads to finding the name, which
/// leads to opening the upload and then to reading the first chunk. After a
/// chunk is written the next one is read, an empty read closes the upload,
/// and closing it completes the sending. The count of bytes is otherwise kept.
pub proof fn lemma_upload_steps_in_order(progress: TransferProgress, size: u64, n: usize)
    ensures
        upload_transition(UploadStep::Connect, StepOutcome::Done, progress)
            == (Some(UploadStep::Login), progress, UploadAction::Perform(UploadStep::Login)),
        upload_transition(UploadStep::Login, StepOutcome::Done, progress)
            == (Some(UploadStep::Open), progress, UploadAction::Perform(UploadStep::Open)),
        upload_transition(UploadStep::Open, StepOutcome::Done, progress)
            == (Some(UploadStep::Measure), progress, UploadAction::Perform(UploadStep::Measure)),
        upload_transition(UploadStep::Measure, StepOutcome::SizeRead(size), progress) == (
            Some(UploadStep::Name),
            TransferProgress { total_bytes: size, sent_bytes: 0 },
            UploadAction::Perform(UploadStep::Name),
        ),
        upload_transition(UploadStep::Name, StepOutcome::Done, progress)
            == (Some(UploadStep::StartUpload), progress, UploadAction::Perform(UploadStep::StartUpload)),
        upload_transition(UploadStep::StartUpload, StepOutcome::Done, progress)
            == (Some(UploadStep::Read), progress, UploadAction::Perform(UploadStep::Read)),
        upload_transition(UploadStep::Write(n), StepOutcome::Done, progress)
            == (Some(UploadStep::Read), progress, UploadAction::Perform(UploadStep::Read)),
        upload_transition(UploadStep::Read, StepOutcome::BytesRead(0), progress)
            == (Some(UploadStep::Finish), progress, UploadAction::Perform(UploadStep::Finish)),
        upload_transition(UploadStep::Finish, StepOutcome::Done, progress)
            == (None::<UploadStep>, progress, UploadAction::Completed),
{
}

/// The first failure decides the error: a step that fails ends sending with
/// that step's own error, and the bytes counted stay as they were.
pub proof fn lemma_failure_reports_its_step(step: UploadStep, detail: String, progress: TransferProgress)
    ensures
        upload_transition(step, StepOutcome::Failed(detail), progress)
            == (None::<UploadStep>, progress, UploadAction::Aborted(step_error(step, detail))),
{
}

/// Once sending has ended, no outcome is expected.
pub proof fn lemma_ended_upload_expects_nothing(u: Upload, outcome: StepOutcome)
    requires
        u.step_view() is None,
    ensures
        !u.expects(outcome),
{
}

} // verus!
