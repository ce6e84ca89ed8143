//! The over-the-air firmware update state machine.
//!
//! One update attempt moves through `Idle`, `CredentialResolution`
//! (resolving the download URL and opening the HTTP response),
//! `Downloading` (streaming fixed-size chunks into the inactive flash
//! slot), `Validating`, `Committing` and `Restarting`, with `Aborted`
//! as the terminal failure state.  The machine itself performs no I/O:
//! the surrounding task feeds it the HTTP response metadata, the size
//! of each chunk read, the firmware metadata parsed out of the first
//! sufficiently large chunk, and the outcome of each flash operation,
//! and performs the actions the machine hands back.
//!
//! Two guarantees are pinned down here: an image is only committed when
//! the number of streamed bytes equals the declared `Content-Length`
//! exactly, and an image whose version equals the version recorded in
//! the last-invalid slot is rejected before any of its bytes reach the
//! flash beyond the already validated chunk.

use vstd::prelude::*;

use crate::summary::FirmwareInfo;

verus! {

/// Size in bytes of one download chunk and the least acceptable
/// `Content-Length`.
pub const OTA_CHUNK_SIZE: usize = 1024;

/// Bytes of image header, segment header and embedded app descriptor
/// that must be present before firmware metadata can be parsed out of a
/// chunk.
pub const IMAGE_METADATA_SIZE: usize = 288;

/// Grace period in seconds between the update-started broadcast and
/// the download, letting dependent tasks finish in-flight work.
pub const OTA_SHUTDOWN_GRACE_SECS: u64 = 2;

/// Fixed delay in milliseconds before the unconditional restart that
/// ends every attempt, successful or not.
pub const OTA_RESTART_DELAY_MS: u32 = 5000;

/// The failure taxonomy of one update attempt.
#[derive(Clone, Copy, Debug, PartialEq, Eq, Structural)]
pub enum OtaError {
    /// The server did not hand out the image: bad status, or a missing
    /// or implausibly small `Content-Length`.
    FwImageNotFound,
    /// The downloaded image carries the version recorded in the
    /// last-invalid slot.
    FwSameAsInvalidFw,
    /// The downloaded image carries the version that is already
    /// flashed.
    VersionAlreadyFlashed,
    /// A flash write failed while streaming.
    FlashFailed,
    /// The streamed byte count does not match the declared length.
    ImageLoadIncomplete,
    /// The HTTP transport failed.
    HttpError,
    /// The flash update API refused an operation.
    OtaApiError,
}

/// The fixed description of each failure kind.
pub open spec fn spec_ota_error_text(e: OtaError) -> Seq<char> {
    match e {
        OtaError::FwImageNotFound => "Firmware not found on server or unexcpected server response error"@,
        OtaError::FwSameAsInvalidFw => "New firmware same as invalid marked firmware"@,
        OtaError::VersionAlreadyFlashed => "Firmware with same version already flashed"@,
        OtaError::HttpError => "Calling Http client API error"@,
        OtaError::OtaApiError => "Calling OTA API error"@,
        OtaError::FlashFailed => "Failed to write FW data to flash"@,
        OtaError::ImageLoadIncomplete => "Failed to download complete FW image"@,
    }
}

impl OtaError {
    /// The description of this failure, as it appears in logs.
    pub fn describe(&self) -> (r: String)
        ensures
            r@ == spec_ota_error_text(*self),
    {
        match self {
            OtaError::FwImageNotFound => "Firmware not found on server or unexcpected server response error".to_string(),
            OtaError::FwSameAsInvalidFw => "New firmware same as invalid marked firmware".to_string(),
            OtaError::VersionAlreadyFlashed => "Firmware with same version already flashed".to_string(),
            OtaError::HttpError => "Calling Http client API error".to_string(),
            OtaError::OtaApiError => "Calling OTA API error".to_string(),
            OtaError::FlashFailed => "Failed to write FW data to flash".to_string(),
            OtaError::ImageLoadIncomplete => "Failed to download complete FW image".to_string(),
        }
    }
}

/// The phases of one update attempt.
#[derive(Clone, Copy, Debug, PartialEq, Eq, Structural)]
pub enum OtaState {
    /// No update in progress.
    Idle,
    /// Resolving the download URL and opening the HTTP response.
    CredentialResolution,
    /// Streaming chunks into the inactive slot.
    Downloading,
    /// All chunks received; the byte count is about to be checked.
    Validating,
    /// Byte count matched; the slot is being finalized.
    Committing,
    /// The attempt has concluded successfully; the device restarts.
    Restarting,
    /// The attempt failed; the slot is not bootable.
    Aborted,
}

/// Status and `Content-Length` of the opened firmware download
/// response.
pub struct HttpResponseInfo {
    pub status: u16,
    pub content_length: Option<usize>,
}

/// The outcome of parsing firmware metadata out of the first
/// sufficiently large chunk.
pub enum HeaderLoad {
    /// Metadata parsed completely.
    Loaded(FirmwareInfo),
    /// The chunk did not hold complete metadata.
    Incomplete,
    /// The loader refused the data.
    Failed,
}

/// What the task must do with the chunk it just read.
#[derive(Clone, Copy, Debug, PartialEq, Eq, Structural)]
pub enum OtaChunkStep {
    /// Write the chunk to the inactive slot, then report the outcome.
    Write,
    /// The stream is exhausted; proceed to validation.
    Finish,
    /// The attempt is aborted; do not write.
    Fail,
}

/// What the task must do to conclude the attempt.
#[derive(Clone, Copy, Debug, PartialEq, Eq, Structural)]
pub enum OtaFinishAction {
    /// Mark the inactive slot bootable.
    Commit,
    /// Abort the write session; the slot stays invalid.
    Abort,
}

/// One over-the-air update attempt.
pub struct OtaUpdater {
    state: OtaState,
    error: Option<OtaError>,
    content_length: usize,
    bytes_total: usize,
    flash_written: usize,
    pending_write: usize,
    header_checked: bool,
    last_chunk_seen: bool,
    invalid_fw_version: Option<String>,
}

impl OtaUpdater {
    /// The current phase.
    pub closed spec fn state(&self) -> OtaState {
        self.state
    }

    /// The failure recorded for an aborted attempt.
    pub closed spec fn error(&self) -> Option<OtaError> {
        self.error
    }

    /// The `Content-Length` the server declared.
    pub closed spec fn declared_length(&self) -> int {
        self.content_length as int
    }

    /// Bytes of the image received so far.
    pub closed spec fn bytes_received(&self) -> int {
        self.bytes_total as int
    }

    /// Bytes already written to the inactive flash slot.
    pub closed spec fn flash_written(&self) -> int {
        self.flash_written as int
    }

    /// Bytes handed to the flash writer whose outcome is still pending.
    pub closed spec fn pending_write(&self) -> int {
        self.pending_write as int
    }

    /// Whether firmware metadata has been parsed and checked.
    pub closed spec fn header_checked(&self) -> bool {
        self.header_checked
    }

    /// Whether a short read announced the end of the stream.
    pub closed spec fn last_chunk_seen(&self) -> bool {
        self.last_chunk_seen
    }

    /// The version recorded in the last-invalid slot, if any.
    pub closed spec fn invalid_version(&self) -> Option<Seq<char>> {
        match self.invalid_fw_version {
            Some(v) => Some(v@),
            None => None,
        }
    }

    /// Machine invariant.  In particular: the `Committing` and
    /// `Restarting` phases are only reachable when the received byte
    /// count equals the declared length exactly, and bytes only reach
    /// the flash after having been received.
    pub closed spec fn wf(&self) -> bool {
        &&& (self.state is Aborted <==> self.error is Some)
        &&& (self.state is Committing ==> self.bytes_total == self.content_length)
        &&& (self.state is Restarting ==> self.bytes_total == self.content_length)
        &&& (self.pending_write > 0 ==> self.state is Downloading)
        &&& self.flash_written + self.pending_write <= self.bytes_total
        &&& ((self.state is Idle || self.state is CredentialResolution) ==> self.bytes_total == 0
            && self.flash_written == 0 && self.pending_write == 0 && !self.header_checked)
        &&& ((self.state is Downloading || self.state is Validating || self.state is Committing
            || self.state is Restarting) ==> self.content_length >= OTA_CHUNK_SIZE)
    }

    /// A fresh attempt in `Idle`, remembering the version string of the
    /// last-invalid slot if the partition table records one.
    pub fn new(invalid_fw_version: Option<String>) -> (r: Self)
        ensures
            r.wf(),
            r.state() is Idle,
            r.invalid_version() == match invalid_fw_version {
                Some(v) => Some(v@),
                None => None::<Seq<char>>,
            },
            r.bytes_received() == 0,
            r.flash_written() == 0,
            !r.header_checked(),
    {
        OtaUpdater {
            state: OtaState::Idle,
            error: None,
            content_length: 0,
            bytes_total: 0,
            flash_written: 0,
            pending_write: 0,
            header_checked: false,
            last_chunk_seen: false,
            invalid_fw_version,
        }
    }

    /// An update request arrived: enter `CredentialResolution`.  The
    /// surrounding task broadcasts the update-started event and waits
    /// the grace period before resolving the URL.
    pub fn request_update(&mut self)
        requires
            old(self).wf(),
            old(self).state() is Idle,
        ensures
            final(self).wf(),
            final(self).state() is CredentialResolution,
            final(self).invalid_version() == old(self).invalid_version(),
            final(self).bytes_received() == 0,
            final(self).flash_written() == 0,
    {
        self.state = OtaState::CredentialResolution;
    }

    /// The download URL was resolved and the HTTP response opened: judge
    /// it.  `None` stands for a transport failure before any response
    /// arrived.  The download only proceeds on status 200 with a
    /// declared `Content-Length` of at least one chunk; otherwise the
    /// attempt aborts with the specific failure.
    pub fn on_response(&mut self, response: Option<&HttpResponseInfo>) -> (r: Result<
        (),
        OtaError,
    >)
        requires
            old(self).wf(),
            old(self).state() is CredentialResolution,
        ensures
            final(self).wf(),
            final(self).invalid_version() == old(self).invalid_version(),
            final(self).flash_written() == 0,
            final(self).bytes_received() == 0,
            final(self).pending_write() == 0,
            !final(self).header_checked(),
            match response {
                None => r == Err::<(), OtaError>(OtaError::HttpError),
                Some(info) => {
                    if info.status != 200 {
                        r == Err::<(), OtaError>(OtaError::FwImageNotFound)
                    } else {
                        match info.content_length {
                            None => r == Err::<(), OtaError>(OtaError::FwImageNotFound),
                            Some(len) => {
                                if len < OTA_CHUNK_SIZE {
                                    r == Err::<(), OtaError>(OtaError::FwImageNotFound)
                                } else {
                                    r == Ok::<(), OtaError>(()) && final(self).declared_length()
                                        == len
                                }
                            },
                        }
                    }
                },
            },
            r matches Ok(_) ==> final(self).state() is Downloading,
            r matches Err(e) ==> final(self).state() is Aborted && final(self).error() == Some(e),
    {
        match response {
            None => {
                self.state = OtaState::Aborted;
                self.error = Some(OtaError::HttpError);
                Err(OtaError::HttpError)
            },
            Some(info) => {
                if info.status != 200 {
                    self.state = OtaState::Aborted;
                    self.error = Some(OtaError::FwImageNotFound);
                    Err(OtaError::FwImageNotFound)
                } else {
                    match info.content_length {
                        None => {
                            self.state = OtaState::Aborted;
                            self.error = Some(OtaError::FwImageNotFound);
                            Err(OtaError::FwImageNotFound)
                        },
                        Some(len) => {
                            if len < OTA_CHUNK_SIZE {
                                self.state = OtaState::Aborted;
                                self.error = Some(OtaError::FwImageNotFound);
                                Err(OtaError::FwImageNotFound)
                            } else {
                                self.content_length = len;
                                self.state = OtaState::Downloading;
                                Ok(())
                            }
                        },
                    }
                }
            },
        }
    }

    /// Whether the chunk just read must have firmware metadata parsed
    /// out of it: the first chunk large enough to contain the image
    /// header, one segment header and the embedded app descriptor.
    pub fn header_check_needed(&self, data_read: usize) -> (r: bool)
        requires
            self.wf(),
            self.state() is Downloading,
        ensures
            r == (!self.header_checked() && data_read > IMAGE_METADATA_SIZE),
    {
        !self.header_checked && data_read > IMAGE_METADATA_SIZE
    }

    /// Judge one chunk of `data_read` bytes.  When this is the chunk
    /// carrying the metadata, `header` holds the loader's outcome: a
    /// loader failure aborts the attempt, and so does a version equal
    /// to the one recorded in the last-invalid slot — in both cases
    /// before this chunk or any later byte reaches the flash.
    /// Otherwise the chunk is counted and, unless the stream is
    /// exhausted, handed to the flash writer.
    pub fn on_chunk(&mut self, data_read: usize, header: Option<&HeaderLoad>) -> (r: OtaChunkStep)
        requires
            old(self).wf(),
            old(self).state() is Downloading,
            old(self).pending_write() == 0,
            data_read <= OTA_CHUNK_SIZE,
            old(self).bytes_received() + data_read <= usize::MAX,
            header is Some <==> (!old(self).header_checked() && data_read > IMAGE_METADATA_SIZE),
        ensures
            final(self).wf(),
            final(self).invalid_version() == old(self).invalid_version(),
            match header {
                Some(HeaderLoad::Loaded(info)) => {
                    if old(self).invalid_version() matches Some(v) && info.version@ == v {
                        &&& r == OtaChunkStep::Fail
                        &&& final(self).state() is Aborted
                        &&& final(self).error() == Some(OtaError::FwSameAsInvalidFw)
                        &&& final(self).flash_written() == old(self).flash_written()
                        &&& final(self).bytes_received() == old(self).bytes_received()
                    } else {
                        final(self).header_checked() && final(self).chunk_accepted(
                            *old(self),
                            data_read as int,
                            r,
                        )
                    }
                },
                Some(HeaderLoad::Incomplete) | Some(HeaderLoad::Failed) => {
                    &&& r == OtaChunkStep::Fail
                    &&& final(self).state() is Aborted
                    &&& final(self).error() == Some(OtaError::OtaApiError)
                    &&& final(self).flash_written() == old(self).flash_written()
                    &&& final(self).bytes_received() == old(self).bytes_received()
                },
                None => {
                    final(self).header_checked() == old(self).header_checked()
                        && final(self).chunk_accepted(*old(self), data_read as int, r)
                },
            },
    {
        if let Some(load) = header {
            match load {
                HeaderLoad::Loaded(info) => {
                    let same_as_invalid = match &self.invalid_fw_version {
                        Some(v) => info.version.eq(v),
                        None => false,
                    };
                    if same_as_invalid {
                        self.state = OtaState::Aborted;
                        self.error = Some(OtaError::FwSameAsInvalidFw);
                        return OtaChunkStep::Fail;
                    }
                    self.header_checked = true;
                },
                _ => {
                    self.state = OtaState::Aborted;
                    self.error = Some(OtaError::OtaApiError);
                    return OtaChunkStep::Fail;
                },
            }
        }
        self.bytes_total = self.bytes_total + data_read;
        if data_read > 0 {
            self.pending_write = data_read;
            self.last_chunk_seen = data_read < OTA_CHUNK_SIZE;
            OtaChunkStep::Write
        } else {
            self.state = OtaState::Validating;
            OtaChunkStep::Finish
        }
    }

    /// What accepting a chunk means: the bytes are counted, and the
    /// chunk is either handed to the flash writer or — when the read
    /// came back empty — the download moves to validation.
    pub open spec fn chunk_accepted(&self, prev: Self, data_read: int, r: OtaChunkStep) -> bool {
        &&& self.declared_length() == prev.declared_length()
        &&& self.bytes_received() == prev.bytes_received() + data_read
        &&& self.flash_written() == prev.flash_written()
        &&& if data_read > 0 {
            &&& r == OtaChunkStep::Write
            &&& self.state() is Downloading
            &&& self.pending_write() == data_read
            &&& self.last_chunk_seen() == (data_read < OTA_CHUNK_SIZE)
        } else {
            &&& r == OtaChunkStep::Finish
            &&& self.state() is Validating
        }
    }

    /// The flash writer reported the outcome of the pending chunk: on
    /// success the bytes count as written and the download goes on —
    /// or, after a short read, moves to validation; on failure the
    /// attempt aborts.
    pub fn on_write_result(&mut self, ok: bool) -> (r: Option<OtaError>)
        requires
            old(self).wf(),
            old(self).state() is Downloading,
            old(self).pending_write() > 0,
        ensures
            final(self).wf(),
            final(self).invalid_version() == old(self).invalid_version(),
            final(self).bytes_received() == old(self).bytes_received(),
            final(self).declared_length() == old(self).declared_length(),
            final(self).header_checked() == old(self).header_checked(),
            if ok {
                &&& r is None
                &&& final(self).flash_written() == old(self).flash_written() + old(
                    self,
                ).pending_write()
                &&& final(self).pending_write() == 0
                &&& final(self).state() == (if old(self).last_chunk_seen() {
                    OtaState::Validating
                } else {
                    OtaState::Downloading
                })
            } else {
                &&& r == Some(OtaError::FlashFailed)
                &&& final(self).state() is Aborted
                &&& final(self).error() == Some(OtaError::FlashFailed)
                &&& final(self).flash_written() == old(self).flash_written()
            },
    {
        if ok {
            self.flash_written = self.flash_written + self.pending_write;
            self.pending_write = 0;
            if self.last_chunk_seen {
                self.state = OtaState::Validating;
            }
            None
        } else {
            self.pending_write = 0;
            self.state = OtaState::Aborted;
            self.error = Some(OtaError::FlashFailed);
            Some(OtaError::FlashFailed)
        }
    }

    /// The stream is exhausted: commit only if the received byte count
    /// equals the declared `Content-Length` exactly; any mismatch —
    /// including a short, interrupted connection — aborts the slot.
    pub fn finalize(&mut self) -> (r: OtaFinishAction)
        requires
            old(self).wf(),
            old(self).state() is Validating,
        ensures
            final(self).wf(),
            final(self).invalid_version() == old(self).invalid_version(),
            final(self).bytes_received() == old(self).bytes_received(),
            final(self).flash_written() == old(self).flash_written(),
            if old(self).bytes_received() == old(self).declared_length() {
                &&& r == OtaFinishAction::Commit
                &&& final(self).state() is Committing
            } else {
                &&& r == OtaFinishAction::Abort
                &&& final(self).state() is Aborted
                &&& final(self).error() == Some(OtaError::ImageLoadIncomplete)
            },
    {
        if self.bytes_total == self.content_length {
            self.state = OtaState::Committing;
            OtaFinishAction::Commit
        } else {
            self.state = OtaState::Aborted;
            self.error = Some(OtaError::ImageLoadIncomplete);
            OtaFinishAction::Abort
        }
    }

    /// The flash API reported the outcome of the commit: success ends
    /// the attempt in `Restarting`, failure in `Aborted`.
    pub fn on_commit_result(&mut self, ok: bool) -> (r: Option<OtaError>)
        requires
            old(self).wf(),
            old(self).state() is Committing,
        ensures
            final(self).wf(),
            final(self).bytes_received() == old(self).bytes_received(),
            if ok {
                r is None && final(self).state() is Restarting
            } else {
                &&& r == Some(OtaError::OtaApiError)
                &&& final(self).state() is Aborted
                &&& final(self).error() == Some(OtaError::OtaApiError)
            },
    {
        if ok {
            self.state = OtaState::Restarting;
            None
        } else {
            self.state = OtaState::Aborted;
            self.error = Some(OtaError::OtaApiError);
            Some(OtaError::OtaApiError)
        }
    }

    /// The failure recorded for an aborted attempt, for the logs.
    pub fn last_error(&self) -> (r: Option<OtaError>)
        ensures
            r == self.error(),
    {
        self.error
    }

    /// Whether the attempt has concluded; success and failure alike end
    /// in an unconditional device restart.
    pub fn concluded(&self) -> (r: bool)
        ensures
            r == (self.state() is Restarting || self.state() is Aborted),
    {
        match self.state {
            OtaState::Restarting => true,
            OtaState::Aborted => true,
            _ => false,
        }
    }
}

/// The version string recorded in the last-invalid slot of the
/// partition table, to be refused during an update; none when no
/// invalid slot, or no parsed firmware metadata, is recorded.
pub fn last_invalid_version(last_invalid_slot: Option<&crate::summary::Slot>) -> (r: Option<
    String,
>)
    ensures
        match last_invalid_slot {
            Some(slot) => match slot.firmware {
                Some(ref fw) => r matches Some(v) && v@ == fw.version@,
                None => r is None,
            },
            None => r is None,
        },
{
    match last_invalid_slot {
        Some(slot) => match &slot.firmware {
            Some(fw) => Some(fw.version.clone()),
            None => None,
        },
        None => None,
    }
}

/// Byte-count invariant: whenever an attempt stands in `Committing` (or
/// has gone on to `Restarting`), the bytes streamed equal the declared
/// `Content-Length` exactly; a mismatch can only ever end in `Aborted`.
pub proof fn lemma_commit_only_on_exact_length(m: &OtaUpdater)
    requires
        m.wf(),
        m.state() is Committing || m.state() is Restarting,
    ensures
        m.bytes_received() == m.declared_length(),
{
}

} // verus!
