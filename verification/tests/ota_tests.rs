use anemometer::ota::{
    last_invalid_version, HeaderLoad, HttpResponseInfo, OtaChunkStep, OtaError, OtaFinishAction,
    OtaUpdater,
};
use anemometer::summary::{FirmwareInfo, Slot};

fn firmware(version: &str) -> FirmwareInfo {
    FirmwareInfo {
        version: version.to_string(),
        released: "2023-01-01 00:00".to_string(),
        description: None,
    }
}

fn response(status: u16, content_length: Option<usize>) -> HttpResponseInfo {
    HttpResponseInfo { status, content_length }
}

#[test]
fn update_commits_on_exact_content_length() {
    let mut ota = OtaUpdater::new(None);
    ota.request_update();
    assert!(ota.on_response(Some(&response(200, Some(2048)))).is_ok());

    // first chunk is large enough: the header is parsed out of it
    assert!(ota.header_check_needed(1024));
    let step = ota.on_chunk(1024, Some(&HeaderLoad::Loaded(firmware("1.1.0"))));
    assert_eq!(step, OtaChunkStep::Write);
    assert!(ota.on_write_result(true).is_none());

    assert!(!ota.header_check_needed(1024));
    let step = ota.on_chunk(1024, None);
    assert_eq!(step, OtaChunkStep::Write);
    assert!(ota.on_write_result(true).is_none());

    // the stream ends exactly at the declared length
    let step = ota.on_chunk(0, None);
    assert_eq!(step, OtaChunkStep::Finish);
    assert_eq!(ota.finalize(), OtaFinishAction::Commit);
    assert!(ota.on_commit_result(true).is_none());
    assert!(ota.concluded());
}

#[test]
fn short_stream_aborts_instead_of_committing() {
    let mut ota = OtaUpdater::new(None);
    ota.request_update();
    assert!(ota.on_response(Some(&response(200, Some(4096)))).is_ok());

    assert!(ota.header_check_needed(1024));
    let step = ota.on_chunk(1024, Some(&HeaderLoad::Loaded(firmware("1.1.0"))));
    assert_eq!(step, OtaChunkStep::Write);
    assert!(ota.on_write_result(true).is_none());

    // a short read: the connection ended early
    let step = ota.on_chunk(512, None);
    assert_eq!(step, OtaChunkStep::Write);
    assert!(ota.on_write_result(true).is_none());

    assert_eq!(ota.finalize(), OtaFinishAction::Abort);
    assert!(ota.concluded());
}

#[test]
fn version_of_invalid_slot_is_refused() {
    let mut ota = OtaUpdater::new(Some("1.0.7".to_string()));
    ota.request_update();
    assert!(ota.on_response(Some(&response(200, Some(2048)))).is_ok());

    assert!(ota.header_check_needed(1024));
    let step = ota.on_chunk(1024, Some(&HeaderLoad::Loaded(firmware("1.0.7"))));
    assert_eq!(step, OtaChunkStep::Fail);
    assert!(ota.concluded());
}

#[test]
fn different_version_than_invalid_slot_proceeds() {
    let mut ota = OtaUpdater::new(Some("1.0.7".to_string()));
    ota.request_update();
    assert!(ota.on_response(Some(&response(200, Some(2048)))).is_ok());

    let step = ota.on_chunk(1024, Some(&HeaderLoad::Loaded(firmware("1.0.8"))));
    assert_eq!(step, OtaChunkStep::Write);
}

#[test]
fn unparsable_header_aborts() {
    let mut ota = OtaUpdater::new(None);
    ota.request_update();
    assert!(ota.on_response(Some(&response(200, Some(2048)))).is_ok());

    let step = ota.on_chunk(1024, Some(&HeaderLoad::Failed));
    assert_eq!(step, OtaChunkStep::Fail);

    let mut ota = OtaUpdater::new(None);
    ota.request_update();
    assert!(ota.on_response(Some(&response(200, Some(2048)))).is_ok());
    let step = ota.on_chunk(1024, Some(&HeaderLoad::Incomplete));
    assert_eq!(step, OtaChunkStep::Fail);
}

#[test]
fn bad_responses_are_rejected() {
    let mut ota = OtaUpdater::new(None);
    ota.request_update();
    assert_eq!(ota.on_response(None), Err(OtaError::HttpError));

    let mut ota = OtaUpdater::new(None);
    ota.request_update();
    assert_eq!(
        ota.on_response(Some(&response(404, Some(2048)))),
        Err(OtaError::FwImageNotFound)
    );

    let mut ota = OtaUpdater::new(None);
    ota.request_update();
    assert_eq!(
        ota.on_response(Some(&response(200, None))),
        Err(OtaError::FwImageNotFound)
    );

    // a Content-Length below one chunk is implausibly small
    let mut ota = OtaUpdater::new(None);
    ota.request_update();
    assert_eq!(
        ota.on_response(Some(&response(200, Some(100)))),
        Err(OtaError::FwImageNotFound)
    );
}

#[test]
fn flash_write_failure_aborts() {
    let mut ota = OtaUpdater::new(None);
    ota.request_update();
    assert!(ota.on_response(Some(&response(200, Some(2048)))).is_ok());
    let step = ota.on_chunk(1024, Some(&HeaderLoad::Loaded(firmware("1.1.0"))));
    assert_eq!(step, OtaChunkStep::Write);
    assert_eq!(ota.on_write_result(false), Some(OtaError::FlashFailed));
    assert!(ota.concluded());
}

#[test]
fn commit_failure_aborts() {
    let mut ota = OtaUpdater::new(None);
    ota.request_update();
    assert!(ota.on_response(Some(&response(200, Some(1024)))).is_ok());
    let step = ota.on_chunk(1024, Some(&HeaderLoad::Loaded(firmware("1.1.0"))));
    assert_eq!(step, OtaChunkStep::Write);
    assert!(ota.on_write_result(true).is_none());
    let step = ota.on_chunk(0, None);
    assert_eq!(step, OtaChunkStep::Finish);
    assert_eq!(ota.finalize(), OtaFinishAction::Commit);
    assert_eq!(ota.on_commit_result(false), Some(OtaError::OtaApiError));
    assert!(ota.concluded());
}

#[test]
fn error_descriptions_match_log_texts() {
    assert_eq!(
        OtaError::FwImageNotFound.describe(),
        "Firmware not found on server or unexcpected server response error"
    );
    assert_eq!(
        OtaError::FwSameAsInvalidFw.describe(),
        "New firmware same as invalid marked firmware"
    );
    assert_eq!(
        OtaError::VersionAlreadyFlashed.describe(),
        "Firmware with same version already flashed"
    );
    assert_eq!(OtaError::HttpError.describe(), "Calling Http client API error");
    assert_eq!(OtaError::OtaApiError.describe(), "Calling OTA API error");
    assert_eq!(OtaError::FlashFailed.describe(), "Failed to write FW data to flash");
    assert_eq!(
        OtaError::ImageLoadIncomplete.describe(),
        "Failed to download complete FW image"
    );
}

#[test]
fn invalid_slot_version_is_read_from_partition_table() {
    assert_eq!(last_invalid_version(None), None);

    let bare = Slot { label: "ota_0".to_string(), firmware: None };
    assert_eq!(last_invalid_version(Some(&bare)), None);

    let with_fw = Slot {
        label: "ota_1".to_string(),
        firmware: Some(firmware("0.9.9")),
    };
    assert_eq!(last_invalid_version(Some(&with_fw)), Some("0.9.9".to_string()));
}
