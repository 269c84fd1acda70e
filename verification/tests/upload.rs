use microtun_telnet::upload::{
    config_from_timeout, file_error, format_send_error, transfer_name, upload_metadata, FileStep,
    SendError,
};
use std::time::Duration;

#[test]
fn cli_timeout_maps_to_one_ymodem_wait() {
    let config = config_from_timeout(Duration::from_secs(7).as_millis());
    assert_eq!(config.start_timeout_ms, 7_000);
    assert_eq!(config.transfer_timeout_ms, 7_000);
    assert_eq!(config.start_retries, 1);
}

#[test]
fn timeouts_are_kept_within_what_fits() {
    assert_eq!(config_from_timeout(0).start_timeout_ms, 1);
    assert_eq!(config_from_timeout(1).transfer_timeout_ms, 1);
    assert_eq!(config_from_timeout(4_294_967_295).start_timeout_ms, u32::MAX);
    assert_eq!(config_from_timeout(4_294_967_296).start_timeout_ms, u32::MAX);
    assert_eq!(config_from_timeout(Duration::MAX.as_millis()).transfer_timeout_ms, u32::MAX);
}

#[test]
fn every_error_has_its_text() {
    let table = [
        (SendError::Io("reset".to_owned()), "reset"),
        (SendError::Timeout, "YMODEM transfer timed out"),
        (SendError::Cancelled, "device cancelled YMODEM transfer"),
        (SendError::Protocol, "unexpected YMODEM protocol response"),
        (SendError::InvalidFilename, "YMODEM filename is empty or contains NUL"),
        (SendError::HeaderTooLong, "YMODEM filename is too long for block 0"),
        (SendError::UnexpectedEof, "upload file ended before its advertised size"),
        (SendError::InvalidSourceRead, "upload source returned an invalid read length"),
        (SendError::Source("denied".to_owned()), "read upload file: denied"),
        (SendError::Observer("draw".to_owned()), "draw"),
    ];
    for (error, text) in table {
        assert_eq!(format_send_error(error), text);
    }
    assert_eq!(file_error(FileStep::Open, "a.bin", "denied"), "open a.bin: denied");
    assert_eq!(file_error(FileStep::Stat, "a.bin", "gone"), "stat a.bin: gone");
}

#[test]
fn files_without_a_usable_name_get_a_stand_in() {
    let name = Some("config.ini".to_owned());
    let metadata = upload_metadata("/data/config.ini", name, 12).ok().unwrap();
    assert_eq!((metadata.filename.as_str(), metadata.file_size), ("config.ini", 12));
    let metadata = upload_metadata("..", None, 0).ok().unwrap();
    assert_eq!(metadata.filename, "upload.bin");
    let metadata = upload_metadata("x", Some(String::new()), 0).ok().unwrap();
    assert_eq!(metadata.filename, "upload.bin");
    assert_eq!(transfer_name(None), "upload.bin");
    assert_eq!(transfer_name(Some("a".to_owned())), "a");
}

#[test]
fn files_beyond_the_platform_are_refused() {
    let largest = usize::MAX as u64;
    assert_eq!(upload_metadata("big", None, largest).ok().unwrap().file_size, usize::MAX);
    if let Some(larger) = largest.checked_add(1) {
        assert_eq!(
            upload_metadata("big", None, larger).err().unwrap(),
            "big is too large for this platform"
        );
    }
}
