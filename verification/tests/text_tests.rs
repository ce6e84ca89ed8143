use anemometer::httpd;
use anemometer::summary::{
    add_firmware_info, copy_truncated_string, format_update_summary, FirmwareInfo, Slot,
};
use anemometer::text::{speed_text, string_until_nul, u64_to_string};
use anemometer::web;

#[test]
fn numbers_render_in_decimal() {
    assert_eq!(u64_to_string(0), "0");
    assert_eq!(u64_to_string(7), "7");
    assert_eq!(u64_to_string(10), "10");
    assert_eq!(u64_to_string(1234), "1234");
    assert_eq!(u64_to_string(1000000), "1000000");
}

#[test]
fn speeds_render_with_two_decimals() {
    assert_eq!(speed_text(0, false), "0.00");
    assert_eq!(speed_text(2000, false), "2.00");
    assert_eq!(speed_text(1412, false), "1.41");
    // rounding is half up on the third decimal
    assert_eq!(speed_text(1415, false), "1.42");
    assert_eq!(speed_text(999, false), "1.00");
    assert_eq!(speed_text(17_500, false), "17.50");
}

#[test]
fn report_speeds_use_a_comma() {
    assert_eq!(speed_text(2000, true), "2,00");
    assert_eq!(speed_text(1412, true), "1,41");
}

#[test]
fn wind_page_shows_both_figures() {
    let page = httpd::windspeed(1412, 17_500);
    assert_eq!(
        page,
        "\n<!DOCTYPE html>\n<html>\n<head>\n    <meta charset=\"utf-8\">\n    <title>esp-rs web server</title>\n</head>\n<body>\n    Wind speed: 1.41 km/h\nWind gust: 17.50 km/h\n</body>\n</html>\n"
    );
}

#[test]
fn templated_wraps_content() {
    let page = httpd::templated("hello");
    assert_eq!(
        page,
        "\n<!DOCTYPE html>\n<html>\n<head>\n    <meta charset=\"utf-8\">\n    <title>esp-rs web server</title>\n</head>\n<body>\n    hello\n</body>\n</html>\n"
    );

    let page = web::templated("hello");
    assert_eq!(
        page,
        "\n<!DOCTYPE html>\n<html>\n    <head>\n        <meta charset=\"utf-8\">\n        <title>esp-rs web server</title>\n    </head>\n    <body>\n        hello\n    </body>\n</html>\n"
    );
}

#[test]
fn rotation_page_shows_the_reading() {
    let page = web::windspeed(2500);
    assert_eq!(
        page,
        "\n<!DOCTYPE html>\n<html>\n    <head>\n        <meta charset=\"utf-8\">\n        <title>esp-rs web server</title>\n    </head>\n    <body>\n        Rotation speed: 2.50 rps\n    </body>\n</html>\n"
    );
}

#[test]
fn nul_padded_config_buffers_yield_their_text() {
    let mut buf = [0u8; 16];
    buf[..11].copy_from_slice(b"mqtt.host.x");
    assert_eq!(string_until_nul(&buf), Some("mqtt.host.x".to_string()));

    // without a terminating NUL nothing is returned
    assert_eq!(string_until_nul(b"abc"), None);

    // an empty configuration entry is the empty string
    assert_eq!(string_until_nul(&[0u8; 4]), Some(String::new()));

    // an invalid prefix is refused
    assert_eq!(string_until_nul(&[0xff, 0xfe, 0x00]), None);
}

#[test]
fn firmware_parameter_is_extracted_from_the_form() {
    let body = b"other=1&firmware=https%3A%2F%2Ffirmware.example%2Ffw.bin&x=2";
    assert_eq!(
        web::firmware_param(body),
        Some("https://firmware.example/fw.bin".to_string())
    );

    // the first occurrence wins
    let body = b"firmware=first&firmware=second";
    assert_eq!(web::firmware_param(body), Some("first".to_string()));

    assert_eq!(web::firmware_param(b"speed=3"), None);
    assert_eq!(web::firmware_param(b""), None);
}

#[test]
fn upload_confirmation_pages() {
    let ok = web::update_result_page(true);
    assert!(ok.contains("Successfully completed firmware update"));
    let failed = web::update_result_page(false);
    assert!(failed.contains("Firmare update failed"));
}

#[test]
fn truncation_keeps_a_prefix() {
    assert_eq!(copy_truncated_string("firmware", 20), "firmware");
    assert_eq!(copy_truncated_string("firmware", 4), "firm");
    assert_eq!(copy_truncated_string("", 4), "");
}

#[test]
fn firmware_info_lines() {
    let mut s = String::new();
    add_firmware_info(&mut s, None);
    assert_eq!(s, "");

    let fw = FirmwareInfo {
        version: "1.2.3".to_string(),
        released: "2023-02-03 10:00:00".to_string(),
        description: Some("anemometer firmware".to_string()),
    };
    let mut s = String::new();
    add_firmware_info(&mut s, Some(&fw));
    assert_eq!(s, "1.2.3, 2023-02-03 10:00:00, anemometer firmware");
}

#[test]
fn update_summary_lists_slots_and_image() {
    let boot = Slot {
        label: "ota_0".to_string(),
        firmware: Some(FirmwareInfo {
            version: "1.0.0".to_string(),
            released: "2023-01-01 00:00:00".to_string(),
            description: None,
        }),
    };
    let run = Slot {
        label: "ota_0".to_string(),
        firmware: Some(FirmwareInfo {
            version: "1.0.0".to_string(),
            released: "2023-01-01 00:00:00".to_string(),
            description: None,
        }),
    };
    let update = Slot { label: "ota_1".to_string(), firmware: None };
    let image = FirmwareInfo {
        version: "1.1.0".to_string(),
        released: "2023-06-01 12:00:00".to_string(),
        description: None,
    };

    let summary = format_update_summary(&boot, &run, &update, &image);
    assert_eq!(
        summary,
        "OTA Update Summary\n\
         ==================\n\
         Boot   partition: ota_0, 1.0.0, 2023-01-01 00:00:00\n\
         Run    partition: ota_0, 1.0.0, 2023-01-01 00:00:00\n\
         Update partition: ota_1, \n\
         \nDownloaded FW  : 1.1.0, 2023-06-01 12:00:00\n"
    );
}
