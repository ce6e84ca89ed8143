//! Firmware slot metadata and the human-readable update summary.
//!
//! The flash partition table exposes boot, running, update and
//! last-invalid slots, each optionally carrying parsed firmware
//! metadata.  During an update the device logs a summary of all of
//! them together with the metadata of the downloaded image; the text
//! built here is specified character for character.

use vstd::prelude::*;

verus! {

use vstd::string::{StrSliceExecFns, StringExecFns};

/// Parsed firmware metadata of one image: version string, build
/// timestamp and an optional description.
pub struct FirmwareInfo {
    pub version: String,
    pub released: String,
    pub description: Option<String>,
}

/// One flash slot of the partition table with its optional firmware
/// metadata.
pub struct Slot {
    pub label: String,
    pub firmware: Option<FirmwareInfo>,
}

/// A sequence truncated to at most `max` characters.
pub open spec fn trunc(s: Seq<char>, max: int) -> Seq<char> {
    if s.len() <= max {
        s
    } else {
        s.take(max)
    }
}

/// The text describing one optional firmware record: truncated version,
/// build timestamp and description, comma separated.
pub open spec fn firmware_info_text(f: Option<FirmwareInfo>) -> Seq<char> {
    match f {
        None => Seq::empty(),
        Some(fw) => trunc(fw.version@, 10) + ", "@ + trunc(fw.released@, 19) + match fw
            .description {
            Some(d) => ", "@ + trunc(d@, 32),
            None => Seq::<char>::empty(),
        },
    }
}

/// The text of one slot line: truncated label, then the firmware text.
pub open spec fn slot_text(s: Slot) -> Seq<char> {
    trunc(s.label@, 10) + ", "@ + firmware_info_text(s.firmware)
}

/// The whole update summary: the three slots of the partition table and
/// the metadata of the downloaded image.
pub open spec fn update_summary_text(
    boot: Slot,
    run: Slot,
    update: Slot,
    image: FirmwareInfo,
) -> Seq<char> {
    "OTA Update Summary\n==================\nBoot   partition: "@ + slot_text(boot)
        + "\nRun    partition: "@ + slot_text(run) + "\nUpdate partition: "@ + slot_text(update)
        + "\n\nDownloaded FW  : "@ + firmware_info_text(Some(image)) + "\n"@
}

/// Copy at most `max` characters of `src` into a fresh string.
pub fn copy_truncated_string(src: &str, max: usize) -> (r: String)
    ensures
        r@ == trunc(src@, max as int),
{
    let n = src.unicode_len();
    if n <= max {
        String::from_str(src)
    } else {
        String::from_str(src.substring_char(0, max))
    }
}

/// Append the text of one optional firmware record to the summary.
pub fn add_firmware_info(update_summary: &mut String, firmware: Option<&FirmwareInfo>)
    ensures
        final(update_summary)@ == old(update_summary)@ + firmware_info_text(
            match firmware {
                Some(f) => Some(*f),
                None => None,
            },
        ),
{
    match firmware {
        Some(fw) => {
            let version = copy_truncated_string(fw.version.as_str(), 10);
            update_summary.append(version.as_str());
            update_summary.append(", ");
            let released = copy_truncated_string(fw.released.as_str(), 19);
            update_summary.append(released.as_str());
            match &fw.description {
                Some(desc) => {
                    update_summary.append(", ");
                    let description = copy_truncated_string(desc.as_str(), 32);
                    update_summary.append(description.as_str());
                },
                None => {},
            }
        },
        None => {},
    }
}

/// Append one slot line (label and firmware text) to the summary.
fn add_slot(update_summary: &mut String, slot: &Slot)
    ensures
        final(update_summary)@ == old(update_summary)@ + slot_text(*slot),
{
    let label = copy_truncated_string(slot.label.as_str(), 10);
    update_summary.append(label.as_str());
    update_summary.append(", ");
    add_firmware_info(update_summary, slot.firmware.as_ref());
}

/// Build the update summary logged before an image is streamed: the
/// boot, running and update slots, then the downloaded image metadata.
pub fn format_update_summary(
    boot_slot: &Slot,
    run_slot: &Slot,
    update_slot: &Slot,
    ota_image_info: &FirmwareInfo,
) -> (r: String)
    ensures
        r@ == update_summary_text(*boot_slot, *run_slot, *update_slot, *ota_image_info),
{
    let mut s = String::new();
    s.append("OTA Update Summary\n==================\nBoot   partition: ");
    add_slot(&mut s, boot_slot);
    s.append("\nRun    partition: ");
    add_slot(&mut s, run_slot);
    s.append("\nUpdate partition: ");
    add_slot(&mut s, update_slot);
    s.append("\n\nDownloaded FW  : ");
    add_firmware_info(&mut s, Some(ota_image_info));
    s.append("\n");
    proof {
        assert(s@ =~= update_summary_text(*boot_slot, *run_slot, *update_slot, *ota_image_info));
    }
    s
}

} // verus!
