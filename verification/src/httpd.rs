//! The pages served by the wind data HTTP server.
//!
//! While the device holds an IP address it serves a single page with
//! the current average and gust speed; the text of every page is
//! specified character for character.

use vstd::prelude::*;

use crate::text::{spec_speed_text, speed_text};

verus! {

use vstd::string::StringExecFns;

/// The fixed HTML around a page body.
pub open spec fn spec_templated(content: Seq<char>) -> Seq<char> {
    "\n<!DOCTYPE html>\n<html>\n<head>\n    <meta charset=\"utf-8\">\n    <title>esp-rs web server</title>\n</head>\n<body>\n    "@
        + content + "\n</body>\n</html>\n"@
}

/// Wrap a page body in the fixed HTML scaffold.
pub fn templated(content: &str) -> (r: String)
    ensures
        r@ == spec_templated(content@),
{
    let mut page = String::new();
    page.append(
        "\n<!DOCTYPE html>\n<html>\n<head>\n    <meta charset=\"utf-8\">\n    <title>esp-rs web server</title>\n</head>\n<body>\n    ",
    );
    page.append(content);
    page.append("\n</body>\n</html>\n");
    proof {
        assert(page@ =~= spec_templated(content@));
    }
    page
}

/// The text of the wind speed page body.
pub open spec fn spec_windspeed_body(speed_milli: int, gust_milli: int) -> Seq<char> {
    "Wind speed: "@ + spec_speed_text(speed_milli, '.') + " km/h\nWind gust: "@ + spec_speed_text(
        gust_milli,
        '.',
    ) + " km/h"@
}

/// The wind speed page: current average and gust speed in km/h, both
/// in thousandths, rendered with two decimal places.
pub fn windspeed(speed_milli: u64, gust_milli: u64) -> (r: String)
    requires
        speed_milli <= u64::MAX - 5,
        gust_milli <= u64::MAX - 5,
    ensures
        r@ == spec_templated(spec_windspeed_body(speed_milli as int, gust_milli as int)),
{
    let mut body = String::new();
    body.append("Wind speed: ");
    let speed = speed_text(speed_milli, false);
    body.append(speed.as_str());
    body.append(" km/h\nWind gust: ");
    let gust = speed_text(gust_milli, false);
    body.append(gust.as_str());
    body.append(" km/h");
    proof {
        assert(body@ =~= spec_windspeed_body(speed_milli as int, gust_milli as int));
    }
    templated(body.as_str())
}

} // verus!
