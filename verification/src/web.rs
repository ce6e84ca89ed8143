//! The pages served by the calibration web interface.
//!
//! The calibration build serves the raw rotation speed and the OTA
//! upload confirmation texts; the page text is specified character
//! for character.

use vstd::prelude::*;

use crate::text::{spec_speed_text, speed_text};

verus! {

use vstd::string::StringExecFns;

/// The fixed HTML around a page body.
pub open spec fn spec_templated(content: Seq<char>) -> Seq<char> {
    "\n<!DOCTYPE html>\n<html>\n    <head>\n        <meta charset=\"utf-8\">\n        <title>esp-rs web server</title>\n    </head>\n    <body>\n        "@
        + content + "\n    </body>\n</html>\n"@
}

/// Wrap a page body in the fixed HTML scaffold.
pub fn templated(content: &str) -> (r: String)
    ensures
        r@ == spec_templated(content@),
{
    let mut page = String::new();
    page.append(
        "\n<!DOCTYPE html>\n<html>\n    <head>\n        <meta charset=\"utf-8\">\n        <title>esp-rs web server</title>\n    </head>\n    <body>\n        ",
    );
    page.append(content);
    page.append("\n    </body>\n</html>\n");
    proof {
        assert(page@ =~= spec_templated(content@));
    }
    page
}

/// The key-value pairs of a form-urlencoded request body, in order,
/// percent-decoded.
pub uninterp spec fn form_pairs(body: Seq<u8>) -> Seq<(Seq<char>, Seq<char>)>;

/// Relies on `url::form_urlencoded::parse`: it splits the body at
/// `&` and `=` and percent-decodes both sides; the pairs depend on
/// the bytes alone.
#[verifier::external_body]
fn parse_form_pairs(body: &[u8]) -> (r: Vec<(String, String)>)
    ensures
        r@.map_values(|p: (String, String)| (p.0@, p.1@)) == form_pairs(body@),
{
    url::form_urlencoded::parse(body).map(|p| (p.0.into_owned(), p.1.into_owned())).collect()
}

/// The value of the first pair whose key is `key`.
pub open spec fn spec_first_value(pairs: Seq<(Seq<char>, Seq<char>)>, key: Seq<char>) -> Option<
    Seq<char>,
>
    decreases pairs.len(),
{
    if pairs.len() == 0 {
        None
    } else if pairs[0].0 == key {
        Some(pairs[0].1)
    } else {
        spec_first_value(pairs.skip(1), key)
    }
}

/// The target image URL of an OTA upload request: the value of the
/// first `firmware` parameter of the form-urlencoded body, if any.
pub fn firmware_param(body: &[u8]) -> (r: Option<String>)
    ensures
        r is Some <==> spec_first_value(form_pairs(body@), "firmware"@) is Some,
        r matches Some(v) ==> Some(v@) == spec_first_value(form_pairs(body@), "firmware"@),
{
    let key = String::from_str("firmware");
    let pairs = parse_form_pairs(body);
    let ghost view_pairs = pairs@.map_values(|p: (String, String)| (p.0@, p.1@));
    proof {
        assert(view_pairs.skip(0) =~= view_pairs);
    }
    let mut i: usize = 0;
    while i < pairs.len()
        invariant
            i <= pairs@.len(),
            key@ == "firmware"@,
            view_pairs == pairs@.map_values(|p: (String, String)| (p.0@, p.1@)),
            view_pairs == form_pairs(body@),
            spec_first_value(view_pairs, "firmware"@) == spec_first_value(
                view_pairs.skip(i as int),
                "firmware"@,
            ),
        decreases pairs@.len() - i,
    {
        proof {
            assert(view_pairs.skip(i as int)[0] == view_pairs[i as int]);
        }
        if pairs[i].0.eq(&key) {
            return Some(pairs[i].1.clone());
        }
        proof {
            assert(view_pairs.skip(i as int).skip(1) =~= view_pairs.skip(i + 1));
        }
        i = i + 1;
    }
    proof {
        assert(view_pairs.skip(i as int).len() == 0);
    }
    None
}

/// The text of the OTA upload confirmation page body.
pub open spec fn spec_update_result_body(ok: bool) -> Seq<char> {
    if ok {
        "Successfully completed firmware update"@
    } else {
        "Firmare update failed"@
    }
}

/// The confirmation page the OTA upload handler answers with.
pub fn update_result_page(ok: bool) -> (r: String)
    ensures
        r@ == spec_templated(spec_update_result_body(ok)),
{
    if ok {
        templated("Successfully completed firmware update")
    } else {
        templated("Firmare update failed")
    }
}

/// The text of the rotation speed page body.
pub open spec fn spec_windspeed_body(rps_milli: int) -> Seq<char> {
    "Rotation speed: "@ + spec_speed_text(rps_milli, '.') + " rps"@
}

/// The rotation speed page: the current reading in rotations per
/// second, in thousandths, rendered with two decimal places.
pub fn windspeed(rps_milli: u64) -> (r: String)
    requires
        rps_milli <= u64::MAX - 5,
    ensures
        r@ == spec_templated(spec_windspeed_body(rps_milli as int)),
{
    let mut body = String::new();
    body.append("Rotation speed: ");
    let speed = speed_text(rps_milli, false);
    body.append(speed.as_str());
    body.append(" rps");
    proof {
        assert(body@ =~= spec_windspeed_body(rps_milli as int));
    }
    templated(body.as_str())
}

} // verus!
