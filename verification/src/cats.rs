//! The cat plugin's dealings with the image service: which address it asks,
//! which answers it accepts, and how it counts its requests.

use crate::text::{decimal, joined, push_decimal};
use vstd::prelude::*;

verus! {

/// One image, as the service describes it.
#[derive(Clone, Debug, PartialEq, Eq)]
pub struct CatResponse {
    pub id: String,
    pub url: String,
    pub width: Option<u16>,
    pub heigth: Option<u16>,
    pub mime_type: Option<String>,
}

/// The address to ask: that of the image `id`, or that of a search for any image.
pub open spec fn spec_request_uri(id: Option<Seq<char>>) -> Seq<char> {
    "https://api.thecatapi.com/v1/images/"@ + match id {
        Some(id) => id,
        None => "search"@,
    }
}

/// The complaint about an answer with this status code; only 200 is accepted.
pub open spec fn spec_status_error(status_code: u16) -> Option<Seq<char>> {
    if status_code == 200 {
        None
    } else {
        Some(
            "The HTTP response returned an unwanted status code: "@ + decimal(status_code as nat),
        )
    }
}

/// The count of requests to the service after one more, held at the largest
/// value that fits.
pub open spec fn spec_count_request(total: u32) -> u32 {
    if total < u32::MAX {
        (total + 1) as u32
    } else {
        u32::MAX
    }
}

/// Counts one more request to the service. Every request counts, however it
/// ends.
pub fn count_request(total: u32) -> (next: u32)
    ensures
        next == spec_count_request(total),
        total < u32::MAX ==> next == total + 1,
{
    total.saturating_add(1)
}

/// The address to ask for the image `id`, or for any image.
pub fn request_uri(id: Option<&str>) -> (uri: String)
    ensures
        uri@ == spec_request_uri(
            match id {
                Some(id) => Some(id@),
                None => None,
            },
        ),
{
    match id {
        Some(id) => joined("https://api.thecatapi.com/v1/images/", id),
        None => joined("https://api.thecatapi.com/v1/images/", "search"),
    }
}

/// Checks the status code of the service's answer.
pub fn status_error(status_code: u16) -> (error: Option<String>)
    ensures
        match error {
            Some(text) => Some(text@),
            None => None,
        } == spec_status_error(status_code),
        error is None <==> status_code == 200,
{
    if status_code == 200 {
        None
    } else {
        let mut text = String::from_str("The HTTP response returned an unwanted status code: ");
        push_decimal(&mut text, status_code as u64);
        Some(text)
    }
}

} // verus!
