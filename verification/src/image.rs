//! Image sniffing for remote avatar and cover links: the first bytes
//! of the file must carry one of the accepted picture signatures. The
//! fetching of those bytes is the HTTP layer's; the judgement is here.

use vstd::prelude::*;

use crate::errors::{AppError, AppErrorView};

verus! {

pub open spec fn spec_is_jpg(h: Seq<u8>) -> bool {
    h[0] == 0xFF && h[1] == 0xD8
}

pub open spec fn spec_is_png(h: Seq<u8>) -> bool {
    h[0] == 0x89 && h[1] == 0x50 && h[2] == 0x4E && h[3] == 0x47 && h[4] == 0x0D && h[5] == 0x0A
        && h[6] == 0x1A && h[7] == 0x0A
}

pub open spec fn spec_is_gif(h: Seq<u8>) -> bool {
    h[0] == 0x47 && h[1] == 0x49 && h[2] == 0x46 && h[3] == 0x38 && (h[4] == 0x37 || h[4] == 0x39)
        && h[5] == 0x61
}

pub open spec fn spec_is_webp(h: Seq<u8>) -> bool {
    h[0] == 0x52 && h[1] == 0x49 && h[2] == 0x46 && h[3] == 0x46 && h[8] == 0x57 && h[9] == 0x45
        && h[10] == 0x42 && h[11] == 0x50
}

pub open spec fn spec_is_avif(h: Seq<u8>) -> bool {
    h[0] == 0x66 && h[1] == 0x74 && h[2] == 0x79 && h[3] == 0x70 && h[8] == 0x61 && h[9] == 0x76
        && h[10] == 0x69 && h[11] == 0x66
}

/// Whether twelve header bytes open one of the accepted picture
/// formats.
pub open spec fn spec_is_image_header(h: Seq<u8>) -> bool {
    spec_is_jpg(h) || spec_is_png(h) || spec_is_webp(h) || spec_is_avif(h) || spec_is_gif(h)
}

/// Judges the first twelve bytes of a remote file.
pub fn is_image_header(header: &Vec<u8>) -> (r: bool)
    requires
        header@.len() == 12,
    ensures
        r == spec_is_image_header(header@),
{
    let is_jpg = header[0] == 0xFF && header[1] == 0xD8;
    let is_png = header[0] == 0x89 && header[1] == 0x50 && header[2] == 0x4E && header[3] == 0x47
        && header[4] == 0x0D && header[5] == 0x0A && header[6] == 0x1A && header[7] == 0x0A;
    let is_gif = header[0] == 0x47 && header[1] == 0x49 && header[2] == 0x46 && header[3] == 0x38
        && (header[4] == 0x37 || header[4] == 0x39) && header[5] == 0x61;
    let is_webp = header[0] == 0x52 && header[1] == 0x49 && header[2] == 0x46 && header[3] == 0x46
        && header[8] == 0x57 && header[9] == 0x45 && header[10] == 0x42 && header[11] == 0x50;
    let is_avif = header[0] == 0x66 && header[1] == 0x74 && header[2] == 0x79 && header[3] == 0x70
        && header[8] == 0x61 && header[9] == 0x76 && header[10] == 0x69 && header[11] == 0x66;
    is_jpg || is_png || is_webp || is_avif || is_gif
}

/// Turns the sniffing verdict into the caller-facing outcome: a link
/// that is no picture is a scenario failure the user may see.
pub fn classify_remote_image(header: Option<&Vec<u8>>) -> (r: Result<(), AppError>)
    requires
        match header {
            Some(h) => h@.len() == 12,
            None => true,
        },
    ensures
        match header {
            None => r matches Err(e) && e@ == AppErrorView::System(
                "Image link check failed"@,
            ),
            Some(h) => if spec_is_image_header(h@) {
                r is Ok
            } else {
                r matches Err(e) && e@ == AppErrorView::Scenario(
                    "The link does not point to an image file"@,
                    None,
                )
            },
        },
{
    match header {
        None => Err(AppError::system_error("Image link check failed")),
        Some(h) => {
            if is_image_header(h) {
                Ok(())
            } else {
                Err(AppError::scenario_error("The link does not point to an image file", None))
            }
        },
    }
}

} // verus!
