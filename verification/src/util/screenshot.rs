//! Screenshots that prove a report: which uploads are accepted and under
//! which name they are kept.

use crate::text::{
    chars_to_string, decimal, push_i64, push_u64, signed_decimal, split_bounds, split_on, str_eq,
    str_to_chars,
};
use crate::util::discord::UserId;
use vstd::prelude::*;
use vstd::string::*;

verus! {

/// An upload must be smaller than this many bytes.
pub const MAX_FILE_SIZE: u32 = 5_000_000;

/// The keeper of the screenshots.
#[derive(Debug)]
pub struct FileManager;

/// Why an upload is not accepted.
#[derive(Debug, Clone, Copy, PartialEq, Eq, Structural)]
pub enum ScreenshotError {
    /// The file is neither a JPEG nor a PNG by its name.
    UnexpectedExtension,
    /// The file is 5 MB or larger; its size.
    TooLarge(u32),
}

/// The extension of a file name: what follows its last dot, or the whole
/// name if it holds no dot.
pub open spec fn file_extension(file_name: Seq<char>) -> Seq<char> {
    split_on(file_name, '.').last()
}

/// Whether an extension is one of `jpeg`, `jpg` and `png`.
pub open spec fn is_image_extension(extension: Seq<char>) -> bool {
    extension == "jpeg"@ || extension == "jpg"@ || extension == "png"@
}

/// What checking an upload gives: its extension, if the extension is that
/// of an image and the file is small enough. The extension is checked
/// first.
pub open spec fn upload_spec(file_name: Seq<char>, size: u32) -> Result<Seq<char>, ScreenshotError> {
    if !is_image_extension(file_extension(file_name)) {
        Err(ScreenshotError::UnexpectedExtension)
    } else if size >= MAX_FILE_SIZE {
        Err(ScreenshotError::TooLarge(size))
    } else {
        Ok(file_extension(file_name))
    }
}

/// The name a screenshot is kept under: the date of the upload, the
/// reported account and the extension, as `year-month-day_user.extension`.
pub open spec fn stored_name(year: i32, month: u32, day: u32, user_id: UserId, extension: Seq<char>) -> Seq<
    char,
> {
    signed_decimal(year as int) + "-"@ + decimal(month as nat) + "-"@ + decimal(day as nat) + "_"@
        + decimal(user_id as nat) + "."@ + extension
}

/// The extension of a file name.
pub fn get_file_extension(file_name: &str) -> (extension: Option<String>)
    ensures
        extension is Some,
        extension->0@ == file_extension(file_name@),
{
    let chars = str_to_chars(file_name);
    let pieces = split_bounds(&chars, '.');
    proof {
        assert(split_on(chars@, '.').len() >= 1) by {
            reveal_with_fuel(split_on, 1);
        }
    }
    let (from, to) = pieces[pieces.len() - 1];
    Some(chars_to_string(&chars, from, to))
}

impl FileManager {
    /// The place a screenshot is kept at: `screenshots/` and its name.
    pub fn get(path: &str) -> (place: String)
        ensures
            place@ == "screenshots/"@ + path@,
    {
        let mut place = String::new();
        place.append("screenshots/");
        place.append(path);
        place
    }

    /// Checks an upload and names the file it is kept in. The upload must
    /// be a JPEG or a PNG by its name and smaller than 5 MB. The date is
    /// that of the upload.
    pub fn save(
        file_name: &str,
        size: u32,
        user_id: UserId,
        year: i32,
        month: u32,
        day: u32,
    ) -> (r: Result<String, ScreenshotError>)
        ensures
            match r {
                Ok(name) => upload_spec(file_name@, size) is Ok && name@ == stored_name(
                    year,
                    month,
                    day,
                    user_id,
                    upload_spec(file_name@, size)->Ok_0,
                ),
                Err(e) => upload_spec(file_name@, size) == Err::<Seq<char>, ScreenshotError>(e),
            },
    {
        let file_ext = match get_file_extension(file_name) {
            Some(ext) => ext,
            None => {
                return Err(ScreenshotError::UnexpectedExtension);
            },
        };
        let ext = file_ext.as_str();
        if !(str_eq(ext, "jpeg") || str_eq(ext, "jpg") || str_eq(ext, "png")) {
            return Err(ScreenshotError::UnexpectedExtension);
        }
        if size >= MAX_FILE_SIZE {
            return Err(ScreenshotError::TooLarge(size));
        }
        let mut name = String::new();
        push_i64(&mut name, year as i64);
        name.append("-");
        push_u64(&mut name, month as u64);
        name.append("-");
        push_u64(&mut name, day as u64);
        name.append("_");
        push_u64(&mut name, user_id);
        name.append(".");
        name.append(ext);
        assert(name@ =~= stored_name(year, month, day, user_id, file_ext@));
        Ok(name)
    }
}

} // verus!
