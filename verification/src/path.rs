//! Choosing the destination file path from the caller's output option and
//! the URL's file name.  The filesystem facts the decision needs — whether
//! the output is a directory, whether its parent is — are handed in as
//! plain values by the caller that probed them.

use vstd::prelude::*;

use crate::errors::FetchError;
use crate::strings::{join_path, joined_path};

verus! {

/// The fallback file name when the URL names none.
pub open spec fn default_filename() -> Seq<char> {
    "index.html"@
}

/// The message rejecting an unusable output location.
pub open spec fn invalid_output_message() -> Seq<char> {
    "Output argument invalid"@
}

/// The file name taken from the URL's last path segment, or the fallback
/// name when the URL has no segments or its last segment is empty.
pub open spec fn chosen_filename(segment: Option<Seq<char>>) -> Seq<char> {
    match segment {
        Some(s) => if s.len() > 0 {
            s
        } else {
            default_filename()
        },
        None => default_filename(),
    }
}

/// Resolves the destination path for a download.
///
/// `url_filename` is the URL's last path segment, when it has one;
/// `output_is_dir` says whether the output location (the given one, or the
/// current directory when none was given) is a directory; `parent_is_dir`
/// says whether the output's parent directory exists (`None` when the
/// output has no parent).  A directory output gets the URL's file name
/// appended; a non-directory output stands as given, but only when its
/// parent is a directory — else the output is rejected as invalid.
pub fn parse_path(
    output_option: &Option<String>,
    url_filename: &Option<String>,
    output_is_dir: bool,
    parent_is_dir: Option<bool>,
) -> (r: Result<String, FetchError>)
    ensures
        ({
            let base: Seq<char> = match output_option {
                Some(o) => o@,
                None => "./"@,
            };
            let name: Seq<char> = match url_filename {
                Some(s) => if s@.len() > 0 {
                    s@
                } else {
                    default_filename()
                },
                None => default_filename(),
            };
            if output_is_dir {
                r matches Ok(p) && p@ == joined_path(base, name)
            } else {
                match parent_is_dir {
                    Some(true) => r matches Ok(p) && p@ == base,
                    _ => r matches Err(e) && e matches FetchError::InvalidArgumentsError(m)
                        && m@ == invalid_output_message(),
                }
            }
        }),
{
    let fallback = "index.html";
    let name: &str = match url_filename {
        Some(s) => {
            if s.unicode_len() > 0 {
                s.as_str()
            } else {
                fallback
            }
        },
        None => fallback,
    };
    let base: &str = match output_option {
        Some(o) => o.as_str(),
        None => "./",
    };
    if output_is_dir {
        Ok(join_path(base, name))
    } else {
        match parent_is_dir {
            Some(true) => Ok(String::from_str(base)),
            _ => Err(
                FetchError::InvalidArgumentsError(String::from_str("Output argument invalid")),
            ),
        }
    }
}

} // verus!
