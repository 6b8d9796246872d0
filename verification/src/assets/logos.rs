//! Logos of the landing page.

use crate::text::{list_view, str_eq};
use vstd::prelude::*;
use vstd::string::*;

verus! {

broadcast use crate::text::group_list_view;

/// Draws an index below `len`. Calls `fastrand::usize` with the range
/// `..len`, which draws from the thread's generator. The generator panics on
/// an empty range, so `len` must not be zero.
#[verifier::external_body]
pub(crate) fn random_index(len: usize) -> (index: usize)
    requires
        len > 0,
    ensures
        index < len,
{
    fastrand::usize(..len)
}

/// Picks one of the logos at random; `None` where there is none.
pub fn select_random_logo(logos: &[String]) -> (picked: Option<String>)
    ensures
        logos@.len() == 0 ==> picked is None,
        logos@.len() > 0 ==> (picked matches Some(logo) && list_view(logos@).contains(logo@)),
{
    if logos.len() == 0 {
        return None;
    }
    let index = random_index(logos.len());
    let logo = logos[index].clone();
    assert(list_view(logos@)[index as int] == logo@);
    Some(logo)
}

/// File extensions of images that serve as logos.
pub open spec fn is_logo_extension(ext: Seq<char>) -> bool {
    ||| ext == "png"@
    ||| ext == "jpg"@
    ||| ext == "jpeg"@
    ||| ext == "svg"@
    ||| ext == "webp"@
}

/// Whether a file extension, in lower case, is that of a logo.
pub fn is_logo_file(extension: &str) -> (ok: bool)
    ensures
        ok == is_logo_extension(extension@),
{
    str_eq(extension, "png") || str_eq(extension, "jpg")
        || str_eq(extension, "jpeg") || str_eq(extension, "svg")
        || str_eq(extension, "webp")
}

} // verus!
