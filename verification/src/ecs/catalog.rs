//! The vendor catalog: which worker image serves which vendor.

use crate::errors::models::{AppError, AppErrorView};
use vstd::prelude::*;

verus! {

/// The image of the worker for Bloomberg data.
pub const BLOOMBERG_IMAGE: &'static str = "public.ecr.aws/soi/bloomberg-worker:latest";

/// The catalog as a function: the image of a vendor, `None` for a vendor
/// that the catalog does not hold. A new vendor is one more line here and
/// one more in [`resolve_image`].
pub open spec fn catalog_image(vendor: Seq<char>) -> Option<Seq<char>> {
    if vendor == "bloomberg"@ {
        Some(BLOOMBERG_IMAGE@)
    } else {
        None
    }
}

/// Looks a vendor up in the catalog. An unknown vendor is refused with the
/// vendor's name in the error.
pub fn resolve_image(vendor: &String) -> (resolved: Result<String, AppError>)
    ensures
        match catalog_image(vendor@) {
            Some(image) => resolved matches Ok(found) && found@ == image,
            None => resolved matches Err(error) && error@ == AppErrorView::UnsupportedVendor(
                vendor@,
            ),
        },
{
    if *vendor == "bloomberg".to_string() {
        Ok(BLOOMBERG_IMAGE.to_string())
    } else {
        Err(AppError::UnsupportedVendor(vendor.clone()))
    }
}

} // verus!
