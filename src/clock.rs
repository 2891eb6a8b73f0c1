use vstd::prelude::*;

verus! {

/// Relies on chrono's `Local::now` and `format`: today's date in the local
/// time zone, written as in "Monday, December 15, 2025". It depends on the
/// clock, so nothing is stated of it.
#[verifier::external_body]
pub(crate) fn get_formatted_date() -> (r: String) {
    chrono::Local::now().format("%A, %B %d, %Y").to_string()
}

} // verus!
