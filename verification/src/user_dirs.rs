//! The user's standard directories, as the `dirs` crate finds them. They
//! depend on the environment and the platform, so nothing is stated of
//! them; the library only decides what to do with what comes back.
use vstd::prelude::*;

verus! {

/// `dirs::home_dir`, as text. Nothing is stated.
#[verifier::external_body]
pub(crate) fn home_dir() -> (r: Option<String>) {
    dirs::home_dir().map(|p| p.to_string_lossy().to_string())
}

/// `dirs::desktop_dir`, as text. Nothing is stated.
#[verifier::external_body]
pub(crate) fn desktop_dir() -> (r: Option<String>) {
    dirs::desktop_dir().map(|p| p.to_string_lossy().to_string())
}

/// `dirs::document_dir`, as text. Nothing is stated.
#[verifier::external_body]
pub(crate) fn document_dir() -> (r: Option<String>) {
    dirs::document_dir().map(|p| p.to_string_lossy().to_string())
}

/// `dirs::download_dir`, as text. Nothing is stated.
#[verifier::external_body]
pub(crate) fn download_dir() -> (r: Option<String>) {
    dirs::download_dir().map(|p| p.to_string_lossy().to_string())
}

/// `dirs::config_dir`, as text. Nothing is stated.
#[verifier::external_body]
pub(crate) fn config_dir() -> (r: Option<String>) {
    dirs::config_dir().map(|p| p.to_string_lossy().to_string())
}

/// `dirs::data_dir`, as text. Nothing is stated.
#[verifier::external_body]
pub(crate) fn data_dir() -> (r: Option<String>) {
    dirs::data_dir().map(|p| p.to_string_lossy().to_string())
}

} // verus!
