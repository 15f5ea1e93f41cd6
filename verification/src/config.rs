use vstd::prelude::*;

verus! {

/// The command-line arguments as the argument parser hands them over, before
/// any further validation: the optional path of a file listing URLs, the
/// output directory, the URLs given directly, and whether the external
/// fallback tool should be tried on unsupported videos.
#[derive(Debug)]
pub struct RawCliArgs {
    pub from_file_path: Option<String>,
    pub output_dir: String,
    pub urls: Option<Vec<String>>,
    pub use_wrapper: bool,
}

} // verus!
