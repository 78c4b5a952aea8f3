//! Options of compression and extraction.
use vstd::prelude::*;

verus! {

/// What to do when an extracted file already exists.
#[derive(Clone, Copy, Debug, PartialEq, Eq, Structural)]
pub enum OverwriteMode {
    /// Keep the existing file.
    Skip,
    /// Replace it.
    Overwrite,
    /// Let the caller decide.
    Ask,
}

/// Options of compression.
#[derive(Clone, Debug)]
pub struct CompressOptions {
    /// Compression level 0-9 (0 stores without compressing).
    pub level: u32,
    /// Password for AES-256 encryption.
    pub password: Option<String>,
    /// Replace an existing output file.
    pub overwrite: bool,
    /// Leave out hidden files and directories.
    pub skip_hidden: bool,
}

impl Default for CompressOptions {
    fn default() -> (r: Self)
        ensures
            r.level == 6,
            r.password is None,
            !r.overwrite,
            r.skip_hidden,
    {
        CompressOptions { level: 6, password: None, overwrite: false, skip_hidden: true }
    }
}

/// Options of extraction.
#[derive(Clone, Debug)]
pub struct ExtractOptions {
    pub password: Option<String>,
    pub overwrite: OverwriteMode,
}

impl Default for ExtractOptions {
    fn default() -> (r: Self)
        ensures
            r.password is None,
            r.overwrite == OverwriteMode::Skip,
    {
        ExtractOptions { password: None, overwrite: OverwriteMode::Skip }
    }
}

} // verus!
