use vstd::prelude::*;

use crate::error::DownloadError;

verus! {

/// Category of object within a crawl snapshot. A manifest exists per snapshot
/// and data type, and the identifier below is its name inside the manifest
/// locator.
#[derive(Copy, Clone, PartialEq, Eq, Structural, Debug)]
pub enum DataType {
    Segment,
    Warc,
    Wat,
    Wet,
    Robotstxt,
    Non200responses,
    CcIndex,
    CcIndexTable,
}

impl DataType {
    /// The identifier of this data type as it appears in manifest locators.
    pub open spec fn text(self) -> Seq<char> {
        match self {
            DataType::Segment => "segment"@,
            DataType::Warc => "warc"@,
            DataType::Wat => "wat"@,
            DataType::Wet => "wet"@,
            DataType::Robotstxt => "robotstxt"@,
            DataType::Non200responses => "non200responses"@,
            DataType::CcIndex => "cc-index"@,
            DataType::CcIndexTable => "cc-index-table"@,
        }
    }

    pub fn as_str(&self) -> (r: &str)
        ensures
            r@ == self.text(),
    {
        match self {
            DataType::Segment => "segment",
            DataType::Warc => "warc",
            DataType::Wat => "wat",
            DataType::Wet => "wet",
            DataType::Robotstxt => "robotstxt",
            DataType::Non200responses => "non200responses",
            DataType::CcIndex => "cc-index",
            DataType::CcIndexTable => "cc-index-table",
        }
    }
}

/// Policy for mapping a locator to a local path under the destination root.
/// Exactly one mode is active per run.
#[derive(Copy, Clone, PartialEq, Eq, Structural, Debug)]
pub enum NamingMode {
    /// Mirror the locator's path hierarchy under the root.
    FullPath,
    /// Flatten to the locator's final path segment.
    FilesOnly,
    /// Use the ordinal index as the filename, with a fixed extension; output
    /// is flat by construction and no directories are created.
    Numbered,
}

/// The mode the two selection flags pick, when they are consistent.
pub open spec fn spec_naming_mode(numbered: bool, files_only: bool) -> NamingMode {
    if numbered {
        NamingMode::Numbered
    } else if files_only {
        NamingMode::FilesOnly
    } else {
        NamingMode::FullPath
    }
}

/// Picks the naming mode from the two selection flags. `numbered` and
/// `files_only` are mutually exclusive: selecting both is a configuration
/// error, reported before any task is dispatched.
pub fn naming_mode_of(numbered: bool, files_only: bool) -> (r: Result<
    NamingMode,
    DownloadError,
>)
    ensures
        r is Err <==> (numbered && files_only),
        r is Err ==> r->Err_0 is Configuration,
        r matches Ok(m) ==> m == spec_naming_mode(numbered, files_only),
{
    if numbered && files_only {
        Err(DownloadError::Configuration(String::from_str(
            "the numbered and files-only naming modes are mutually exclusive",
        )))
    } else if numbered {
        Ok(NamingMode::Numbered)
    } else if files_only {
        Ok(NamingMode::FilesOnly)
    } else {
        Ok(NamingMode::FullPath)
    }
}

/// Command-line surface of the program, as handed over by the collaborator
/// that parses arguments. Paths arrive as plain strings.
pub struct Cli {
    pub command: Option<Commands>,
}

pub enum Commands {
    /// Fetch the manifest of one snapshot and data type into `dst`.
    DownloadPaths { snapshot: String, data_type: DataType, dst: String },
    /// Fetch every file named by a local manifest into `dst`.
    Download {
        path_file: String,
        dst: String,
        files_only: bool,
        numbered: bool,
        threads: usize,
        retries: usize,
        progress: bool,
    },
}

} // verus!
