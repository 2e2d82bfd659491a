//! Where a parsed file came from: its path and the character encoding that
//! was detected when it was read.  Both are supplied by the caller and
//! carried through unchanged.

use vstd::prelude::*;

verus! {

#[derive(Clone, Debug, PartialEq)]
pub struct FileInfo {
    pub path: Option<String>,
    pub encoding: Option<String>,
    pub text: Option<String>,
}

#[verifier::ext_equal]
pub struct FileInfoV {
    pub path: Option<Seq<char>>,
    pub encoding: Option<Seq<char>>,
    pub text: Option<Seq<char>>,
}

impl DeepView for FileInfo {
    type V = FileInfoV;

    open spec fn deep_view(&self) -> FileInfoV {
        FileInfoV {
            path: self.path.deep_view(),
            encoding: self.encoding.deep_view(),
            text: self.text.deep_view(),
        }
    }
}

pub open spec fn spec_file_info_empty() -> FileInfoV {
    FileInfoV { path: None, encoding: None, text: None }
}

impl Default for FileInfo {
    fn default() -> (r: FileInfo)
        ensures
            r.deep_view() == spec_file_info_empty(),
    {
        FileInfo { path: None, encoding: None, text: None }
    }
}

} // verus!
