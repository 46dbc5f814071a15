use vstd::prelude::*;

verus! {

/// Channel that requested the update, as the engine's wire layout tags it.
///
/// This bridge always asks for `Local`; the other variants exist so that the
/// tag's positional integer values line up with the engine's, which numbers
/// the variants from 0 in this order.
#[derive(Clone, Copy, PartialEq, Eq, Structural, Debug)]
pub enum SourceType {
    _Unknown,
    _Webserver,
    _Suricatta,
    _Downloader,
    Local,
    _ChunksDownloader,
}

impl SourceType {
    /// The integer the engine's layout uses for this tag.
    pub open spec fn code_spec(self) -> u32 {
        match self {
            SourceType::_Unknown => 0,
            SourceType::_Webserver => 1,
            SourceType::_Suricatta => 2,
            SourceType::_Downloader => 3,
            SourceType::Local => 4,
            SourceType::_ChunksDownloader => 5,
        }
    }

    /// The integer the engine's layout uses for this tag.
    pub fn code(self) -> (c: u32)
        ensures
            c == self.code_spec(),
    {
        match self {
            SourceType::_Unknown => 0,
            SourceType::_Webserver => 1,
            SourceType::_Suricatta => 2,
            SourceType::_Downloader => 3,
            SourceType::Local => 4,
            SourceType::_ChunksDownloader => 5,
        }
    }
}

} // verus!
