use vstd::prelude::*;

verus! {

/// The two formats a saved machine state can be written in.
#[derive(Clone, Copy, Debug, PartialEq, Eq, Structural)]
pub enum SaveFile {
    Json,
    Bin,
}

impl SaveFile {
    pub open spec fn extension_spec(self) -> Seq<char> {
        match self {
            SaveFile::Json => ".sav.json"@,
            SaveFile::Bin => ".sav.bin"@,
        }
    }

    /// The file-name suffix of a save in this format.
    pub fn extension(&self) -> (r: &'static str)
        ensures
            r@ == self.extension_spec(),
    {
        match self {
            SaveFile::Json => ".sav.json",
            SaveFile::Bin => ".sav.bin",
        }
    }
}

} // verus!
