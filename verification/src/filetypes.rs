//! The formats of print file that the printer reads.

use vstd::prelude::*;
use crate::api_objects::FileMetadata;
use crate::printfile::JobError;
use crate::sl1::{opens_as, Sl1};
use crate::text::chars_of;

verus! {

/// A format of print file.
#[derive(Clone, Copy, Debug, PartialEq, Eq, Structural)]
pub enum SupportedFileTypes {
    SL1,
    GOO,
}

/// A sliced model in the GOO format. Files of this format are read as SL1
/// archives, so the type holds nothing.
#[derive(Clone, Copy, Debug)]
pub struct Goo {}

/// `c` is the letter `lower`, in either case.
pub open spec fn is_letter(c: char, lower: char, upper: char) -> bool {
    c == lower || c == upper
}

/// `input` is the extension `sl1`, in any mix of cases.
pub open spec fn names_sl1(input: Seq<char>) -> bool {
    &&& input.len() == 3
    &&& is_letter(input[0], 's', 'S')
    &&& is_letter(input[1], 'l', 'L')
    &&& input[2] == '1'
}

/// `input` is the extension `goo`, in any mix of cases.
pub open spec fn names_goo(input: Seq<char>) -> bool {
    &&& input.len() == 3
    &&& is_letter(input[0], 'g', 'G')
    &&& is_letter(input[1], 'o', 'O')
    &&& is_letter(input[2], 'o', 'O')
}

impl SupportedFileTypes {
    /// The format that the extension `input` names, whatever its case.
    pub fn from_str(input: &str) -> (result: Result<SupportedFileTypes, ()>)
        ensures
            result == if names_sl1(input@) {
                Ok::<SupportedFileTypes, ()>(SupportedFileTypes::SL1)
            } else if names_goo(input@) {
                Ok(SupportedFileTypes::GOO)
            } else {
                Err(())
            },
    {
        let chars = chars_of(input);
        if chars.len() != 3 {
            return Err(());
        }
        let (a, b, c) = (chars[0], chars[1], chars[2]);
        if (a == 's' || a == 'S') && (b == 'l' || b == 'L') && c == '1' {
            Ok(SupportedFileTypes::SL1)
        } else if (a == 'g' || a == 'G') && (b == 'o' || b == 'O') && (c == 'o' || c == 'O') {
            Ok(SupportedFileTypes::GOO)
        } else {
            Err(())
        }
    }

    /// The extension of files of this format.
    pub fn get_extension(&self) -> (extension: &'static str)
        ensures
            extension@ == match self {
                SupportedFileTypes::SL1 => "sl1"@,
                SupportedFileTypes::GOO => "goo"@,
            },
    {
        match self {
            SupportedFileTypes::SL1 => "sl1",
            SupportedFileTypes::GOO => "goo",
        }
    }

    /// Opens a print file of this format from its bytes. Both formats are
    /// read as SL1 archives.
    pub fn from_file(&self, file_data: FileMetadata, contents: Vec<u8>) -> (result: Result<
        Sl1,
        JobError,
    >)
        ensures
            opens_as(result, file_data, contents@),
    {
        match self {
            SupportedFileTypes::SL1 => Sl1::from_file(file_data, contents),
            SupportedFileTypes::GOO => Sl1::from_file(file_data, contents),
        }
    }
}

} // verus!
