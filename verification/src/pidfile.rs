//! Process identifiers and the files that hold them.

use vstd::prelude::*;

use crate::text;
use crate::text::{chars_of, decimal_text, parse_u32_range, trim_range, NumberError};

verus! {

/// What a pid file holds for `pid`.
pub fn pid_text(pid: u32) -> (s: String)
    ensures
        s@ == text::decimal(pid as int),
{
    decimal_text(pid as u64)
}

/// The entry of the process file system that is there while `pid` lives.
pub open spec fn process_path_text(pid: u32) -> Seq<char> {
    "/proc/"@ + text::decimal(pid as int)
}

/// The entry of the process file system that is there while `pid` lives.
pub fn process_path(pid: u32) -> (s: String)
    ensures
        s@ == process_path_text(pid),
{
    "/proc/".to_string().concat(decimal_text(pid as u64).as_str())
}

/// `pid` in the signed form that signals are addressed with: the upper half of
/// the range stands for negative numbers.
pub open spec fn signed_pid(pid: u32) -> int {
    if pid <= i32::MAX {
        pid as int
    } else {
        pid as int - 0x1_0000_0000
    }
}

/// `pid` in the signed form that signals are addressed with.
pub fn raw_pid(pid: u32) -> (r: i32)
    ensures
        r as int == signed_pid(pid),
{
    assert(pid <= 0x7fff_ffffu32 ==> pid as i32 == pid) by (bit_vector);
    assert(pid > 0x7fff_ffffu32 ==> pid as i32 == pid - 0x1_0000_0000) by (bit_vector);
    #[verifier::truncate]
    (pid as i32)
}

/// What was found where a pid file should be.
#[derive(Clone, Debug)]
pub enum PidFile {
    /// There is no file.
    Absent,
    /// There is a file, and it could not be read.
    Unreadable,
    /// The file holds this text.
    Text(String),
}

/// Why a pid file does not say what the pid is.
#[derive(Clone, Copy, Debug, PartialEq, Eq, Structural)]
pub enum PidFileError {
    /// The file could not be read.
    Unreadable,
    /// The file does not hold a number.
    Malformed(NumberError),
}

impl PidFileError {
    /// The error in words.
    pub open spec fn text(self) -> Seq<char> {
        match self {
            PidFileError::Unreadable => "read pid file"@,
            PidFileError::Malformed(_) => "parse pid"@,
        }
    }

    /// The error in words.
    pub fn message(self) -> (m: &'static str)
        ensures
            m@ == self.text(),
    {
        match self {
            PidFileError::Unreadable => "read pid file",
            PidFileError::Malformed(_) => "parse pid",
        }
    }
}

/// What the text of a pid file says; white space around the number does not count.
pub open spec fn pid_of_text(s: Seq<char>) -> Result<Option<u32>, PidFileError> {
    match text::u32_of_text(text::trim(s)) {
        Ok(pid) => Ok(Some(pid)),
        Err(e) => Err(PidFileError::Malformed(e)),
    }
}

/// What a pid file says. That there is none is no error.
pub open spec fn pid_of_file(file: PidFile) -> Result<Option<u32>, PidFileError> {
    match file {
        PidFile::Absent => Ok(None),
        PidFile::Unreadable => Err(PidFileError::Unreadable),
        PidFile::Text(s) => pid_of_text(s@),
    }
}

/// The pid in a pid file, or `None` where there is no file.
pub fn read_pid(file: &PidFile) -> (r: Result<Option<u32>, PidFileError>)
    ensures
        r == pid_of_file(*file),
{
    match file {
        PidFile::Absent => Ok(None),
        PidFile::Unreadable => Err(PidFileError::Unreadable),
        PidFile::Text(s) => {
            let chars = chars_of(s.as_str());
            let (from, to) = trim_range(&chars);
            match parse_u32_range(&chars, from, to) {
                Ok(pid) => Ok(Some(pid)),
                Err(e) => Err(PidFileError::Malformed(e)),
            }
        },
    }
}

/// A pid file gives back the pid that was written to it, also where white
/// space (a line end, say) was put around it.
pub proof fn law_pid_reads_back(before: Seq<char>, pid: u32, after: Seq<char>)
    requires
        text::all_white_space(before),
        text::all_white_space(after),
    ensures
        pid_of_text(before + text::decimal(pid as int) + after) == Ok::<Option<u32>, PidFileError>(
            Some(pid),
        ),
{
    let s = text::decimal(pid as int);
    text::lemma_decimal(pid as int);
    text::law_decimal_reads_back(pid);
    assert(text::is_digit(s[0]));
    assert(text::is_digit(s[s.len() - 1]));
    text::lemma_trim_surrounded(before, s, after);
}

/// Different pids have different texts.
pub proof fn law_pid_text_is_injective(a: u32, b: u32)
    requires
        text::decimal(a as int) == text::decimal(b as int),
    ensures
        a == b,
{
    text::lemma_decimal(a as int);
    text::lemma_decimal(b as int);
}

/// The signed form of a pid is the same number to a machine: it fits in 31 bits and a
/// sign, and differs from the pid by nothing or by two to the thirty-second.
pub proof fn law_signed_pid(pid: u32)
    ensures
        -0x8000_0000 <= signed_pid(pid) < 0x8000_0000,
        signed_pid(pid) == pid || signed_pid(pid) + 0x1_0000_0000 == pid,
{
}

/// The entry of a process is below `/proc`, under the digits of its pid, so that
/// different processes have different entries.
pub proof fn law_process_entries(a: u32, b: u32)
    ensures
        process_path_text(a) == "/proc"@ + "/"@ + text::decimal(a as int),
        process_path_text(a) == process_path_text(b) ==> a == b,
{
    reveal_strlit("/proc/");
    reveal_strlit("/proc");
    reveal_strlit("/");
    assert("/proc/"@ == "/proc"@ + "/"@);
    let pa = process_path_text(a);
    let pb = process_path_text(b);
    assert(pa.skip(6) == text::decimal(a as int));
    assert(pb.skip(6) == text::decimal(b as int));
    if pa == pb {
        law_pid_text_is_injective(a, b);
    }
}

/// What is written to a pid file is read back from it.
pub proof fn law_written_pid_is_read(
    pid: u32,
    written: String,
    r: Result<Option<u32>, PidFileError>,
)
    requires
        call_ensures(pid_text, (pid,), written),
        call_ensures(read_pid, (&PidFile::Text(written),), r),
    ensures
        r == Ok::<Option<u32>, PidFileError>(Some(pid)),
{
    law_pid_reads_back(seq![], pid, seq![]);
    assert(seq![] + text::decimal(pid as int) + seq![] == text::decimal(pid as int));
}

/// A pid that is read stands in the file, as digits that stand for it, perhaps
/// behind a plus sign, with nothing but white space around them. That there is no
/// pid is said exactly of a file that is not there.
pub proof fn law_pid_is_in_the_file(file: PidFile, r: Result<Option<u32>, PidFileError>)
    requires
        call_ensures(read_pid, (&file,), r),
    ensures
        r == Ok::<Option<u32>, PidFileError>(None) <==> file is Absent,
        r == Err::<Option<u32>, PidFileError>(PidFileError::Unreadable) <==> file is Unreadable,
        match (file, r) {
            (PidFile::Text(s), Ok(Some(pid))) => exists|i: int, j: int|
                0 <= i <= j <= s@.len() && text::all_white_space(s@.take(i))
                    && text::all_white_space(s@.skip(j)) && text::u32_of_text(
                    #[trigger] s@.subrange(i, j),
                ) == Ok::<u32, NumberError>(pid),
            (PidFile::Text(s), Err(PidFileError::Malformed(e))) => exists|i: int, j: int|
                0 <= i <= j <= s@.len() && text::all_white_space(s@.take(i))
                    && text::all_white_space(s@.skip(j)) && (i < j ==> !text::is_white_space(s@[i])
                    && !text::is_white_space(s@[j - 1])) && text::u32_of_text(
                    #[trigger] s@.subrange(i, j),
                ) == Err::<u32, NumberError>(e),
            (PidFile::Text(_), _) => false,
            _ => true,
        },
{
    if let PidFile::Text(s) = file {
        let (i, j) = text::law_trim(s@);
        assert(s@.subrange(i, j) == text::trim(s@));
    }
}

/// The place of a process, and the number that signals to it carry.
pub proof fn law_process_is_addressed(pid: u32, path: String, raw: i32)
    requires
        call_ensures(process_path, (pid,), path),
        call_ensures(raw_pid, (pid,), raw),
    ensures
        path@ == "/proc"@ + "/"@ + text::decimal(pid as int),
        raw == pid || raw + 0x1_0000_0000 == pid,
{
    law_process_entries(pid, pid);
    law_signed_pid(pid);
}

} // verus!
