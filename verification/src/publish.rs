//! Publishing a file as a whole: the new contents are written beside the
//! destination and then renamed over it, so that whoever opens the
//! destination finds the previous contents or the new ones, and never a
//! part of either.

use vstd::prelude::*;
use vstd::string::StringExecFns;

verus! {

/// One step in the publication of a file.
#[derive(Debug, PartialEq, Eq)]
pub enum Step {
    /// Create the file at the path, or empty it, and write the bytes to
    /// it.
    Write(String, Vec<u8>),
    /// Rename the file at the first path to the second, in place of
    /// whatever is there.
    Rename(String, String),
}

/// The files of a directory tree: the contents at each path that holds a
/// file.
pub type Files = Map<Seq<char>, Seq<u8>>;

/// The path of the temporary file for a destination: beside it, with a
/// tilde at the end of the name.
pub open spec fn temp_of(dest: Seq<char>) -> Seq<char> {
    dest + "~"@
}

/// The files while the temporary file is being written and holds the
/// first `k` of the bytes.
pub open spec fn while_writing(files: Files, dest: Seq<char>, bytes: Seq<u8>, k: int) -> Files {
    files.insert(temp_of(dest), bytes.take(k))
}

/// The files once the temporary file has been renamed over the
/// destination.
pub open spec fn once_renamed(files: Files, dest: Seq<char>, bytes: Seq<u8>) -> Files {
    files.remove(temp_of(dest)).insert(dest, bytes)
}

/// The path of the temporary file for a destination.
pub fn temp_path(dest: &str) -> (r: String)
    ensures
        r@ == temp_of(dest@),
{
    let mut temp = String::from_str(dest);
    temp.append("~");
    temp
}

/// The steps that publish `bytes` at `dest`: write them to the temporary
/// file, then rename it over the destination.
pub fn publish_steps(dest: &str, bytes: Vec<u8>) -> (r: Vec<Step>)
    ensures
        r@.len() == 2,
        r@[0] matches Step::Write(path, written) && path@ == temp_of(dest@) && written@ == bytes@,
        r@[1] matches Step::Rename(from, to) && from@ == temp_of(dest@) && to@ == dest@,
{
    let mut steps: Vec<Step> = Vec::new();
    steps.push(Step::Write(temp_path(dest), bytes));
    steps.push(Step::Rename(temp_path(dest), String::from_str(dest)));
    steps
}

/// At every instant of a publication the destination holds what it held
/// before, if it held anything, and after the rename it holds the new
/// contents, whole. The temporary file is gone then.
pub proof fn law_atomic_publish(files: Files, dest: Seq<char>, bytes: Seq<u8>, k: int)
    requires
        0 <= k <= bytes.len(),
    ensures
        temp_of(dest) != dest,
        while_writing(files, dest, bytes, k).contains_key(dest) == files.contains_key(dest),
        files.contains_key(dest) ==> while_writing(files, dest, bytes, k)[dest] == files[dest],
        once_renamed(files, dest, bytes).contains_key(dest),
        once_renamed(files, dest, bytes)[dest] == bytes,
        !once_renamed(files, dest, bytes).contains_key(temp_of(dest)),
{
    assert(temp_of(dest).len() == dest.len() + "~"@.len());
    reveal_strlit("~");
}

/// Publishing one file leaves every other file as it was.
pub proof fn law_publish_is_local(
    files: Files,
    dest: Seq<char>,
    bytes: Seq<u8>,
    k: int,
    other: Seq<char>,
)
    requires
        0 <= k <= bytes.len(),
        other != dest,
        other != temp_of(dest),
    ensures
        while_writing(files, dest, bytes, k).contains_key(other) == files.contains_key(other),
        once_renamed(files, dest, bytes).contains_key(other) == files.contains_key(other),
        files.contains_key(other) ==> while_writing(files, dest, bytes, k)[other] == files[other]
            && once_renamed(files, dest, bytes)[other] == files[other],
{
}

} // verus!
