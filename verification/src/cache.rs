//! The image cache: a flat directory whose file names are cache keys.
//!
//! The directory listing is the only index of the cache. This module turns
//! what a caller read from the directory into that listing, names the
//! temporary file of a download, and tells such leftovers from finished
//! entries.

use vstd::prelude::*;
use crate::error::IoError;
use crate::text::{chars_of, string_of};

verus! {

/// What reading one child of the cache directory gave.
#[derive(Debug, PartialEq, Eq)]
pub enum EntryRead {
    /// The file name of the child.
    Name(String),
    /// The file name of the child is not valid text.
    Undecodable,
    /// The child could not be read; the text says why.
    Failed(String),
}

/// What creating and opening the cache directory gave.
#[derive(Debug, PartialEq, Eq)]
pub enum DirectoryRead {
    /// The directory, or one of its ancestors, could not be created.
    NotCreated(String),
    /// The directory exists but could not be opened for listing.
    NotListed(String),
    /// The direct children, in the order in which the storage gave them.
    Children(Vec<EntryRead>),
}

impl EntryRead {
    /// The name that a readable child carries.
    pub open spec fn name(self) -> String
        recommends
            self is Name,
    {
        self->Name_0
    }

    /// The error that an unreadable child stands for.
    pub open spec fn error(self) -> IoError
        recommends
            !(self is Name),
    {
        match self {
            EntryRead::Failed(why) => IoError::ReadEntry(why),
            _ => IoError::UndecodableName,
        }
    }
}

/// Every child was read and has a name that is valid text.
pub open spec fn all_named(children: Seq<EntryRead>) -> bool {
    forall|i: int| 0 <= i < children.len() ==> (#[trigger] children[i]) is Name
}

/// `k` is the position of the first child without a usable name.
pub open spec fn first_unnamed(children: Seq<EntryRead>, k: int) -> bool {
    &&& 0 <= k < children.len()
    &&& !(children[k] is Name)
    &&& forall|i: int| 0 <= i < k ==> (#[trigger] children[i]) is Name
}

/// The names of the children, in their order.
pub open spec fn names_of(children: Seq<EntryRead>) -> Seq<String> {
    children.map_values(|child: EntryRead| child.name())
}

/// `listed` is the listing of a directory with these children: their names
/// where all of them have one, else the error of the first that has none.
pub open spec fn is_listing_of(
    listed: Result<Vec<String>, IoError>,
    children: Seq<EntryRead>,
) -> bool {
    match listed {
        Ok(names) => all_named(children) && names@ == names_of(children),
        Err(e) => exists|k: int| #[trigger] first_unnamed(children, k) && e == children[k].error(),
    }
}

/// The names of `children`, or the error of the first among them that has
/// no usable name.
fn collect_names(children: &Vec<EntryRead>) -> (listed: Result<Vec<String>, IoError>)
    ensures
        is_listing_of(listed, children@),
{
    let mut names: Vec<String> = Vec::new();
    let mut i: usize = 0;
    while i < children.len()
        invariant
            0 <= i <= children@.len(),
            forall|j: int| 0 <= j < i ==> (#[trigger] children@[j]) is Name,
            names@ == names_of(children@.take(i as int)),
        decreases children@.len() - i,
    {
        match &children[i] {
            EntryRead::Name(name) => {
                names.push(name.clone());
            },
            EntryRead::Undecodable => {
                assert(first_unnamed(children@, i as int));
                return Err(IoError::UndecodableName);
            },
            EntryRead::Failed(why) => {
                assert(first_unnamed(children@, i as int));
                return Err(IoError::ReadEntry(why.clone()));
            },
        }
        assert(children@.take(i + 1) == children@.take(i as int).push(children@[i as int]));
        i += 1;
    }
    assert(children@.take(i as int) == children@);
    Ok(names)
}

/// The listing of the cache directory: the names of all its direct children,
/// in the order in which they were read.
///
/// The listing fails when the directory could not be created or opened, and
/// when any child could not be read or has a name that is not valid text. The
/// first such child decides the error; no child is skipped.
pub fn list_entries(read: &DirectoryRead) -> (listed: Result<Vec<String>, IoError>)
    ensures
        read matches DirectoryRead::NotCreated(why) ==> listed == Err::<Vec<String>, IoError>(
            IoError::CreateDir(*why),
        ),
        read matches DirectoryRead::NotListed(why) ==> listed == Err::<Vec<String>, IoError>(
            IoError::ReadDir(*why),
        ),
        read matches DirectoryRead::Children(children) ==> is_listing_of(listed, children@),
        read matches DirectoryRead::Children(children) ==> (listed is Ok <==> all_named(
            children@,
        )),
{
    match read {
        DirectoryRead::NotCreated(why) => Err(IoError::CreateDir(why.clone())),
        DirectoryRead::NotListed(why) => Err(IoError::ReadDir(why.clone())),
        DirectoryRead::Children(children) => collect_names(children),
    }
}

/// A file of the cache, named by the cache directory and the file's name in
/// it. The two are kept apart because only the caller can join them into a
/// path of its platform.
#[derive(Debug, PartialEq, Eq)]
pub struct CachePath {
    /// The cache directory.
    pub dir: String,
    /// The name of the file inside the cache directory.
    pub name: String,
}

impl View for CachePath {
    type V = (Seq<char>, Seq<char>);

    open spec fn view(&self) -> (Seq<char>, Seq<char>) {
        (self.dir@, self.name@)
    }
}

impl CachePath {
    /// The file `name` in the cache directory `dir`.
    pub fn new(dir: &str, name: &str) -> (path: CachePath)
        ensures
            path@ == (dir@, name@),
    {
        CachePath { dir: dir.to_string(), name: name.to_string() }
    }

    /// A copy of this path.
    pub fn duplicate(&self) -> (path: CachePath)
        ensures
            path == *self,
    {
        CachePath { dir: self.dir.clone(), name: self.name.clone() }
    }

    /// The temporary file that a download of this file writes to: the same
    /// directory, the name with its extension replaced by `download`.
    pub fn temp(&self) -> (path: CachePath)
        ensures
            path@ == (self.dir@, spec_temp_name(self.name@)),
    {
        CachePath { dir: self.dir.clone(), name: temp_name(self.name.as_str()) }
    }
}

/// The position of the last `.` in `name`, or -1 where it has none.
pub open spec fn last_dot(name: Seq<char>) -> int
    decreases name.len(),
{
    if name.len() == 0 {
        -1
    } else if name.last() == '.' {
        name.len() - 1
    } else {
        last_dot(name.drop_last())
    }
}

/// The file name without its extension. The extension starts at the last
/// `.`; a name whose only `.` is its first character has no extension.
pub open spec fn stem(name: Seq<char>) -> Seq<char> {
    if last_dot(name) > 0 {
        name.subrange(0, last_dot(name))
    } else {
        name
    }
}

/// The name of the temporary file for a download to `name`.
pub open spec fn spec_temp_name(name: Seq<char>) -> Seq<char> {
    stem(name) + ".download"@
}

/// `name` has the form of a temporary download file.
pub open spec fn spec_is_download_marker(name: Seq<char>) -> bool {
    ".download"@.is_suffix_of(name)
}

/// `last_dot` finds the one position that holds a `.` and has none after it.
pub proof fn lemma_last_dot(name: Seq<char>, k: int)
    requires
        -1 <= k < name.len(),
        k >= 0 ==> name[k] == '.',
        forall|j: int| k < j < name.len() ==> name[j] != '.',
    ensures
        last_dot(name) == k,
    decreases name.len(),
{
    if name.len() > 0 && name.last() != '.' {
        lemma_last_dot(name.drop_last(), k);
    }
}

/// The name of the temporary file for a download to the file `name`: the
/// name with its extension replaced by `download`, or with `.download`
/// added where it has no extension.
pub fn temp_name(name: &str) -> (temp: String)
    ensures
        temp@ == spec_temp_name(name@),
{
    let chars = chars_of(name);
    let mut end: usize = chars.len();
    while end > 0 && chars[end - 1] != '.'
        invariant
            0 <= end <= chars@.len(),
            forall|j: int| end <= j < chars@.len() ==> chars@[j] != '.',
        decreases end,
    {
        end -= 1;
    }
    proof {
        lemma_last_dot(name@, end - 1);
    }
    let keep: usize = if end > 1 {
        end - 1
    } else {
        chars.len()
    };
    assert(name@.subrange(0, name@.len() as int) == name@);
    let mut temp = string_of(&chars, 0, keep);
    temp.append(".download");
    temp
}

/// Whether `name` has the form of a temporary download file, that is, ends
/// in `.download`. Such a file is what an interrupted download left behind
/// and is no finished cache entry.
pub fn is_download_marker(name: &str) -> (marker: bool)
    ensures
        marker == spec_is_download_marker(name@),
{
    let chars = chars_of(name);
    let suffix = chars_of(".download");
    if chars.len() < suffix.len() {
        return false;
    }
    let start: usize = chars.len() - suffix.len();
    let mut i: usize = 0;
    while i < suffix.len()
        invariant
            chars@ == name@,
            suffix@ == ".download"@,
            start + suffix@.len() == chars@.len() <= usize::MAX,
            0 <= i <= suffix@.len(),
            forall|j: int| 0 <= j < i ==> chars@[start + j] == suffix@[j],
        decreases suffix@.len() - i,
    {
        if chars[start + i] != suffix[i] {
            assert(name@.subrange(start as int, name@.len() as int)[i as int] != suffix@[i as int]);
            return false;
        }
        i += 1;
    }
    assert(name@.subrange(start as int, name@.len() as int) =~= suffix@);
    true
}

/// The finished entries among `names`: all but the temporary download
/// files, in their order.
pub fn completed_entries(names: &Vec<String>) -> (kept: Vec<String>)
    ensures
        kept@ == names@.filter(|name: String| !spec_is_download_marker(name@)),
{
    let ghost finished = |name: String| !spec_is_download_marker(name@);
    let mut kept: Vec<String> = Vec::new();
    let mut i: usize = 0;
    while i < names.len()
        invariant
            0 <= i <= names@.len(),
            finished == |name: String| !spec_is_download_marker(name@),
            kept@ == names@.take(i as int).filter(finished),
        decreases names@.len() - i,
    {
        proof {
            reveal(Seq::filter);
            assert(names@.take(i + 1).drop_last() == names@.take(i as int));
        }
        if !is_download_marker(names[i].as_str()) {
            kept.push(names[i].clone());
        }
        i += 1;
    }
    assert(names@.take(i as int) == names@);
    kept
}

/// The temporary file of a download always has the form that
/// `is_download_marker` recognises.
pub proof fn lemma_temp_name_is_marker(name: Seq<char>)
    ensures
        spec_is_download_marker(spec_temp_name(name)),
{
    let temp = spec_temp_name(name);
    assert(temp.subrange(temp.len() - ".download"@.len(), temp.len() as int) =~= ".download"@);
}

/// The extension of `name` is `download` already: replacing it changes
/// nothing.
pub open spec fn has_download_extension(name: Seq<char>) -> bool {
    last_dot(name) > 0 && name.subrange(last_dot(name), name.len() as int) == ".download"@
}

/// A download writes to another file than its destination, except where the
/// destination has the extension `download` itself: only then is the
/// temporary name the name of the destination.
pub proof fn lemma_temp_name_differs(name: Seq<char>)
    ensures
        spec_temp_name(name) == name <==> has_download_extension(name),
{
    reveal_strlit(".download");
    let k = last_dot(name);
    if k > 0 {
        lemma_last_dot_bounds(name);
        if has_download_extension(name) {
            assert(name.subrange(0, k) + name.subrange(k, name.len() as int) =~= name);
        }
        if spec_temp_name(name) == name {
            assert(name.subrange(k, name.len() as int) =~= ".download"@);
        }
    }
}

/// The last `.` lies inside the name.
proof fn lemma_last_dot_bounds(name: Seq<char>)
    ensures
        -1 <= last_dot(name) < name.len(),
    decreases name.len(),
{
    if name.len() > 0 && name.last() != '.' {
        lemma_last_dot_bounds(name.drop_last());
    }
}

} // verus!
