//! Unpacking a fetched artifact: which files come out of it, and whether
//! every one of them stays below the directory it is unpacked into.
//!
//! Reading the archive and writing the files is the caller's. Nothing is
//! to be written before `extract` has said that every member is safe.

use vstd::prelude::*;
use crate::config::package::{text_option_model, ExtractType};
use crate::text::chars_of;

verus! {

/// A release asset that was found for a package.
#[derive(Debug, Clone, PartialEq, Eq)]
pub struct FetchedArtifact {
    /// The name of the downloaded file.
    pub file_name: String,
    /// Where it was downloaded from.
    pub url: String,
    /// The version of the release, where the pattern found one.
    pub version: Option<String>,
    /// The text of the release that was searched for the version: to be
    /// shown where none was found.
    pub probe: String,
}

impl FetchedArtifact {
    /// A copy that holds the same.
    pub fn duplicate(&self) -> (r: FetchedArtifact)
        ensures
            r@ == self@,
    {
        FetchedArtifact {
            file_name: self.file_name.clone(),
            url: self.url.clone(),
            version: match &self.version {
                Some(version) => Some(version.clone()),
                None => None,
            },
            probe: self.probe.clone(),
        }
    }
}

/// `FetchedArtifact`, each text as the sequence of its characters.
pub struct FetchedArtifactModel {
    pub file_name: Seq<char>,
    pub url: Seq<char>,
    pub version: Option<Seq<char>>,
    pub probe: Seq<char>,
}

impl View for FetchedArtifact {
    type V = FetchedArtifactModel;

    open spec fn view(&self) -> FetchedArtifactModel {
        FetchedArtifactModel {
            file_name: self.file_name@,
            url: self.url@,
            version: text_option_model(self.version),
            probe: self.probe@,
        }
    }
}

/// Why an artifact was not unpacked.
#[derive(Debug, Clone, Copy, PartialEq, Eq, Structural)]
pub enum ExtractError {
    /// The archive could not be read.
    CorruptArchive,
    /// The member at this place would leave the directory.
    UnsafePath(usize),
}

/// A character that parts the components of a path.
pub open spec fn is_separator(c: char) -> bool {
    c == '/' || c == '\\'
}

/// At `i` the path holds a component `..`.
pub open spec fn climbs_at(path: Seq<char>, i: int) -> bool {
    &&& 0 <= i
    &&& i + 2 <= path.len()
    &&& path[i] == '.'
    &&& path[i + 1] == '.'
    &&& (i == 0 || is_separator(path[i - 1]))
    &&& (i + 2 == path.len() || is_separator(path[i + 2]))
}

/// A letter that can name a drive.
pub open spec fn is_drive_letter(c: char) -> bool {
    ('a' <= c && c <= 'z') || ('A' <= c && c <= 'Z')
}

/// The path begins with the name of a drive, as in `C:`.
pub open spec fn has_drive_prefix(path: Seq<char>) -> bool {
    path.len() >= 2 && is_drive_letter(path[0]) && path[1] == ':'
}

/// A path that stays below the directory it is taken from: it is not
/// empty, does not start at the root or on a drive, and never steps up.
pub open spec fn safe_path(path: Seq<char>) -> bool {
    &&& path.len() > 0
    &&& !is_separator(path[0])
    &&& !has_drive_prefix(path)
    &&& forall|i: int| !climbs_at(path, i)
}

/// Whether a path stays below the directory it is taken from.
pub fn is_safe_path(path: &str) -> (r: bool)
    ensures
        r == safe_path(path@),
{
    let chars = chars_of(path);
    let n = chars.len();
    if n == 0 {
        return false;
    }
    if chars[0] == '/' || chars[0] == '\\' {
        return false;
    }
    let first = chars[0];
    if n >= 2 && chars[1] == ':' && (('a' <= first && first <= 'z') || ('A' <= first && first
        <= 'Z')) {
        return false;
    }
    let mut i: usize = 0;
    while i < n - 1
        invariant
            n >= 1,
            n == chars@.len(),
            chars@ == path@,
            forall|k: int| 0 <= k < i ==> !climbs_at(path@, k),
        decreases n - i,
    {
        if chars[i] == '.' && chars[i + 1] == '.' {
            let starts = i == 0 || chars[i - 1] == '/' || chars[i - 1] == '\\';
            let ends = i + 2 == n || chars[i + 2] == '/' || chars[i + 2] == '\\';
            if starts && ends {
                assert(climbs_at(path@, i as int));
                return false;
            }
        }
        i += 1;
    }
    true
}

/// The first place of `names`, at `from` or behind it, whose path is
/// not safe.
pub open spec fn unsafe_from(names: Seq<Seq<char>>, from: int) -> Option<int>
    decreases names.len() - from,
{
    if from < 0 || from >= names.len() {
        None
    } else if !safe_path(names[from]) {
        Some(from)
    } else {
        unsafe_from(names, from + 1)
    }
}

/// The members that a listing gives: all of them, unless one of them
/// is not safe.
pub open spec fn members_outcome(names: Seq<Seq<char>>) -> Result<Seq<Seq<char>>, ExtractError> {
    match unsafe_from(names, 0) {
        None => Ok(names),
        Some(i) => Err(ExtractError::UnsafePath(i as usize)),
    }
}

/// What comes out of an artifact of this file name.
pub open spec fn extract_outcome(
    file_name: Seq<char>,
    mode: Option<ExtractType>,
    listing: Option<Seq<Seq<char>>>,
) -> Result<Seq<Seq<char>>, ExtractError> {
    match mode {
        None => members_outcome(seq![file_name]),
        Some(ExtractType::Tar) => match listing {
            None => Err(ExtractError::CorruptArchive),
            Some(names) => members_outcome(names),
        },
    }
}

/// Every path is safe.
pub open spec fn all_safe(names: Seq<Seq<char>>) -> bool {
    forall|k: int| 0 <= k < names.len() ==> safe_path(#[trigger] names[k])
}

/// The texts of `names`.
pub open spec fn texts(names: Seq<String>) -> Seq<Seq<char>> {
    Seq::new(names.len(), |i: int| names[i]@)
}

/// The files that came out of an artifact, by their paths below the
/// directory they were unpacked into. Every path is safe.
#[derive(Debug, PartialEq, Eq)]
pub struct ExtractedSet {
    members: Vec<String>,
}

impl View for ExtractedSet {
    type V = Seq<Seq<char>>;

    closed spec fn view(&self) -> Seq<Seq<char>> {
        texts(self.members@)
    }
}

impl ExtractedSet {
    #[verifier::type_invariant]
    spec fn every_member_safe(self) -> bool {
        all_safe(texts(self.members@))
    }

    /// The paths of the members.
    pub fn members(&self) -> (r: &Vec<String>)
        ensures
            texts(r@) == self@,
            all_safe(self@),
    {
        proof {
            use_type_invariant(self);
        }
        &self.members
    }

    /// The set of the files with these paths, if every path is safe;
    /// else the place of the first that is not.
    pub fn of_members(names: Vec<String>) -> (r: Result<ExtractedSet, ExtractError>)
        ensures
            match members_outcome(texts(names@)) {
                Ok(members) => r matches Ok(set) && set@ == members,
                Err(error) => r matches Err(e) && e == error,
            },
    {
        let mut i: usize = 0;
        while i < names.len()
            invariant
                i <= names@.len(),
                unsafe_from(texts(names@), 0) == unsafe_from(texts(names@), i as int),
                forall|k: int| 0 <= k < i ==> safe_path(#[trigger] texts(names@)[k]),
            decreases names@.len() - i,
        {
            assert(texts(names@)[i as int] == names@[i as int]@);
            if !is_safe_path(names[i].as_str()) {
                return Err(ExtractError::UnsafePath(i));
            }
            i += 1;
        }
        Ok(ExtractedSet { members: names })
    }
}

/// The lines read so far, and the line that is being read.
pub open spec fn scan_lines(text: Seq<char>) -> (Seq<Seq<char>>, Seq<char>)
    decreases text.len(),
{
    if text.len() == 0 {
        (Seq::empty(), Seq::empty())
    } else {
        let (done, open) = scan_lines(text.drop_last());
        if text.last() == '\n' {
            if open.len() > 0 {
                (done.push(open), Seq::empty())
            } else {
                (done, Seq::empty())
            }
        } else {
            (done, open.push(text.last()))
        }
    }
}

/// The lines of a text, without those that are empty.
pub open spec fn lines_of(text: Seq<char>) -> Seq<Seq<char>> {
    let (done, open) = scan_lines(text);
    if open.len() > 0 {
        done.push(open)
    } else {
        done
    }
}

/// The members that an archive lists, from a listing that names one on
/// each line.
pub fn listed_members(listing: &str) -> (r: Vec<String>)
    ensures
        texts(r@) == lines_of(listing@),
{
    let chars = chars_of(listing);
    let n = chars.len();
    let mut out: Vec<String> = Vec::new();
    let mut start: usize = 0;
    let mut i: usize = 0;
    proof {
        assert(listing@.take(0) =~= Seq::<char>::empty());
        assert(texts(out@) =~= Seq::<Seq<char>>::empty());
        assert(listing@.subrange(0, 0) =~= Seq::<char>::empty());
    }
    while i < n
        invariant
            start <= i <= n,
            n == chars@.len(),
            chars@ == listing@,
            scan_lines(listing@.take(i as int)) == (
                texts(out@),
                listing@.subrange(start as int, i as int),
            ),
        decreases n - i,
    {
        let ghost before = texts(out@);
        proof {
            assert(listing@.take(i + 1).drop_last() =~= listing@.take(i as int));
            assert(listing@.take(i + 1).last() == listing@[i as int]);
        }
        if chars[i] == '\n' {
            if i > start {
                out.push(listing.substring_char(start, i).to_owned());
                proof {
                    assert(texts(out@) =~= before.push(listing@.subrange(start as int, i as int)));
                }
            }
            start = i + 1;
            proof {
                assert(listing@.subrange(start as int, i + 1) =~= Seq::<char>::empty());
            }
        } else {
            proof {
                assert(listing@.subrange(start as int, i + 1) =~= listing@.subrange(
                    start as int,
                    i as int,
                ).push(listing@[i as int]));
            }
        }
        i += 1;
    }
    proof {
        assert(listing@.take(n as int) =~= listing@);
    }
    let ghost before = texts(out@);
    if n > start {
        out.push(listing.substring_char(start, n).to_owned());
        proof {
            assert(texts(out@) =~= before.push(listing@.subrange(start as int, n as int)));
        }
    }
    out
}

/// What comes out of an artifact.
///
/// Without a way of unpacking the artifact is itself the one file that
/// comes out, under the name of the downloaded file. With `Tar`,
/// `listing` is what the archive lists as its members, or nothing where
/// the archive could not be read. Either way a path that is not safe is
/// refused, and then nothing is to be written.
pub fn extract(
    artifact: &FetchedArtifact,
    mode: Option<ExtractType>,
    listing: Option<Vec<String>>,
) -> (r: Result<ExtractedSet, ExtractError>)
    ensures
        match extract_outcome(artifact.file_name@, mode, listing_texts(listing)) {
            Ok(members) => r matches Ok(set) && set@ == members,
            Err(error) => r matches Err(e) && e == error,
        },
{
    match mode {
        None => {
            let mut names: Vec<String> = Vec::new();
            names.push(artifact.file_name.clone());
            assert(texts(names@) =~= seq![artifact.file_name@]);
            ExtractedSet::of_members(names)
        },
        Some(ExtractType::Tar) => match listing {
            None => Err(ExtractError::CorruptArchive),
            Some(names) => ExtractedSet::of_members(names),
        },
    }
}

/// The texts of a listing, where there is one.
pub open spec fn listing_texts(listing: Option<Vec<String>>) -> Option<Seq<Seq<char>>> {
    match listing {
        Some(names) => Some(texts(names@)),
        None => None,
    }
}

/// What stands before the first unsafe place is safe, and where there
/// is none every path is.
proof fn lemma_unsafe_from(names: Seq<Seq<char>>, from: int)
    requires
        0 <= from,
    ensures
        match unsafe_from(names, from) {
            Some(i) => from <= i < names.len() && !safe_path(names[i]) && forall|k: int|
                from <= k < i ==> safe_path(#[trigger] names[k]),
            None => forall|k: int| from <= k < names.len() ==> safe_path(#[trigger] names[k]),
        },
    decreases names.len() - from,
{
    if from < names.len() && safe_path(names[from]) {
        lemma_unsafe_from(names, from + 1);
    }
}

/// Of a listing with an unsafe path nothing comes out, wherever the
/// path stands and whatever stands beside it; and what comes out of a
/// listing is the listing itself, every path of it safe.
pub proof fn lemma_unsafe_member_refused(names: Seq<Seq<char>>)
    ensures
        members_outcome(names) is Ok <==> all_safe(names),
        members_outcome(names) matches Ok(members) ==> members == names,
        members_outcome(names) matches Err(error) ==> error is UnsafePath,
{
    lemma_unsafe_from(names, 0);
}

} // verus!
