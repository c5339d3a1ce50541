//! Installing a binary: which of the unpacked files it is, under which
//! name it goes into the target directory, and whether it may go there.
//!
//! Copying the file and running it is the caller's. Where `install`
//! refuses there is no plan, and nothing is to be touched.

use vstd::prelude::*;
use crate::config::package::{BinaryInstall, BinaryInstallModel};
use crate::extract::{is_separator, texts, ExtractedSet};
use crate::registry::{InstalledState, InstalledStateModel};
use crate::text::{chars_of, is_listed, names_set};
use crate::version::{resolve, search_of, version_in, VersionError};

verus! {

/// Why a binary was not installed.
#[derive(Debug, Clone, Copy, PartialEq, Eq, Structural)]
pub enum InstallError {
    /// The file to install is not among those unpacked.
    MemberNotFound,
    /// A file of that name is in the target directory, and replacing it
    /// was not asked for.
    DestinationExists,
}

/// What to do to install a binary.
#[derive(Debug, Clone, PartialEq, Eq)]
pub struct InstallPlan {
    /// The unpacked file to copy.
    pub member: String,
    /// The name to copy it to in the target directory.
    pub file_name: String,
    /// Whether the copy takes the place of a file that is there.
    pub replaces: bool,
    /// The argument that makes the installed binary print its version.
    pub probe_arg: String,
}

/// `InstallPlan`, each text as the sequence of its characters.
pub struct InstallPlanModel {
    pub member: Seq<char>,
    pub file_name: Seq<char>,
    pub replaces: bool,
    pub probe_arg: Seq<char>,
}

impl View for InstallPlan {
    type V = InstallPlanModel;

    open spec fn view(&self) -> InstallPlanModel {
        InstallPlanModel {
            member: self.member@,
            file_name: self.file_name@,
            replaces: self.replaces,
            probe_arg: self.probe_arg@,
        }
    }
}

/// What follows the last separator of a path: the name of the file.
pub open spec fn base_name(path: Seq<char>) -> Seq<char>
    decreases path.len(),
{
    if path.len() == 0 {
        path
    } else if is_separator(path.last()) {
        Seq::empty()
    } else {
        base_name(path.drop_last()).push(path.last())
    }
}

/// A stretch of a path that reaches its end, holds no separator and
/// begins at the start or behind a separator is the name of the file.
proof fn lemma_base_name(path: Seq<char>, start: int)
    requires
        0 <= start <= path.len(),
        start == 0 || is_separator(path[start - 1]),
        forall|k: int| start <= k < path.len() ==> !is_separator(path[k]),
    ensures
        base_name(path) == path.subrange(start, path.len() as int),
    decreases path.len() - start,
{
    if path.len() == 0 {
        assert(path.subrange(start, path.len() as int) =~= path);
    } else if start == path.len() {
        assert(path.subrange(start, path.len() as int) =~= Seq::<char>::empty());
    } else {
        let front = path.drop_last();
        assert forall|k: int| start <= k < front.len() implies !is_separator(front[k]) by {
            assert(front[k] == path[k]);
        }
        lemma_base_name(front, start);
        assert(path.subrange(start, path.len() as int) =~= front.subrange(
            start,
            front.len() as int,
        ).push(path.last()));
    }
}

/// The name of the file that a path leads to.
pub fn base_name_of(path: &str) -> (r: String)
    ensures
        r@ == base_name(path@),
{
    let chars = chars_of(path);
    let n = chars.len();
    let mut start: usize = n;
    while start > 0 && !(chars[start - 1] == '/' || chars[start - 1] == '\\')
        invariant
            start <= n,
            n == chars@.len(),
            chars@ == path@,
            forall|k: int| start <= k < n ==> !is_separator(path@[k]),
        decreases start,
    {
        start -= 1;
    }
    proof {
        lemma_base_name(path@, start as int);
    }
    path.substring_char(start, n).to_owned()
}

/// The name under which a binary is installed: the name it is given, or
/// else the name of the file that is installed.
pub open spec fn destination_of(spec: BinaryInstallModel) -> Seq<char> {
    match spec.rename {
        Some(name) => name,
        None => base_name(spec.target),
    }
}

/// The name under which a binary is installed.
pub fn destination(spec: &BinaryInstall) -> (r: String)
    ensures
        r@ == destination_of(spec@),
{
    match &spec.rename {
        Some(name) => name.clone(),
        None => base_name_of(spec.target.as_str()),
    }
}

/// What `install` answers. `present` are the names of the files in the
/// target directory.
pub open spec fn install_outcome(
    members: Seq<Seq<char>>,
    spec: BinaryInstallModel,
    present: Set<Seq<char>>,
    overwrite: bool,
) -> Result<InstallPlanModel, InstallError> {
    let name = destination_of(spec);
    if !members.contains(spec.target) {
        Err(InstallError::MemberNotFound)
    } else if present.contains(name) && !overwrite {
        Err(InstallError::DestinationExists)
    } else {
        Ok(
            InstallPlanModel {
                member: spec.target,
                file_name: name,
                replaces: present.contains(name),
                probe_arg: spec.version.arg,
            },
        )
    }
}

/// Plans the install of a binary out of `set` into a directory that
/// holds the files `present`. A file that is there is replaced only
/// where `overwrite` asks for it.
pub fn install(set: &ExtractedSet, spec: &BinaryInstall, present: &Vec<String>, overwrite: bool) -> (r:
    Result<InstallPlan, InstallError>)
    ensures
        match install_outcome(set@, spec@, names_set(present@), overwrite) {
            Ok(plan) => r matches Ok(found) && found@ == plan,
            Err(error) => r matches Err(e) && e == error,
        },
{
    let members = set.members();
    let found = is_listed(members, spec.target.as_str());
    proof {
        let names = texts(members@);
        if found {
            let k = choose|k: int| 0 <= k < members@.len() && (#[trigger] members@[k])@ == spec.target@;
            assert(names[k] == spec.target@);
        }
        if names.contains(spec.target@) {
            let k = choose|k: int| 0 <= k < names.len() && names[k] == spec.target@;
            assert(members@[k]@ == spec.target@);
        }
    }
    if !found {
        return Err(InstallError::MemberNotFound);
    }
    let file_name = destination(spec);
    let replaces = is_listed(present, file_name.as_str());
    if replaces && !overwrite {
        return Err(InstallError::DestinationExists);
    }
    Ok(
        InstallPlan {
            member: spec.target.clone(),
            file_name,
            replaces,
            probe_arg: spec.version.arg.clone(),
        },
    )
}

/// A file that is in the target directory under the name of the binary
/// is never replaced unasked: the install is refused, with no plan to
/// act on, whatever the file and the binary hold. Where the file to
/// install is among those unpacked, the refusal is
/// `DestinationExists`, and asking for the replacement gives a plan
/// that says that it replaces.
pub proof fn lemma_destination_kept(
    members: Seq<Seq<char>>,
    spec: BinaryInstallModel,
    present: Set<Seq<char>>,
)
    requires
        present.contains(destination_of(spec)),
    ensures
        install_outcome(members, spec, present, false) is Err,
        members.contains(spec.target) ==> install_outcome(members, spec, present, false) == Err::<
            InstallPlanModel,
            InstallError,
        >(InstallError::DestinationExists),
        members.contains(spec.target) ==> (install_outcome(
            members,
            spec,
            present,
            true,
        ) matches Ok(plan) && plan.replaces),
{
}

/// What is recorded of an install, given what the binary printed.
pub open spec fn state_outcome(
    spec: BinaryInstallModel,
    path: Seq<char>,
    output: Seq<char>,
    now: u64,
) -> Result<InstalledStateModel, VersionError> {
    match version_in(search_of(spec.version.regex, output)) {
        Ok(version) => Ok(InstalledStateModel { version, path, installed_at: now }),
        Err(error) => Err(error),
    }
}

/// What to record of an install made at the time `now`: where the
/// binary is, and its version as read from `output`, which it printed
/// when asked.
pub fn installed_state(spec: &BinaryInstall, path: String, output: &str, now: u64) -> (r: Result<
    InstalledState,
    VersionError,
>)
    ensures
        match state_outcome(spec@, path@, output@, now) {
            Ok(state) => r matches Ok(found) && found@ == state,
            Err(error) => r matches Err(e) && e == error,
        },
{
    match resolve(&spec.version.to_spec(), output) {
        Ok(version) => Ok(InstalledState { version, path, installed_at: now }),
        Err(error) => Err(error),
    }
}

} // verus!
