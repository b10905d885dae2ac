//! The package managers whose scripts can be run, by name and by lockfile.

use vstd::prelude::*;
use crate::text::same_text;

verus! {

/// A package manager.
#[derive(Clone, Copy, Debug, PartialEq, Eq, Structural)]
pub enum PackageManager {
    Npm,
    Pnpm,
    Yarn,
    Bun,
}

/// The error for a name that is no package manager's.
#[derive(Clone, Copy, Debug, PartialEq, Eq, Structural)]
pub struct ParseManagerError;

impl PackageManager {
    /// The name of the manager, which is also the name of its program.
    pub open spec fn name(self) -> Seq<char> {
        match self {
            PackageManager::Npm => "npm"@,
            PackageManager::Pnpm => "pnpm"@,
            PackageManager::Yarn => "yarn"@,
            PackageManager::Bun => "bun"@,
        }
    }

    /// The name of the file that the manager leaves in a project to pin its
    /// dependencies.
    pub open spec fn lockfile_name(self) -> Seq<char> {
        match self {
            PackageManager::Npm => "package-lock.json"@,
            PackageManager::Pnpm => "pnpm-lock.yaml"@,
            PackageManager::Yarn => "yarn.lock"@,
            PackageManager::Bun => "bun.lockb"@,
        }
    }

    /// The manager that a name stands for, if any.
    pub open spec fn named(name: Seq<char>) -> Option<PackageManager> {
        if name == "npm"@ {
            Some(PackageManager::Npm)
        } else if name == "pnpm"@ {
            Some(PackageManager::Pnpm)
        } else if name == "yarn"@ {
            Some(PackageManager::Yarn)
        } else if name == "bun"@ {
            Some(PackageManager::Bun)
        } else {
            None
        }
    }

    /// Reads the name of a manager. Only the four names, in lower case, are
    /// accepted.
    pub fn from_str(s: &str) -> (parsed: Result<PackageManager, ParseManagerError>)
        ensures
            parsed == match PackageManager::named(s@) {
                Some(manager) => Ok::<PackageManager, ParseManagerError>(manager),
                None => Err(ParseManagerError),
            },
    {
        if same_text(s, "npm") {
            Ok(PackageManager::Npm)
        } else if same_text(s, "pnpm") {
            Ok(PackageManager::Pnpm)
        } else if same_text(s, "yarn") {
            Ok(PackageManager::Yarn)
        } else if same_text(s, "bun") {
            Ok(PackageManager::Bun)
        } else {
            Err(ParseManagerError)
        }
    }

    /// The name of the manager.
    pub fn as_str(&self) -> (name: &'static str)
        ensures
            name@ == self.name(),
    {
        match self {
            PackageManager::Npm => "npm",
            PackageManager::Pnpm => "pnpm",
            PackageManager::Yarn => "yarn",
            PackageManager::Bun => "bun",
        }
    }

    /// The name of the manager's lockfile.
    pub fn lockfile(&self) -> (name: &'static str)
        ensures
            name@ == self.lockfile_name(),
    {
        match self {
            PackageManager::Npm => "package-lock.json",
            PackageManager::Pnpm => "pnpm-lock.yaml",
            PackageManager::Yarn => "yarn.lock",
            PackageManager::Bun => "bun.lockb",
        }
    }

    /// The manager that governs a directory, if any: the first one in the
    /// search order whose lockfile is present. `present` says of each manager
    /// in the search order whether its lockfile is there.
    pub open spec fn governs(present: Seq<bool>) -> Option<PackageManager> {
        if present[0] {
            Some(PackageManager::Npm)
        } else if present[1] {
            Some(PackageManager::Yarn)
        } else if present[2] {
            Some(PackageManager::Pnpm)
        } else if present[3] {
            Some(PackageManager::Bun)
        } else {
            None
        }
    }

    /// The manager whose lockfile is looked for in a directory once the
    /// lockfiles of `misses` managers were not found there; none once all
    /// were looked for.
    pub open spec fn candidate_after(misses: nat) -> Option<PackageManager> {
        if misses == 0 {
            Some(PackageManager::Npm)
        } else if misses == 1 {
            Some(PackageManager::Yarn)
        } else if misses == 2 {
            Some(PackageManager::Pnpm)
        } else if misses == 3 {
            Some(PackageManager::Bun)
        } else {
            None
        }
    }

    /// Says which lockfile to look for next in a directory, after `misses`
    /// lockfiles were looked for in vain. A search that follows these answers
    /// and stops at the first lockfile it finds opens no file in vain.
    pub fn candidate(misses: usize) -> (manager: Option<PackageManager>)
        ensures
            manager == PackageManager::candidate_after(misses as nat),
    {
        let order = PackageManager::search_order();
        if misses < 4 {
            Some(order[misses])
        } else {
            None
        }
    }

    /// Decides which manager governs a directory from the lockfiles found in
    /// it, given in the search order.
    pub fn governing(present: [bool; 4]) -> (manager: Option<PackageManager>)
        ensures
            manager == PackageManager::governs(present@),
    {
        let order = PackageManager::search_order();
        let mut index: usize = 0;
        while index < 4
            invariant
                index <= 4,
                order@ == seq![
                    PackageManager::Npm,
                    PackageManager::Yarn,
                    PackageManager::Pnpm,
                    PackageManager::Bun,
                ],
                forall|i: int| 0 <= i < index ==> !present@[i],
            decreases 4 - index,
        {
            if present[index] {
                return Some(order[index]);
            }
            index += 1;
        }
        None
    }

    /// The managers in the order in which their lockfiles are looked for in a
    /// directory: the first one whose lockfile is there governs the project.
    pub fn search_order() -> (order: [PackageManager; 4])
        ensures
            order@ == seq![
                PackageManager::Npm,
                PackageManager::Yarn,
                PackageManager::Pnpm,
                PackageManager::Bun,
            ],
    {
        let order = [
            PackageManager::Npm,
            PackageManager::Yarn,
            PackageManager::Pnpm,
            PackageManager::Bun,
        ];
        assert(order@ =~= seq![
            PackageManager::Npm,
            PackageManager::Yarn,
            PackageManager::Pnpm,
            PackageManager::Bun,
        ]);
        order
    }
}

/// A search that asks for one candidate after the other and stops at the
/// first lockfile that is there finds the manager that governs the
/// directory: the candidate after `misses` misses, if its lockfile is the
/// first one present, and none if no lockfile is present.
pub proof fn lemma_candidates_lead_to_governing(present: Seq<bool>, misses: nat)
    requires
        present.len() == 4,
        misses <= 4,
        forall|i: int| 0 <= i < misses ==> !present[i],
        misses < 4 ==> present[misses as int],
    ensures
        PackageManager::candidate_after(misses) == PackageManager::governs(present),
{
}

/// Every manager is read back from its own name.
pub proof fn lemma_name_is_read_back(manager: PackageManager)
    ensures
        PackageManager::named(manager.name()) == Some(manager),
{
    reveal_strlit("npm");
    reveal_strlit("pnpm");
    reveal_strlit("yarn");
    reveal_strlit("bun");
    assert("npm"@.len() == 3);
    assert("bun"@.len() == 3);
    assert("pnpm"@.len() == 4);
    assert("yarn"@.len() == 4);
    assert("npm"@[0] == 'n');
    assert("bun"@[0] == 'b');
    assert("pnpm"@[0] == 'p');
    assert("yarn"@[0] == 'y');
}

} // verus!
