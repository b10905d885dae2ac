//! Which script to run: the rules that lead from the scripts of a project and
//! the wishes of the user to a launch, with or without a question.

use vstd::prelude::*;
use crate::text::{ascending, contains, is_substring, same_text, sort_texts};

verus! {

/// Whether a script of this name is wanted: every script is if nothing is
/// searched for, else those whose name holds the searched text.
pub open spec fn is_wanted(name: Seq<char>, search: Option<Seq<char>>) -> bool {
    match search {
        Some(text) => is_substring(text, name),
        None => true,
    }
}

/// The scripts that are wanted, in the order in which they were given.
pub open spec fn matching<'a>(scripts: Seq<&'a str>, search: Option<Seq<char>>) -> Seq<&'a str> {
    scripts.filter(|script: &'a str| is_wanted(script@, search))
}

/// Whether one of the scripts has exactly this name.
pub open spec fn has_script<'a>(scripts: Seq<&'a str>, name: Seq<char>) -> bool {
    exists|i: int| 0 <= i < scripts.len() && #[trigger] scripts[i]@ == name
}

/// Whether the user asked for the immediate run of a script that exists.
pub open spec fn is_exact<'a>(scripts: Seq<&'a str>, search: Option<Seq<char>>, run_exact: bool) -> bool {
    run_exact && search is Some && has_script(scripts, search->0)
}

/// What to do about the scripts of a project.
#[derive(Debug)]
pub enum Launch<'a> {
    /// There is no script to run.
    Nothing,
    /// Run the script that the user named exactly.
    Exact(&'a str),
    /// Run the only script that is wanted.
    Only(&'a str),
    /// Let the user choose among these scripts.
    Choose(Vec<&'a str>),
}

/// The view of what was searched for.
pub open spec fn searched(search: Option<&str>) -> Option<Seq<char>> {
    match search {
        Some(text) => Some(text@),
        None => None,
    }
}

/// The scripts whose name holds the searched text, or all scripts if nothing
/// is searched for, in the order in which they were given.
pub fn find_matching<'a>(scripts: &Vec<&'a str>, search: Option<&str>) -> (found: Vec<&'a str>)
    ensures
        found@ == matching(scripts@, searched(search)),
{
    let mut found: Vec<&'a str> = Vec::new();
    let mut index: usize = 0;
    let ghost wanted = |script: &'a str| is_wanted(script@, searched(search));
    assert(scripts@.take(0) =~= Seq::empty());
    while index < scripts.len()
        invariant
            index <= scripts@.len(),
            wanted == |script: &'a str| is_wanted(script@, searched(search)),
            found@ == scripts@.take(index as int).filter(wanted),
        decreases scripts@.len() - index,
    {
        let script = scripts[index];
        let keep = match search {
            Some(text) => contains(script, text),
            None => true,
        };
        proof {
            assert(scripts@.take(index + 1) =~= scripts@.take(index as int).push(script));
            scripts@.take(index as int).lemma_filter_push(script, wanted);
        }
        if keep {
            found.push(script);
        }
        index += 1;
    }
    assert(scripts@.take(index as int) =~= scripts@);
    found
}

/// Whether one of the scripts has exactly this name.
pub fn find_exact(scripts: &Vec<&str>, name: &str) -> (found: bool)
    ensures
        found == has_script(scripts@, name@),
{
    let mut index: usize = 0;
    while index < scripts.len()
        invariant
            index <= scripts@.len(),
            forall|i: int| 0 <= i < index ==> scripts@[i]@ != name@,
        decreases scripts@.len() - index,
    {
        if same_text(scripts[index], name) {
            return true;
        }
        index += 1;
    }
    false
}

/// Decides what to do about the scripts of a project.
///
/// If the user asked for the immediate run of the searched script and a
/// script of exactly that name exists, that script runs. Else the wanted
/// scripts count: none means nothing to do, a single one runs without a
/// question, and several are put in ascending order for the user to choose.
pub fn plan<'a>(scripts: &Vec<&'a str>, search: Option<&'a str>, run_exact: bool) -> (launch:
    Launch<'a>)
    ensures
        match launch {
            Launch::Nothing => {
                &&& !is_exact(scripts@, searched(search), run_exact)
                &&& matching(scripts@, searched(search)).len() == 0
            },
            Launch::Exact(script) => {
                &&& is_exact(scripts@, searched(search), run_exact)
                &&& search == Some(script)
            },
            Launch::Only(script) => {
                &&& !is_exact(scripts@, searched(search), run_exact)
                &&& matching(scripts@, searched(search)) == seq![script]
            },
            Launch::Choose(offered) => {
                &&& !is_exact(scripts@, searched(search), run_exact)
                &&& matching(scripts@, searched(search)).len() >= 2
                &&& offered@.to_multiset() == matching(scripts@, searched(search)).to_multiset()
                &&& ascending(offered@)
            },
        },
{
    if run_exact {
        if let Some(name) = search {
            if find_exact(scripts, name) {
                return Launch::Exact(name);
            }
        }
    }
    let mut found = find_matching(scripts, search);
    if found.len() == 0 {
        Launch::Nothing
    } else if found.len() == 1 {
        assert(found@ =~= seq![found@[0]]);
        Launch::Only(found[0])
    } else {
        sort_texts(&mut found);
        Launch::Choose(found)
    }
}

} // verus!
