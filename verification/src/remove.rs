//! The `remove` command's reading of its arguments.

use vstd::prelude::*;
use crate::text::texts_of;

verus! {

/// The command that removes packages from the direct dependencies.
pub struct Remove;

/// What the command does with its arguments.
#[derive(Clone, Debug, PartialEq, Eq)]
pub enum RemovePlan {
    /// There are no arguments: show the help and stop.
    ShowHelp,
    /// Remove these packages, in this order.
    Remove(Vec<String>),
}

/// The arguments that name packages: all but the word `add`.
pub open spec fn package_arguments(args: Seq<Seq<char>>) -> Seq<Seq<char>> {
    args.filter(|arg: Seq<char>| arg != "add"@)
}

impl Remove {
    /// Reads the arguments.
    pub fn plan(args: &Vec<String>) -> (r: RemovePlan)
        ensures
            match r {
                RemovePlan::ShowHelp => args@.len() == 0,
                RemovePlan::Remove(packages) => args@.len() > 0 && texts_of(packages@)
                    == package_arguments(texts_of(args@)),
            },
    {
        if args.len() == 0 {
            return RemovePlan::ShowHelp;
        }
        let ghost texts = texts_of(args@);
        let ghost wanted = |arg: Seq<char>| arg != "add"@;
        let skipped = "add".to_owned();
        let mut packages: Vec<String> = Vec::new();
        let mut i: usize = 0;
        while i < args.len()
            invariant
                i <= args@.len(),
                texts == texts_of(args@),
                wanted == |arg: Seq<char>| arg != "add"@,
                skipped@ == "add"@,
                texts_of(packages@) == texts.take(i as int).filter(wanted),
            decreases args@.len() - i,
        {
            proof {
                assert(texts.take(i + 1).drop_last() == texts.take(i as int));
                reveal(Seq::filter);
            }
            if !(args[i] == skipped) {
                packages.push(args[i].clone());
                proof {
                    assert(texts_of(packages@) == texts.take(i as int).filter(wanted).push(
                        texts[i as int],
                    ));
                }
            }
            i += 1;
        }
        proof {
            assert(texts.take(i as int) == texts);
        }
        RemovePlan::Remove(packages)
    }
}

} // verus!
