//! Where a job's files live, and which of them outlive the job.

use vstd::prelude::*;
use vstd::string::*;

use crate::model::constant::{RESULT_FILE, RESULT_WITH_SUBS_FILE};
use crate::text::{str_eq, texts};

verus! {

/// The path of a job's working directory: `<root>/tmp/<code>`.
pub open spec fn code_dir_path(root: Seq<char>, code: Seq<char>) -> Seq<char> {
    root + "/tmp/"@ + code
}

/// The path of an entry of a job's working directory:
/// `<root>/tmp/<code>/<filename>`.
pub open spec fn file_path(root: Seq<char>, code: Seq<char>, filename: Seq<char>) -> Seq<char> {
    code_dir_path(root, code) + "/"@ + filename
}

/// The working directory of the job `code` under `root`.
pub fn get_code_dir(root: &str, code: &str) -> (path: String)
    ensures
        path@ == code_dir_path(root@, code@),
{
    let mut path = String::from_str(root);
    path.append("/tmp/");
    path.append(code);
    path
}

/// The path of `filename` in the working directory of the job `code`.
/// Every path of a job is derived from its code in this way; none is stored.
pub fn get_file_path(root: &str, code: &str, filename: &str) -> (path: String)
    ensures
        path@ == file_path(root@, code@, filename@),
{
    let mut path = get_code_dir(root, code);
    path.append("/");
    path.append(filename);
    path
}

/// A deliverable is one of the two final results; every other entry of a
/// working directory is scratch.
pub open spec fn is_deliverable(name: Seq<char>) -> bool {
    name == RESULT_FILE@ || name == RESULT_WITH_SUBS_FILE@
}

/// The entries that finalization removes.
pub open spec fn is_scratch() -> spec_fn(Seq<char>) -> bool {
    |name: Seq<char>| !is_deliverable(name)
}

/// The entries that finalization keeps.
pub open spec fn is_kept() -> spec_fn(Seq<char>) -> bool {
    |name: Seq<char>| is_deliverable(name)
}

/// Whether finalization keeps the entry `name`.
pub fn keeps(name: &str) -> (kept: bool)
    ensures
        kept == is_deliverable(name@),
{
    str_eq(name, RESULT_FILE) || str_eq(name, RESULT_WITH_SUBS_FILE)
}

/// Given the names of the entries of a job's working directory, the ones to
/// remove when the job is finalized: every entry but the deliverables, in
/// the order given.
pub fn delete_file_in_dir(entries: &Vec<String>) -> (doomed: Vec<String>)
    ensures
        texts(doomed@) == texts(entries@).filter(is_scratch()),
{
    let mut doomed: Vec<String> = Vec::new();
    let mut i: usize = 0;
    proof {
        reveal(Seq::filter);
        assert(texts(entries@.take(0)) =~= Seq::<Seq<char>>::empty());
        assert(texts(doomed@) =~= Seq::<Seq<char>>::empty());
    }
    while i < entries.len()
        invariant
            i <= entries.len(),
            texts(doomed@) == texts(entries@.take(i as int)).filter(is_scratch()),
        decreases entries.len() - i,
    {
        let ghost before = texts(entries@.take(i as int));
        proof {
            assert(texts(entries@.take(i as int + 1)) =~= before.push(entries@[i as int]@));
            before.lemma_filter_push(entries@[i as int]@, is_scratch());
        }
        if !keeps(entries[i].as_str()) {
            let ghost old_doomed = doomed@;
            doomed.push(entries[i].clone());
            proof {
                assert(texts(doomed@) =~= texts(old_doomed).push(entries@[i as int]@));
            }
        }
        i += 1;
    }
    proof {
        assert(entries@.take(entries.len() as int) =~= entries@);
    }
    doomed
}

/// What finalization leaves behind are deliverables only: of the entries of
/// a working directory, each one is either removed or a deliverable, and no
/// deliverable is removed.
pub proof fn lemma_cleanup_keeps_only_deliverables(entries: Seq<Seq<char>>)
    ensures
        forall|i: int|
            0 <= i < entries.filter(is_kept()).len() ==> is_deliverable(
                #[trigger] entries.filter(is_kept())[i],
            ),
        forall|i: int|
            0 <= i < entries.filter(is_scratch()).len() ==> !is_deliverable(
                #[trigger] entries.filter(is_scratch())[i],
            ),
        forall|name: Seq<char>| #[trigger]
            entries.contains(name) ==> (entries.filter(is_scratch()).contains(name)
                <==> !is_deliverable(name)),
        forall|name: Seq<char>| #[trigger]
            entries.contains(name) ==> (entries.filter(is_kept()).contains(name)
                <==> is_deliverable(name)),
        entries.filter(is_kept()).len() + entries.filter(is_scratch()).len() == entries.len(),
{
    broadcast use vstd::seq_lib::group_filter_ensures;

    lemma_filter_split(entries);
}

proof fn lemma_filter_split(entries: Seq<Seq<char>>)
    ensures
        entries.filter(is_kept()).len() + entries.filter(is_scratch()).len() == entries.len(),
    decreases entries.len(),
{
    reveal(Seq::filter);
    if entries.len() > 0 {
        lemma_filter_split(entries.drop_last());
    }
}

} // verus!
