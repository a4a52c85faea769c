//! The retention sweep: what a daily cycle removes, and how long it then
//! sleeps.

use vstd::prelude::*;
use vstd::string::*;

use crate::database::{codes_of, expired_on, kept_on, TaskTable};
use crate::date::{date_from_string, expired, is_expired, ymd_day_number, Date};
use crate::model::task::TaskView;
use crate::text::texts;

verus! {

/// One sweep of the store on `today`: removes the rows dated a week ago or
/// earlier and leaves every other row untouched, in its place. Returns the
/// codes of the rows removed, each once, whose working directories are to go
/// too.
pub fn delete_data(table: &mut TaskTable, today: Date) -> (swept: Vec<String>)
    ensures
        final(table)@ == old(table)@.filter(kept_on(today)),
        texts(swept@) == codes_of(old(table)@.filter(expired_on(today))),
        texts(swept@).no_duplicates(),
{
    table.remove_expired(today)
}

/// A sweep removes exactly the rows dated a week ago or earlier: what is
/// left are rows of the store within the window, every row within the window
/// is left, and no other. A row dated on the cutoff day itself goes; a row
/// dated `today` stays.
pub proof fn lemma_sweep_is_exact(rows: Seq<TaskView>, today: Date)
    ensures
        forall|k: int|
            0 <= k < rows.filter(kept_on(today)).len() ==> {
                &&& !is_expired((#[trigger] rows.filter(kept_on(today))[k]).date, today)
                &&& rows.contains(rows.filter(kept_on(today))[k])
            },
        forall|i: int|
            0 <= i < rows.len() ==> (rows.filter(kept_on(today)).contains(#[trigger] rows[i])
                <==> !is_expired(rows[i].date, today)),
        forall|i: int|
            0 <= i < rows.len() ==> (rows.filter(expired_on(today)).contains(#[trigger] rows[i])
                <==> rows[i].date.days <= today.days - 7),
        forall|i: int|
            0 <= i < rows.len() && (#[trigger] rows[i]).date.days == today.days - 7
                ==> !rows.filter(kept_on(today)).contains(rows[i]),
        forall|i: int|
            0 <= i < rows.len() && (#[trigger] rows[i]).date == today ==> rows.filter(
                kept_on(today),
            ).contains(rows[i]),
{
    broadcast use vstd::seq_lib::group_filter_ensures;

    let kept = rows.filter(kept_on(today));
    let gone = rows.filter(expired_on(today));
    assert forall|i: int| 0 <= i < rows.len() implies (kept.contains(#[trigger] rows[i])
        <==> !is_expired(rows[i].date, today)) by {
        if kept.contains(rows[i]) {
            let k = choose|k: int| 0 <= k < kept.len() && kept[k] == rows[i];
            assert(kept_on(today)(kept[k]));
        }
        if !is_expired(rows[i].date, today) {
            assert(kept_on(today)(rows[i]));
            assert(rows.contains(rows[i]));
        }
    }
    assert forall|i: int| 0 <= i < rows.len() implies (gone.contains(#[trigger] rows[i])
        <==> rows[i].date.days <= today.days - 7) by {
        if gone.contains(rows[i]) {
            let k = choose|k: int| 0 <= k < gone.len() && gone[k] == rows[i];
            assert(expired_on(today)(gone[k]));
        }
        if is_expired(rows[i].date, today) {
            assert(expired_on(today)(rows[i]));
            assert(rows.contains(rows[i]));
        }
    }
    assert forall|k: int| 0 <= k < kept.len() implies {
        &&& !is_expired((#[trigger] kept[k]).date, today)
        &&& rows.contains(kept[k])
    } by {
        assert(kept_on(today)(kept[k]));
        assert(kept.contains(kept[k]));
        rows.lemma_filter_contains_rev(kept_on(today), kept[k]);
    }
}

/// The length of the part of a log file's name that carries its date: what
/// stands before the first full stop.
pub open spec fn stem_len(name: Seq<char>) -> nat
    decreases name.len(),
{
    if name.len() == 0 || name[0] == '.' {
        0
    } else {
        1 + stem_len(name.drop_first())
    }
}

/// The stem itself.
pub open spec fn stem(name: Seq<char>) -> Seq<char> {
    name.take(stem_len(name) as int)
}

proof fn lemma_stem_len(name: Seq<char>, n: int)
    requires
        0 <= n <= name.len(),
        forall|k: int| 0 <= k < n ==> name[k] != '.',
        n == name.len() || name[n] == '.',
    ensures
        stem_len(name) == n,
    decreases name.len(),
{
    if n > 0 {
        let rest = name.drop_first();
        assert forall|k: int| 0 <= k < n - 1 implies rest[k] != '.' by {
            assert(rest[k] == name[k + 1]);
        }
        lemma_stem_len(rest, n - 1);
    }
}

/// The stem of a log file's name.
pub fn logfile_stem(name: &str) -> (head: &str)
    ensures
        head@ == stem(name@),
{
    let n = name.unicode_len();
    let mut i: usize = 0;
    while i < n && name.get_char(i) != '.'
        invariant
            n == name@.len(),
            i <= n,
            forall|k: int| 0 <= k < i ==> name@[k] != '.',
        decreases n - i,
    {
        i += 1;
    }
    proof {
        lemma_stem_len(name@, i as int);
    }
    name.substring_char(0, i)
}

/// Whether a log file is to go on `today`, given the date that its stem
/// reads as, if it reads as one: files without a date stay.
pub fn logfile_verdict(dated: Option<Date>, today: Date) -> (old: bool)
    ensures
        old == (dated matches Some(date) && is_expired(date, today)),
{
    match dated {
        Some(date) => expired(date, today),
        None => false,
    }
}

/// Whether the log file `name` has left the retention window on `today`.
pub open spec fn logfile_expired(name: Seq<char>, today: Date) -> bool {
    ymd_day_number(stem(name)) matches Some(days) && days <= today.days - 7
}

/// The log files that have left the retention window on `today`.
pub open spec fn stale_on(today: Date) -> spec_fn(Seq<char>) -> bool {
    |name: Seq<char>| logfile_expired(name, today)
}

/// Given the names of the files of the log directory, the ones to remove on
/// `today`: those whose stem reads as a date a week ago or earlier, in the
/// order given.
pub fn delete_logfile(names: &Vec<String>, today: Date) -> (doomed: Vec<String>)
    ensures
        texts(doomed@) == texts(names@).filter(stale_on(today)),
{
    let ghost stale = stale_on(today);
    let mut doomed: Vec<String> = Vec::new();
    let mut i: usize = 0;
    proof {
        reveal(Seq::filter);
        assert(texts(doomed@) =~= texts(names@.take(0)).filter(stale));
    }
    while i < names.len()
        invariant
            i <= names.len(),
            stale == stale_on(today),
            texts(doomed@) == texts(names@.take(i as int)).filter(stale),
        decreases names.len() - i,
    {
        let ghost before = texts(names@.take(i as int));
        proof {
            assert(texts(names@.take(i as int + 1)) =~= before.push(names@[i as int]@));
            before.lemma_filter_push(names@[i as int]@, stale);
        }
        let dated = date_from_string(logfile_stem(names[i].as_str()));
        if logfile_verdict(dated, today) {
            let ghost earlier = doomed@;
            doomed.push(names[i].clone());
            proof {
                assert(texts(doomed@) =~= texts(earlier).push(names@[i as int]@));
            }
        }
        i += 1;
    }
    proof {
        assert(names@.take(names.len() as int) =~= names@);
    }
    doomed
}

} // verus!
