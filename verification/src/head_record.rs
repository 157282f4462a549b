//! What the document has put into the head of its page.

use vstd::prelude::*;

verus! {

/// The scripts that put elements into the head of a page, so that a page which replaces another
/// can be given the same head.
#[derive(Debug)]
pub struct HeadRecord {
    scripts: Vec<String>,
}

/// The texts of a list of scripts.
pub open spec fn texts(scripts: Seq<String>) -> Seq<Seq<char>> {
    scripts.map_values(|script: String| script@)
}

/// A record after one more script: a script it holds already changes nothing.
pub open spec fn remembering(record: Seq<Seq<char>>, script: Seq<char>) -> Seq<Seq<char>> {
    if record.contains(script) {
        record
    } else {
        record.push(script)
    }
}

/// An empty record after these scripts, one after the other.
pub open spec fn record_of(scripts: Seq<Seq<char>>) -> Seq<Seq<char>>
    decreases scripts.len(),
{
    if scripts.len() == 0 {
        seq![]
    } else {
        remembering(record_of(scripts.drop_last()), scripts.last())
    }
}

impl View for HeadRecord {
    type V = Seq<Seq<char>>;

    closed spec fn view(&self) -> Seq<Seq<char>> {
        texts(self.scripts@)
    }
}

impl Default for HeadRecord {
    fn default() -> (record: HeadRecord)
        ensures
            record@ == Seq::<Seq<char>>::empty(),
    {
        HeadRecord { scripts: Vec::new() }
    }
}

impl HeadRecord {
    /// No script is held twice.
    pub open spec fn wf(&self) -> bool {
        self@.no_duplicates()
    }

    /// Keeps a script, unless it is kept already.
    pub fn remember(&mut self, script: String)
        ensures
            final(self)@ == remembering(old(self)@, script@),
            old(self).wf() ==> final(self).wf(),
    {
        for i in 0..self.scripts.len()
            invariant
                self@ == old(self)@,
                forall|j: int| 0 <= j < i ==> self.scripts@[j]@ != script@,
        {
            if self.scripts[i] == script {
                assert(self@[i as int] == script@);
                return;
            }
        }
        proof {
            assert(!self@.contains(script@)) by {
                if self@.contains(script@) {
                    let j = self@.index_of(script@);
                }
            }
        }
        self.scripts.push(script);
        assert(self@ == old(self)@.push(script@));
    }

    /// The scripts, in the order in which each was first kept.
    pub fn scripts(&self) -> (scripts: Vec<String>)
        ensures
            texts(scripts@) == self@,
    {
        let scripts = self.scripts.clone();
        scripts
    }
}

/// Whatever is put into the head, and however often, the record holds every script exactly once.
pub proof fn every_script_is_kept_once(scripts: Seq<Seq<char>>)
    ensures
        record_of(scripts).no_duplicates(),
        record_of(scripts).to_set() == scripts.to_set(),
    decreases scripts.len(),
{
    if scripts.len() > 0 {
        let before = scripts.drop_last();
        let last = scripts.last();
        every_script_is_kept_once(before);
        let record = record_of(before);
        assert forall|script: Seq<char>|
            record_of(scripts).contains(script) == scripts.contains(script) by {
            assert(record.to_set().contains(script) == before.to_set().contains(script));
            if scripts.contains(script) {
                let i = scripts.index_of(script);
                if i < before.len() {
                    assert(before[i] == script);
                }
            }
            if !record.contains(last) {
                assert(record.push(last)[record.len() as int] == last);
                if record.contains(script) {
                    assert(record.push(last)[record.index_of(script)] == script);
                }
            }
        }
    }
}

/// Scripts stand in the record in the order in which each was first put in: if one stands before
/// another, it was put in before the other ever was.
pub proof fn scripts_keep_the_order_of_their_first_time(scripts: Seq<Seq<char>>, i: int, j: int)
    requires
        0 <= i < j < record_of(scripts).len(),
    ensures
        scripts.contains(record_of(scripts)[i]),
        scripts.contains(record_of(scripts)[j]),
        scripts.index_of_first(record_of(scripts)[i])->0 < scripts.index_of_first(
            record_of(scripts)[j],
        )->0,
    decreases scripts.len(),
{
    let before = scripts.drop_last();
    let last = scripts.last();
    let record = record_of(before);
    let all = record_of(scripts);
    every_script_is_kept_once(scripts);
    every_script_is_kept_once(before);
    assert(all.to_set().contains(all[i]));
    scripts.index_of_first_ensures(all[i]);
    scripts.index_of_first_ensures(all[j]);
    before.index_of_first_ensures(record[i]);
    if j < record.len() {
        scripts_keep_the_order_of_their_first_time(before, i, j);
        before.index_of_first_ensures(record[j]);
        let fj = scripts.index_of_first(all[j])->0;
        if fj < before.index_of_first(record[j])->0 {
            assert(before[fj] == record[j]);
        }
    } else {
        let fj = scripts.index_of_first(all[j])->0;
        if fj < before.len() {
            assert(before[fj] == last);
            assert(before.to_set().contains(last));
        }
    }
}

/// A page that replaces another gets at least the head that every page before it got, and in the
/// same order: more scripts only ever add to the end.
pub proof fn nothing_remembered_is_lost(scripts: Seq<Seq<char>>, more: Seq<Seq<char>>)
    ensures
        record_of(scripts).is_prefix_of(record_of(scripts + more)),
    decreases more.len(),
{
    if more.len() > 0 {
        nothing_remembered_is_lost(scripts, more.drop_last());
        assert((scripts + more).drop_last() =~= scripts + more.drop_last());
    }
}

/// Putting in again only what was put in before changes nothing: every replacement gets the same
/// head as the first.
pub proof fn scripts_put_in_again_change_nothing(scripts: Seq<Seq<char>>, again: Seq<Seq<char>>)
    requires
        again.to_set().subset_of(scripts.to_set()),
    ensures
        record_of(scripts + again) == record_of(scripts),
    decreases again.len(),
{
    if again.len() > 0 {
        let fewer = again.drop_last();
        assert(fewer.to_set().subset_of(again.to_set()));
        scripts_put_in_again_change_nothing(scripts, fewer);
        assert((scripts + again).drop_last() =~= scripts + fewer);
        assert(again.to_set().contains(again.last()));
        every_script_is_kept_once(scripts);
    }
}

/// The texts of scripts are theirs, in their order.
pub proof fn scripts_keep_their_texts(scripts: Seq<String>)
    ensures
        texts(scripts).len() == scripts.len(),
        forall|i: int| 0 <= i < scripts.len() ==> #[trigger] texts(scripts)[i] == scripts[i]@,
{
}

/// A script that is new is put last, and one that is not leaves the record as it is; either way it
/// is held from then on.
pub proof fn a_script_is_held_from_then_on(record: Seq<Seq<char>>, script: Seq<char>)
    ensures
        remembering(record, script).contains(script),
        record.is_prefix_of(remembering(record, script)),
        remembering(record, script).len() == record.len() + if record.contains(script) {
            0int
        } else {
            1int
        },
        remembering(remembering(record, script), script) == remembering(record, script),
{
    if !record.contains(script) {
        assert(record.push(script)[record.len() as int] == script);
    }
}

} // verus!
