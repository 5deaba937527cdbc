//! What the list operations keep across calls: reordering only permutes,
//! an appended item is found again, a patch is read back, and a removal
//! leaves no item under the removed uid.

use vstd::prelude::*;
use crate::prfitem::{PrfItem, opt_view};
use crate::profiles::{
    after_takes, first_main_uid, index_of_uid, is_active_file, is_main_type, is_patched,
    is_profile_name, is_protected_name, is_refreshed,
    lemma_index_of_uid_range, lemma_index_of_uid_scan, linked_uids, orphans, take_spec,
};

verus! {

/// No two items of a list carry the same uid.
pub open spec fn uids_unique(items: Seq<PrfItem>) -> bool {
    forall|i: int, j: int|
        0 <= i < items.len() && 0 <= j < items.len() && i != j && items[i].uid is Some
            ==> opt_view(#[trigger] items[i].uid) != opt_view(#[trigger] items[j].uid)
}

/// Moving an item to another item's place keeps the same items, each as
/// often as before, and puts the moved item at the target position.
pub proof fn law_reorder_permutes(items: Seq<PrfItem>, active: Seq<char>, over: Seq<char>)
    requires
        index_of_uid(items, Some(active)) >= 0,
        index_of_uid(items, Some(over)) >= 0,
    ensures
        ({
            let o = index_of_uid(items, Some(active));
            let n = index_of_uid(items, Some(over));
            let moved = items.remove(o).insert(n, items[o]);
            &&& moved.len() == items.len()
            &&& moved.to_multiset() == items.to_multiset()
            &&& moved[n] == items[o]
        }),
{
    broadcast use vstd::seq_lib::to_multiset_remove, vstd::seq_lib::to_multiset_insert;
    broadcast use vstd::multiset::group_multiset_axioms;
    broadcast use vstd::seq_lib::group_to_multiset_ensures;

    lemma_index_of_uid_range(items, Some(active));
    lemma_index_of_uid_range(items, Some(over));
    let o = index_of_uid(items, Some(active));
    let n = index_of_uid(items, Some(over));
    let moved = items.remove(o).insert(n, items[o]);
    assert(moved.to_multiset() == items.to_multiset().remove(items[o]).insert(items[o]));
    assert(items.contains(items[o]));
    assert(items.to_multiset().count(items[o]) > 0);
    assert(moved.to_multiset() =~= items.to_multiset());
}

/// Moving an item onto itself leaves the list as it was.
pub proof fn law_reorder_onto_itself(items: Seq<PrfItem>, id: Seq<char>)
    requires
        index_of_uid(items, Some(id)) >= 0,
    ensures
        ({
            let o = index_of_uid(items, Some(id));
            items.remove(o).insert(o, items[o]) == items
        }),
{
    lemma_index_of_uid_range(items, Some(id));
    let o = index_of_uid(items, Some(id));
    assert(items.remove(o).insert(o, items[o]) =~= items);
}

/// An item appended under a uid that the list did not hold is what a lookup
/// of that uid finds: the last one.
pub proof fn law_append_then_find(before: Seq<PrfItem>, after: Seq<PrfItem>)
    requires
        after.len() == before.len() + 1,
        after.take(before.len() as int) == before,
        after.last().uid is Some,
        index_of_uid(before, opt_view(after.last().uid)) == -1,
    ensures
        index_of_uid(after, opt_view(after.last().uid)) == before.len(),
{
    let u = opt_view(after.last().uid);
    lemma_index_of_uid_range(before, u);
    assert forall|j: int| 0 <= j < before.len() implies opt_view(#[trigger] after[j].uid) != u by {
        assert(after[j] == after.take(before.len() as int)[j]);
    }
    lemma_index_of_uid_scan(after, u, before.len() as int);
}

/// After a patch the uid still finds the same position, and the item there
/// reads back as the old item with the patch's fields.
pub proof fn law_patch_then_get(
    before: Seq<PrfItem>,
    after: Seq<PrfItem>,
    uid: Seq<char>,
    patch: PrfItem,
)
    requires
        index_of_uid(before, Some(uid)) >= 0,
        after.len() == before.len(),
        forall|j: int|
            0 <= j < before.len() && j != index_of_uid(before, Some(uid)) ==> after[j] == before[j],
        is_patched(after[index_of_uid(before, Some(uid))], before[index_of_uid(before, Some(uid))], patch),
    ensures
        index_of_uid(after, Some(uid)) == index_of_uid(before, Some(uid)),
        is_patched(after[index_of_uid(after, Some(uid))], before[index_of_uid(before, Some(uid))], patch),
{
    let k = index_of_uid(before, Some(uid));
    lemma_index_of_uid_range(before, Some(uid));
    assert forall|j: int| 0 <= j < k implies opt_view(#[trigger] after[j].uid) != Some(uid) by {
        assert(after[j] == before[j]);
    }
    lemma_index_of_uid_scan(after, Some(uid), k);
}

/// A patched item takes each of name, file, type, url, description, extra
/// data, selection, update time and option from the patch where the patch
/// sets it, keeps it where the patch does not, and keeps its uid, home page
/// and file contents.
pub proof fn law_patch_item_sets_each_field(new: PrfItem, each: PrfItem, patch: PrfItem)
    requires
        is_patched(new, each, patch),
    ensures
        patch.name is Some ==> new.name == patch.name,
        patch.name is None ==> new.name == each.name,
        patch.file is Some ==> new.file == patch.file,
        patch.file is None ==> new.file == each.file,
        patch.itype is Some ==> new.itype == patch.itype,
        patch.itype is None ==> new.itype == each.itype,
        patch.url is Some ==> new.url == patch.url,
        patch.url is None ==> new.url == each.url,
        patch.desc is Some ==> new.desc == patch.desc,
        patch.desc is None ==> new.desc == each.desc,
        patch.extra is Some ==> new.extra == patch.extra,
        patch.extra is None ==> new.extra == each.extra,
        patch.updated is Some ==> new.updated == patch.updated,
        patch.updated is None ==> new.updated == each.updated,
        patch.option is Some ==> new.option == patch.option,
        patch.option is None ==> new.option == each.option,
        patch.selected matches Some(v) ==> (new.selected matches Some(w) && w@ == v@),
        patch.selected is None ==> (new.selected is Some <==> each.selected is Some),
        patch.selected is None ==> (each.selected matches Some(v) ==> (new.selected matches Some(w) && w@ == v@)),
        new.uid == each.uid,
        new.home == each.home,
        new.file_data == each.file_data,
{
}

/// Refreshing an item with fresh file contents keeps the item's own file
/// name when it has one, whatever name the update carries; the update's name
/// is used only when the item has none, and `<uid>.yaml` when neither has one.
pub proof fn law_refresh_keeps_file_name(new: PrfItem, each: PrfItem, item: PrfItem, uid: Seq<char>)
    requires
        is_refreshed(new, each, item, uid),
        item.file_data is Some,
    ensures
        each.file matches Some(f) ==> opt_view(new.file) == Some(f@),
        each.file is None ==> (item.file matches Some(g) ==> opt_view(new.file) == Some(g@)),
        (each.file is None && item.file is None) ==> opt_view(new.file) == Some(uid + ".yaml"@),
{
}

/// The profile made active after the active one is removed is the first
/// `remote` or `local` item of the remaining list: no item before it has a
/// main type, and there is none only when no item has a main type.
pub proof fn law_first_main_profile_is_first(items: Seq<PrfItem>)
    ensures
        (forall|j: int| 0 <= j < items.len() ==> !is_main_type(#[trigger] items[j].itype))
            ==> first_main_uid(items) is None,
        (exists|i: int| 0 <= i < items.len() && is_main_type(#[trigger] items[i].itype)) ==> exists|i: int|
            0 <= i < items.len() && is_main_type(#[trigger] items[i].itype) && (forall|j: int|
                0 <= j < i ==> !is_main_type(#[trigger] items[j].itype)) && first_main_uid(items)
                == items[i].uid,
    decreases items.len(),
{
    if items.len() > 0 {
        let rest = items.drop_first();
        law_first_main_profile_is_first(rest);
        assert forall|j: int| 0 <= j < rest.len() implies rest[j] == items[j + 1] by {}
        if is_main_type(items[0].itype) {
            assert(forall|j: int| 0 <= j < 0 ==> !is_main_type(#[trigger] items[j].itype));
        } else {
            if forall|j: int| 0 <= j < items.len() ==> !is_main_type(#[trigger] items[j].itype) {
                assert forall|j: int| 0 <= j < rest.len() implies !is_main_type(#[trigger] rest[j].itype) by {
                    assert(rest[j] == items[j + 1]);
                }
            }
            if exists|i: int| 0 <= i < items.len() && is_main_type(#[trigger] items[i].itype) {
                let i0 = choose|i: int| 0 <= i < items.len() && is_main_type(#[trigger] items[i].itype);
                assert(i0 > 0);
                assert(rest[i0 - 1] == items[i0]);
                assert(is_main_type(rest[i0 - 1].itype));
                let i1 = choose|i: int|
                    0 <= i < rest.len() && is_main_type(#[trigger] rest[i].itype) && (forall|j: int|
                        0 <= j < i ==> !is_main_type(#[trigger] rest[j].itype)) && first_main_uid(rest)
                        == rest[i].uid;
                assert(rest[i1] == items[i1 + 1]);
                assert forall|j: int| 0 <= j < i1 + 1 implies !is_main_type(#[trigger] items[j].itype) by {
                    if j > 0 {
                        assert(rest[j - 1] == items[j]);
                    }
                }
                assert(is_main_type(items[i1 + 1].itype));
            }
        }
    }
}

/// Every item left after taking one out was in the list before, and at
/// most as many remain.
proof fn lemma_take_keeps_old(items: Seq<PrfItem>, t: Option<Seq<char>>)
    ensures
        take_spec(items, t).len() <= items.len(),
        forall|j: int| 0 <= j < take_spec(items, t).len() ==> items.contains(#[trigger] take_spec(items, t)[j]),
{
    lemma_index_of_uid_range(items, t);
    let k = index_of_uid(items, t);
    assert forall|j: int| 0 <= j < take_spec(items, t).len() implies items.contains(
        #[trigger] take_spec(items, t)[j],
    ) by {
        if k >= 0 {
            if j < k {
                assert(take_spec(items, t)[j] == items[j]);
            } else {
                assert(take_spec(items, t)[j] == items[j + 1]);
            }
        } else {
            assert(take_spec(items, t)[j] == items[j]);
        }
    }
}

/// The same holds after any run of removals.
proof fn lemma_takes_keep_old(items: Seq<PrfItem>, targets: Seq<Option<Seq<char>>>)
    ensures
        after_takes(items, targets).len() <= items.len(),
        forall|j: int|
            0 <= j < after_takes(items, targets).len() ==> items.contains(
                #[trigger] after_takes(items, targets)[j],
            ),
    decreases targets.len(),
{
    if targets.len() > 0 && targets[0] is None {
        lemma_takes_keep_old(items, targets.drop_first());
    } else if targets.len() > 0 {
        let first = take_spec(items, targets[0]);
        lemma_take_keeps_old(items, targets[0]);
        lemma_takes_keep_old(first, targets.drop_first());
        let rest = after_takes(items, targets);
        assert forall|j: int| 0 <= j < rest.len() implies items.contains(#[trigger] rest[j]) by {
            assert(first.contains(rest[j]));
            let i = choose|i: int| 0 <= i < first.len() && first[i] == rest[j];
            assert(items.contains(first[i]));
        }
    }
}

/// Taking an item out keeps the uids distinct.
proof fn lemma_take_keeps_unique(items: Seq<PrfItem>, t: Option<Seq<char>>)
    requires
        uids_unique(items),
    ensures
        uids_unique(take_spec(items, t)),
        t is Some ==> forall|j: int|
            0 <= j < take_spec(items, t).len() ==> opt_view(#[trigger] take_spec(items, t)[j].uid) != t,
{
    lemma_index_of_uid_range(items, t);
    let k = index_of_uid(items, t);
    let f = take_spec(items, t);
    if k >= 0 {
        assert forall|i: int, j: int|
            0 <= i < f.len() && 0 <= j < f.len() && i != j && f[i].uid is Some implies opt_view(
                #[trigger] f[i].uid,
            ) != opt_view(#[trigger] f[j].uid) by {
            let ii = if i < k { i } else { i + 1 };
            let jj = if j < k { j } else { j + 1 };
            assert(f[i] == items[ii]);
            assert(f[j] == items[jj]);
        }
        if t is Some {
            assert forall|j: int| 0 <= j < f.len() implies opt_view(#[trigger] f[j].uid) != t by {
                let jj = if j < k { j } else { j + 1 };
                assert(f[j] == items[jj]);
                assert(items[k].uid is Some);
            }
        }
    }
}

/// After a run of removals from a list with distinct uids, no item is left
/// under any uid that one of the removals named.
proof fn lemma_takes_remove_named(items: Seq<PrfItem>, targets: Seq<Option<Seq<char>>>)
    requires
        uids_unique(items),
    ensures
        forall|t: int, j: int|
            0 <= t < targets.len() && targets[t] is Some && 0 <= j < after_takes(items, targets).len()
                ==> opt_view(#[trigger] after_takes(items, targets)[j].uid) != #[trigger] targets[t],
    decreases targets.len(),
{
    if targets.len() > 0 {
        let tail = targets.drop_first();
        let first = if targets[0] is None { items } else { take_spec(items, targets[0]) };
        if targets[0] is Some {
            lemma_take_keeps_unique(items, targets[0]);
        }
        lemma_takes_remove_named(first, tail);
        lemma_takes_keep_old(first, tail);
        let rest = after_takes(items, targets);
        assert(rest == after_takes(first, tail));
        assert forall|t: int, j: int|
            0 <= t < targets.len() && targets[t] is Some && 0 <= j < rest.len() implies opt_view(
                #[trigger] rest[j].uid,
            ) != #[trigger] targets[t] by {
            if t == 0 {
                assert(first.contains(rest[j]));
                let i = choose|i: int| 0 <= i < first.len() && first[i] == rest[j];
                assert(opt_view(first[i].uid) != targets[0]);
            } else {
                assert(tail[t - 1] == targets[t]);
                assert(opt_view(after_takes(first, tail)[j].uid) != tail[t - 1]);
            }
        }
    }
}

/// Removing an item with its extensions, from a list whose uids are
/// distinct, leaves no item under its uid nor under the uid of any
/// extension it links to, leaves fewer items, and adds none that were not
/// there.
pub proof fn law_delete_removes_uid(items: Seq<PrfItem>, uid: Seq<char>)
    requires
        uids_unique(items),
        index_of_uid(items, Some(uid)) >= 0,
    ensures
        ({
            let k = index_of_uid(items, Some(uid));
            let targets = linked_uids(items[k], uid);
            let rest = after_takes(items, targets);
            &&& index_of_uid(rest, Some(uid)) == -1
            &&& forall|t: int|
                0 <= t < targets.len() && targets[t] is Some ==> index_of_uid(rest, #[trigger] targets[t])
                    == -1
            &&& rest.len() < items.len()
            &&& forall|j: int| 0 <= j < rest.len() ==> items.contains(#[trigger] rest[j])
        }),
{
    lemma_index_of_uid_range(items, Some(uid));
    let k = index_of_uid(items, Some(uid));
    let targets = linked_uids(items[k], uid);
    assert(targets[0] == Some(uid));
    let first = take_spec(items, targets[0]);
    assert(first == items.remove(k));
    lemma_takes_keep_old(first, targets.drop_first());
    assert(after_takes(items, targets) == after_takes(first, targets.drop_first()));
    let rest = after_takes(items, targets);
    lemma_takes_remove_named(items, targets);
    assert forall|t: int| 0 <= t < targets.len() && targets[t] is Some implies index_of_uid(
        rest,
        #[trigger] targets[t],
    ) == -1 by {
        assert forall|j: int| 0 <= j < rest.len() implies opt_view(#[trigger] rest[j].uid)
            != targets[t] by {}
        lemma_index_of_uid_scan(rest, targets[t], rest.len() as int);
    }
    assert(index_of_uid(rest, targets[0]) == -1);
    lemma_take_keeps_old(items, targets[0]);
    assert forall|j: int| 0 <= j < rest.len() implies items.contains(#[trigger] rest[j]) by {
        assert(first.contains(rest[j]));
        let i = choose|i: int| 0 <= i < first.len() && first[i] == rest[j];
        assert(items.contains(first[i]));
    }
}

/// A sweep of the profile directory removes exactly the profile-shaped
/// files among those it is given that no item uses and that are not the
/// global extension files.
pub proof fn law_sweep_spares_used_files(items: Seq<PrfItem>, files: Seq<String>)
    ensures
        forall|i: int|
            0 <= i < files.len() && is_profile_name((#[trigger] files[i])@) && !is_active_file(
                items,
                files[i]@,
            ) && !is_protected_name(files[i]@) ==> orphans(items, files).contains(files[i]),
        forall|i: int|
            0 <= i < orphans(items, files).len() ==> {
                let f = #[trigger] orphans(items, files)[i];
                &&& files.contains(f)
                &&& is_profile_name(f@)
                &&& !is_active_file(items, f@)
                &&& !is_protected_name(f@)
            },
        orphans(items, files).len() <= files.len(),
    decreases files.len(),
{
    if files.len() > 0 {
        let prev = files.drop_last();
        law_sweep_spares_used_files(items, prev);
        let o = orphans(items, files);
        assert forall|i: int|
            0 <= i < files.len() && is_profile_name((#[trigger] files[i])@) && !is_active_file(
                items,
                files[i]@,
            ) && !is_protected_name(files[i]@) implies o.contains(files[i]) by {
            if i < prev.len() {
                assert(prev[i] == files[i]);
                let j = choose|j: int| 0 <= j < orphans(items, prev).len() && orphans(items, prev)[j] == files[i];
                assert(o[j] == files[i]);
            } else {
                assert(o[o.len() - 1] == files[i]);
            }
        }
        assert forall|i: int| 0 <= i < o.len() implies files.contains(#[trigger] o[i]) by {
            if i < orphans(items, prev).len() {
                assert(o[i] == orphans(items, prev)[i]);
                let j = choose|j: int| 0 <= j < prev.len() && prev[j] == o[i];
                assert(files[j] == prev[j]);
            } else {
                assert(files[files.len() - 1] == o[i]);
            }
        }
    }
}

} // verus!
