//! The list of profiles: lookup, ordering, patching, removal, and the set of
//! files on disk that the list still refers to.

use vstd::prelude::*;
use crate::prfitem::{
    PrfItem, ProfileExtra, clone_opt_selected, clone_opt_option, clone_opt_string,
    opt_string_eq, opt_view, or_else, or_else_string, same_item, sel_eq,
};
use crate::text::str_eq;

verus! {

/// Kind of a stored profile: a local file or a remote subscription.
#[derive(Debug, Clone, Copy, PartialEq, Eq, Structural)]
pub enum ProfileType {
    File,
    Remote,
}

impl ProfileType {
    /// The default kind is a local file.
    pub fn default_type() -> (r: Self)
        ensures
            r == ProfileType::File,
    {
        ProfileType::File
    }
}

/// Metadata of one stored profile file.
pub struct Profile {
    pub id: String,
    pub name: String,
    pub file: String,
    pub type_: ProfileType,
    pub url: Option<String>,
    pub updated_at: Option<u64>,
    pub enabled: Option<bool>,
    pub order: Option<i32>,
    pub extra: ProfileExtra,
}

/// The profile list: the uid of the active profile and the items.
pub struct IProfiles {
    pub current: Option<String>,
    pub items: Option<Vec<PrfItem>>,
}

/// A summary of one profile for list views.
pub struct IProfilePreview {
    pub uid: String,
    pub name: String,
    pub is_current: bool,
}

/// What a sweep of the profile directory did.
pub struct CleanupResult {
    pub total_files: usize,
    pub deleted_files: Vec<String>,
    pub failed_deletions: Vec<String>,
}

/// A file that an operation on the list wants written to the profile directory.
pub struct ProfileFileWrite {
    pub file: String,
    pub data: String,
}

/// Why an operation on the profile list was refused.
pub enum ProfileError {
    /// The item to add has no uid.
    UidMissing,
    /// The item carries file contents but no file name.
    FileMissing,
    /// No item has the given uid.
    ItemNotFound(String),
    /// No item to patch has the given uid.
    PatchTargetNotFound(String),
    /// The active uid names no item.
    CurrentNotFound(String),
    /// The active item has no file.
    FileFieldMissing,
}

/// The items of a list; an absent list has none.
pub open spec fn items_of(p: IProfiles) -> Seq<PrfItem> {
    match p.items {
        Some(v) => v@,
        None => Seq::empty(),
    }
}

/// Index of the first item whose uid is `uid` (`None` matches an item without
/// uid), or -1.
pub open spec fn index_of_uid(items: Seq<PrfItem>, uid: Option<Seq<char>>) -> int
    decreases items.len(),
{
    if items.len() == 0 {
        -1
    } else if opt_view(items[0].uid) == uid {
        0
    } else {
        let r = index_of_uid(items.drop_first(), uid);
        if r < 0 {
            -1
        } else {
            r + 1
        }
    }
}

/// `index_of_uid` is -1 or the index of a matching item preceded by none.
pub proof fn lemma_index_of_uid_range(items: Seq<PrfItem>, uid: Option<Seq<char>>)
    ensures
        -1 <= index_of_uid(items, uid) < items.len(),
        index_of_uid(items, uid) >= 0 ==> opt_view(items[index_of_uid(items, uid)].uid) == uid,
        index_of_uid(items, uid) >= 0 ==> forall|j: int|
            0 <= j < index_of_uid(items, uid) ==> opt_view(#[trigger] items[j].uid) != uid,
        index_of_uid(items, uid) == -1 ==> forall|j: int|
            0 <= j < items.len() ==> opt_view(#[trigger] items[j].uid) != uid,
    decreases items.len(),
{
    if items.len() > 0 {
        lemma_index_of_uid_range(items.drop_first(), uid);
        assert forall|j: int| 1 <= j < items.len() implies items[j] == items.drop_first()[j - 1] by {}
    }
}

/// A first match found by scanning is what `index_of_uid` names.
pub proof fn lemma_index_of_uid_scan(items: Seq<PrfItem>, uid: Option<Seq<char>>, i: int)
    requires
        0 <= i <= items.len(),
        forall|j: int| 0 <= j < i ==> opt_view(#[trigger] items[j].uid) != uid,
    ensures
        i < items.len() && opt_view(items[i].uid) == uid ==> index_of_uid(items, uid) == i,
        i == items.len() ==> index_of_uid(items, uid) == -1,
    decreases i,
{
    if i > 0 {
        assert forall|j: int| 0 <= j < i - 1 implies opt_view(
            #[trigger] items.drop_first()[j].uid,
        ) != uid by {
            assert(items.drop_first()[j] == items[j + 1]);
        }
        lemma_index_of_uid_scan(items.drop_first(), uid, i - 1);
        assert(opt_view(items[0].uid) != uid);
        if i < items.len() {
            assert(items.drop_first()[i - 1] == items[i]);
        }
    }
}

/// Scans `items` for the first item whose uid is `uid`.
pub fn index_of_uid_in(items: &Vec<PrfItem>, uid: &Option<String>) -> (r: Option<usize>)
    ensures
        match r {
            Some(i) => i as int == index_of_uid(items@, opt_view(*uid)),
            None => index_of_uid(items@, opt_view(*uid)) == -1,
        },
        r matches Some(i) ==> i < items@.len(),
{
    let mut i: usize = 0;
    while i < items.len()
        invariant
            i <= items@.len(),
            forall|j: int| 0 <= j < i ==> opt_view(#[trigger] items@[j].uid) != opt_view(*uid),
        decreases items@.len() - i,
    {
        if opt_string_eq(&items[i].uid, uid) {
            proof {
                lemma_index_of_uid_scan(items@, opt_view(*uid), i as int);
            }
            return Some(i);
        }
        i = i + 1;
    }
    proof {
        lemma_index_of_uid_scan(items@, opt_view(*uid), i as int);
    }
    None
}

/// Scans `items` for the first item whose uid is the string `uid`.
pub fn index_of_str_uid(items: &Vec<PrfItem>, uid: &str) -> (r: Option<usize>)
    ensures
        match r {
            Some(i) => i as int == index_of_uid(items@, Some(uid@)),
            None => index_of_uid(items@, Some(uid@)) == -1,
        },
        r matches Some(i) ==> i < items@.len(),
{
    let mut i: usize = 0;
    while i < items.len()
        invariant
            i <= items@.len(),
            forall|j: int| 0 <= j < i ==> opt_view(#[trigger] items@[j].uid) != Some(uid@),
        decreases items@.len() - i,
    {
        let hit = match &items[i].uid {
            Some(u) => str_eq(u.as_str(), uid),
            None => false,
        };
        if hit {
            proof {
                lemma_index_of_uid_scan(items@, Some(uid@), i as int);
            }
            return Some(i);
        }
        i = i + 1;
    }
    proof {
        lemma_index_of_uid_scan(items@, Some(uid@), i as int);
    }
    None
}

/// The item kinds that count as main profiles.
pub open spec fn is_main_type(itype: Option<String>) -> bool {
    opt_view(itype) == Some("remote"@) || opt_view(itype) == Some("local"@)
}

/// Whether an item kind is `remote` or `local`.
pub fn is_main_item_type(itype: &Option<String>) -> (r: bool)
    ensures
        r == is_main_type(*itype),
{
    match itype {
        Some(t) => str_eq(t.as_str(), "remote") || str_eq(t.as_str(), "local"),
        None => false,
    }
}

impl ProfileError {
    /// The text of the error.
    pub fn message(&self) -> (r: String)
        ensures
            r@ == profile_error_text(*self),
    {
        match self {
            ProfileError::UidMissing => "the uid should not be null".to_owned(),
            ProfileError::FileMissing => "the file should not be null".to_owned(),
            ProfileError::ItemNotFound(uid) => {
                let mut s = "failed to get the profile item \"uid:".to_owned();
                s.append(uid.as_str());
                s.append("\"");
                s
            },
            ProfileError::PatchTargetNotFound(uid) => {
                let mut s = "failed to find the profile item \"uid:".to_owned();
                s.append(uid.as_str());
                s.append("\"");
                s
            },
            ProfileError::CurrentNotFound(uid) => {
                let mut s = "failed to find the current profile \"uid:".to_owned();
                s.append(uid.as_str());
                s.append("\"");
                s
            },
            ProfileError::FileFieldMissing => "failed to get the file field".to_owned(),
        }
    }
}

/// The text of each error.
pub open spec fn profile_error_text(e: ProfileError) -> Seq<char> {
    match e {
        ProfileError::UidMissing => "the uid should not be null"@,
        ProfileError::FileMissing => "the file should not be null"@,
        ProfileError::ItemNotFound(uid) => "failed to get the profile item \"uid:"@ + uid@ + "\""@,
        ProfileError::PatchTargetNotFound(uid) => "failed to find the profile item \"uid:"@ + uid@
            + "\""@,
        ProfileError::CurrentNotFound(uid) => "failed to find the current profile \"uid:"@ + uid@
            + "\""@,
        ProfileError::FileFieldMissing => "failed to get the file field"@,
    }
}

impl IProfiles {
    /// An empty list.
    pub fn new_empty() -> (r: Self)
        ensures
            r.current is None,
            r.items is None,
    {
        IProfiles { current: None, items: None }
    }

    /// The uid of the active profile.
    pub fn get_current(&self) -> (r: Option<&String>)
        ensures
            r is None <==> self.current is None,
            r matches Some(s) ==> self.current == Some(*s),
    {
        self.current.as_ref()
    }

    /// Whether `index` is the uid of the active profile.
    pub fn is_current_profile_index(&self, index: &String) -> (r: bool)
        ensures
            r == (opt_view(self.current) == Some(index@)),
    {
        match &self.current {
            Some(c) => *c == *index,
            None => false,
        }
    }

    /// The first item whose uid is `uid`.
    pub fn get_item(&self, uid: &str) -> (r: Result<&PrfItem, ProfileError>)
        ensures
            ({
                let k = index_of_uid(items_of(*self), Some(uid@));
                match r {
                    Ok(item) => k >= 0 && *item == items_of(*self)[k],
                    Err(e) => k == -1 && (e matches ProfileError::ItemNotFound(u) && u@ == uid@),
                }
            }),
    {
        match &self.items {
            Some(items) => {
                match index_of_str_uid(items, uid) {
                    Some(i) => {
                        return Ok(&items[i]);
                    },
                    None => {},
                }
            },
            None => {},
        }
        Err(ProfileError::ItemNotFound(uid.to_owned()))
    }

    /// The name of the first item whose uid is `uid`.
    pub fn get_name_by_uid(&self, uid: &String) -> (r: Option<&String>)
        ensures
            ({
                let k = index_of_uid(items_of(*self), Some(uid@));
                match r {
                    Some(n) => k >= 0 && items_of(*self)[k].name == Some(*n),
                    None => k == -1 || items_of(*self)[k].name is None,
                }
            }),
    {
        match &self.items {
            Some(items) => {
                match index_of_str_uid(items, uid.as_str()) {
                    Some(i) => items[i].name.as_ref(),
                    None => None,
                }
            },
            None => None,
        }
    }

    /// Makes `patch.current` the active profile when an item has that uid;
    /// an absent item list becomes an empty one.
    pub fn patch_config(&mut self, patch: &IProfiles)
        ensures
            final(self).items is Some,
            items_of(*final(self)) == items_of(*old(self)),
            old(self).items is Some ==> final(self).items == old(self).items,
            match patch.current {
                Some(c) => if index_of_uid(items_of(*old(self)), Some(c@)) >= 0 {
                    final(self).current == Some(c)
                } else {
                    final(self).current == old(self).current
                },
                None => final(self).current == old(self).current,
            },
    {
        if self.items.is_none() {
            self.items = Some(Vec::new());
        }
        match &patch.current {
            Some(c) => {
                let found = match &self.items {
                    Some(items) => index_of_str_uid(items, c.as_str()).is_some(),
                    None => false,
                };
                if found {
                    self.current = Some(c.clone());
                }
            },
            None => {},
        }
    }
}

/// `new` is `each` with every field that `patch` sets among name, file,
/// type, url, description, extra, selection, update time and option.
pub open spec fn is_patched(new: PrfItem, each: PrfItem, patch: PrfItem) -> bool {
    &&& new.uid == each.uid
    &&& new.name == or_else(patch.name, each.name)
    &&& new.file == or_else(patch.file, each.file)
    &&& new.itype == or_else(patch.itype, each.itype)
    &&& new.url == or_else(patch.url, each.url)
    &&& new.desc == or_else(patch.desc, each.desc)
    &&& new.extra == or_else(patch.extra, each.extra)
    &&& sel_eq(new.selected, if patch.selected is Some { patch.selected } else { each.selected })
    &&& new.updated == or_else(patch.updated, each.updated)
    &&& new.option == or_else(patch.option, each.option)
    &&& new.home == each.home
    &&& new.file_data == each.file_data
}

/// The file name that a refreshed item is stored under: its own, else the
/// one the update brings, else `<uid>.yaml`.
pub open spec fn updated_file_name(each: PrfItem, item: PrfItem, uid: Seq<char>) -> Seq<char> {
    match each.file {
        Some(f) => f@,
        None => match item.file {
            Some(f) => f@,
            None => uid + ".yaml"@,
        },
    }
}

/// `new` is `each` refreshed from `item`: extra data and update time come
/// from `item`, and fresh file contents give the item a file name.
pub open spec fn is_refreshed(new: PrfItem, each: PrfItem, item: PrfItem, uid: Seq<char>) -> bool {
    &&& new.uid == each.uid
    &&& new.itype == each.itype
    &&& new.name == each.name
    &&& new.desc == each.desc
    &&& new.url == each.url
    &&& new.selected == each.selected
    &&& new.file_data == each.file_data
    &&& new.extra == item.extra
    &&& new.updated == item.updated
    &&& new.home == each.home
    &&& new.option == each.option
    &&& if item.file_data is Some {
        opt_view(new.file) == Some(updated_file_name(each, item, uid))
    } else {
        new.file == each.file
    }
}

impl IProfiles {
    /// Checks an item about to be added and takes the file contents it
    /// carries; the returned write is due before the item is added.
    pub fn prepare_item_file(item: &mut PrfItem) -> (r: Result<Option<ProfileFileWrite>, ProfileError>)
        ensures
            old(item).uid is None ==> (r matches Err(ProfileError::UidMissing) && *final(item) == *old(item)),
            old(item).uid is Some ==> match old(item).file_data {
                None => r matches Ok(None) && *final(item) == *old(item),
                Some(d) => {
                    &&& final(item).file_data is None
                    &&& *final(item) == (PrfItem { file_data: None, ..*old(item) })
                    &&& match old(item).file {
                        None => r matches Err(ProfileError::FileMissing),
                        Some(f) => r matches Ok(Some(w)) && w.file == f && w.data == d,
                    }
                },
            },
    {
        if item.uid.is_none() {
            return Err(ProfileError::UidMissing);
        }
        match item.file_data.take() {
            Some(data) => {
                match &item.file {
                    Some(f) => Ok(Some(ProfileFileWrite { file: f.clone(), data })),
                    None => Err(ProfileError::FileMissing),
                }
            },
            None => Ok(None),
        }
    }

    /// Adds an item at the end of the list; a main profile becomes the active
    /// one when none is active. An item without uid is refused, and so is
    /// one that carries file contents but no file name (its contents are
    /// taken all the same). File contents are taken out of the item before it
    /// is stored and returned as the write that is due to the item's file.
    pub fn append_item(&mut self, item: &mut PrfItem) -> (r: Result<Option<ProfileFileWrite>, ProfileError>)
        ensures
            old(item).uid is None ==> {
                &&& r matches Err(ProfileError::UidMissing)
                &&& *final(self) == *old(self)
                &&& *final(item) == *old(item)
            },
            old(item).uid is Some ==> *final(item) == (PrfItem { file_data: None, ..*old(item) }),
            old(item).uid is Some && old(item).file_data is Some && old(item).file is None ==> {
                &&& r matches Err(ProfileError::FileMissing)
                &&& *final(self) == *old(self)
            },
            old(item).uid is Some && (old(item).file_data is None || old(item).file is Some) ==> {
                &&& match old(item).file_data {
                    Some(d) => r matches Ok(Some(w)) && Some(w.file) == old(item).file && w.data == d,
                    None => r matches Ok(None),
                }
                &&& final(self).items is Some
                &&& items_of(*final(self)).len() == items_of(*old(self)).len() + 1
                &&& items_of(*final(self)).take(items_of(*old(self)).len() as int) == items_of(*old(self))
                &&& same_item(items_of(*final(self)).last(), *final(item))
                &&& items_of(*final(self)).last().file_data is None
                &&& final(self).current == if old(self).current is None && is_main_type(old(item).itype) {
                    old(item).uid
                } else {
                    old(self).current
                }
            },
    {
        let write = match Self::prepare_item_file(item) {
            Ok(w) => w,
            Err(e) => {
                return Err(e);
            },
        };
        if self.current.is_none() && is_main_item_type(&item.itype) {
            self.current = clone_opt_string(&item.uid);
        }
        let ghost before = items_of(*self);
        let mut items = match self.items.take() {
            Some(v) => v,
            None => Vec::new(),
        };
        assert(items@ == before);
        items.push(item.duplicate());
        assert(items@.take(before.len() as int) =~= before);
        self.items = Some(items);
        Ok(write)
    }

    /// Moves the item with uid `active_id` to the position of the item with
    /// uid `over_id`. When either uid names no item nothing changes. Returns
    /// whether the list was reordered and is due to be saved.
    pub fn reorder(&mut self, active_id: &String, over_id: &String) -> (r: bool)
        ensures
            final(self).current == old(self).current,
            ({
                let items = items_of(*old(self));
                let o = index_of_uid(items, Some(active_id@));
                let n = index_of_uid(items, Some(over_id@));
                if o >= 0 && n >= 0 {
                    &&& r
                    &&& final(self).items is Some
                    &&& items_of(*final(self)) == items.remove(o).insert(n, items[o])
                } else {
                    !r && *final(self) == *old(self)
                }
            }),
    {
        let (old_index, new_index) = match &self.items {
            Some(items) => (index_of_str_uid(items, active_id.as_str()), index_of_str_uid(items, over_id.as_str())),
            None => (None, None),
        };
        match (old_index, new_index) {
            (Some(o), Some(n)) => {
                let ghost items0 = items_of(*self);
                let mut items = match self.items.take() {
                    Some(v) => v,
                    None => Vec::new(),
                };
                assert(items@ == items0);
                let item = items.remove(o);
                items.insert(n, item);
                self.items = Some(items);
                true
            },
            _ => false,
        }
    }

    /// Overwrites the fields that `patch` sets on the item with uid `uid`.
    /// Returns `Ok` when the item exists, and the list is then due to be saved.
    pub fn patch_item(&mut self, uid: &String, patch: &PrfItem) -> (r: Result<(), ProfileError>)
        ensures
            final(self).current == old(self).current,
            final(self).items is Some,
            ({
                let items = items_of(*old(self));
                let k = index_of_uid(items, Some(uid@));
                let now = items_of(*final(self));
                if k >= 0 {
                    &&& r is Ok
                    &&& now.len() == items.len()
                    &&& forall|j: int| 0 <= j < items.len() && j != k ==> now[j] == items[j]
                    &&& is_patched(now[k], items[k], *patch)
                } else {
                    &&& now == items
                    &&& (r matches Err(ProfileError::PatchTargetNotFound(u)) && u@ == uid@)
                }
            }),
    {
        let ghost items0 = items_of(*self);
        let mut items = match self.items.take() {
            Some(v) => v,
            None => Vec::new(),
        };
        assert(items@ == items0);
        match index_of_str_uid(&items, uid.as_str()) {
            Some(k) => {
                let mut each = items.remove(k);
                each.name = or_else_string(&patch.name, &each.name);
                each.file = or_else_string(&patch.file, &each.file);
                each.itype = or_else_string(&patch.itype, &each.itype);
                each.url = or_else_string(&patch.url, &each.url);
                each.desc = or_else_string(&patch.desc, &each.desc);
                if patch.extra.is_some() {
                    each.extra = patch.extra;
                }
                if patch.selected.is_some() {
                    each.selected = clone_opt_selected(&patch.selected);
                }
                if patch.updated.is_some() {
                    each.updated = patch.updated;
                }
                if patch.option.is_some() {
                    each.option = clone_opt_option(&patch.option);
                }
                items.insert(k, each);
                proof {
                    lemma_index_of_uid_range(items0, Some(uid@));
                    assert forall|j: int| 0 <= j < items0.len() && j != k implies items@[j]
                        == items0[j] by {
                        if j < k {
                            assert(items@[j] == items0.remove(k as int)[j]);
                        } else {
                            assert(items@[j] == items0.remove(k as int)[j - 1]);
                        }
                    }
                }
                self.items = Some(items);
                Ok(())
            },
            None => {
                self.items = Some(items);
                Err(ProfileError::PatchTargetNotFound(uid.clone()))
            },
        }
    }

    /// Refreshes the item with uid `uid` from `item`: only its extra data,
    /// update time and file change. Fresh file contents in `item` are taken
    /// and returned as a write to the item's file. An absent list becomes
    /// empty.
    pub fn update_item(&mut self, uid: &String, item: &mut PrfItem) -> (r: Result<
        Option<ProfileFileWrite>,
        ProfileError,
    >)
        ensures
            final(self).current == old(self).current,
            final(self).items is Some,
            ({
                let items = items_of(*old(self));
                let k = index_of_uid(items, Some(uid@));
                let now = items_of(*final(self));
                if k >= 0 {
                    &&& now.len() == items.len()
                    &&& forall|j: int| 0 <= j < items.len() && j != k ==> now[j] == items[j]
                    &&& is_refreshed(now[k], items[k], *old(item), uid@)
                    &&& final(item).file_data is None
                    &&& final(item).file == if old(item).file_data is Some && items[k].file is None {
                        None
                    } else {
                        old(item).file
                    }
                    &&& match old(item).file_data {
                        Some(d) => r matches Ok(Some(w)) && w.data == d && Some(w.file@) == opt_view(
                            now[k].file,
                        ),
                        None => r matches Ok(None),
                    }
                } else {
                    &&& now == items
                    &&& *final(item) == *old(item)
                    &&& (r matches Err(ProfileError::ItemNotFound(u)) && u@ == uid@)
                }
            }),
    {
        let ghost items0 = items_of(*self);
        let mut items = match self.items.take() {
            Some(v) => v,
            None => Vec::new(),
        };
        assert(items@ == items0);
        match index_of_str_uid(&items, uid.as_str()) {
            None => {
                self.items = Some(items);
                Err(ProfileError::ItemNotFound(uid.clone()))
            },
            Some(k) => {
                let mut each = items.remove(k);
                each.extra = item.extra;
                each.updated = item.updated;
                let write = match item.file_data.take() {
                    Some(data) => {
                        let file = match each.file.take() {
                            Some(f) => f,
                            None => match item.file.take() {
                                Some(f) => f,
                                None => {
                                    let mut name = uid.clone();
                                    name.append(".yaml");
                                    name
                                },
                            },
                        };
                        each.file = Some(file.clone());
                        Some(ProfileFileWrite { file, data })
                    },
                    None => None,
                };
                items.insert(k, each);
                proof {
                    lemma_index_of_uid_range(items0, Some(uid@));
                    assert forall|j: int| 0 <= j < items0.len() && j != k implies items@[j]
                        == items0[j] by {
                        if j < k {
                            assert(items@[j] == items0.remove(k as int)[j]);
                        } else {
                            assert(items@[j] == items0.remove(k as int)[j - 1]);
                        }
                    }
                }
                self.items = Some(items);
                Ok(write)
            },
        }
    }
}

/// The list after removing the first item whose uid is `target`.
pub open spec fn take_spec(items: Seq<PrfItem>, target: Option<Seq<char>>) -> Seq<PrfItem> {
    let k = index_of_uid(items, target);
    if k >= 0 {
        items.remove(k)
    } else {
        items
    }
}

/// The file of the item that `take_spec` removes.
pub open spec fn taken_file(items: Seq<PrfItem>, target: Option<Seq<char>>) -> Option<String> {
    let k = index_of_uid(items, target);
    if k >= 0 {
        items[k].file
    } else {
        None
    }
}

/// The list after removing, in turn, the first item for each target;
/// unset targets remove nothing.
pub open spec fn after_takes(items: Seq<PrfItem>, targets: Seq<Option<Seq<char>>>) -> Seq<PrfItem>
    decreases targets.len(),
{
    if targets.len() == 0 {
        items
    } else if targets[0] is None {
        after_takes(items, targets.drop_first())
    } else {
        after_takes(take_spec(items, targets[0]), targets.drop_first())
    }
}

/// The files of the items removed by `after_takes`, in order.
pub open spec fn taken_files(items: Seq<PrfItem>, targets: Seq<Option<Seq<char>>>) -> Seq<String>
    decreases targets.len(),
{
    if targets.len() == 0 {
        Seq::empty()
    } else if targets[0] is None {
        taken_files(items, targets.drop_first())
    } else {
        let rest = taken_files(take_spec(items, targets[0]), targets.drop_first());
        match taken_file(items, targets[0]) {
            Some(f) => seq![f] + rest,
            None => rest,
        }
    }
}

/// The uids an item's removal takes along: its own, then those of its merge,
/// script, rules, proxies and groups extensions (`None` where unset).
pub open spec fn linked_uids(item: PrfItem, uid: Seq<char>) -> Seq<Option<Seq<char>>> {
    match item.option {
        Some(o) => seq![
            Some(uid),
            opt_view(o.merge),
            opt_view(o.script),
            opt_view(o.rules),
            opt_view(o.proxies),
            opt_view(o.groups),
        ],
        None => seq![Some(uid), None, None, None, None, None],
    }
}

/// The uid of the first main profile of a list, if any.
pub open spec fn first_main_uid(items: Seq<PrfItem>) -> Option<String>
    decreases items.len(),
{
    if items.len() == 0 {
        None
    } else if is_main_type(items[0].itype) {
        items[0].uid
    } else {
        first_main_uid(items.drop_first())
    }
}

/// Removes the first item whose uid is `target` and returns its file.
pub fn take_item_file_by_uid(items: &mut Vec<PrfItem>, target: &Option<String>) -> (r: Option<String>)
    ensures
        final(items)@ == take_spec(old(items)@, opt_view(*target)),
        r == taken_file(old(items)@, opt_view(*target)),
{
    match index_of_uid_in(items, target) {
        Some(k) => {
            let item = items.remove(k);
            item.file
        },
        None => None,
    }
}

fn first_main_uid_of(items: &Vec<PrfItem>) -> (r: Option<String>)
    ensures
        r == first_main_uid(items@),
{
    let mut i: usize = 0;
    assert(items@.skip(0) =~= items@);
    while i < items.len()
        invariant
            i <= items@.len(),
            first_main_uid(items@) == first_main_uid(items@.skip(i as int)),
        decreases items@.len() - i,
    {
        assert(items@.skip(i as int)[0] == items@[i as int]);
        if is_main_item_type(&items[i].itype) {
            return clone_opt_string(&items[i].uid);
        }
        assert(items@.skip(i as int).drop_first() =~= items@.skip(i + 1));
        i = i + 1;
    }
    assert(items@.skip(i as int).len() == 0);
    None
}

/// The file names that are never swept from the profile directory.
pub open spec fn is_protected_name(name: Seq<char>) -> bool {
    name == "Merge.yaml"@ || name == "Script.js"@
}

/// The characters of each string.
pub open spec fn names(v: Seq<String>) -> Seq<Seq<char>> {
    v.map_values(|s: String| s@)
}

/// Appends a string and records it among the names.
pub fn push_name(v: &mut Vec<String>, s: String)
    ensures
        names(final(v)@) == names(old(v)@).push(s@),
        final(v)@ == old(v)@.push(s),
{
    v.push(s);
    assert(names(v@) =~= names(old(v)@).push(s@));
}

/// Whether a list of strings holds `s`.
pub fn contains_name(v: &Vec<String>, s: &str) -> (r: bool)
    ensures
        r == names(v@).contains(s@),
{
    let mut i: usize = 0;
    while i < v.len()
        invariant
            i <= v@.len(),
            forall|j: int| 0 <= j < i ==> v@[j]@ != s@,
        decreases v@.len() - i,
    {
        if str_eq(v[i].as_str(), s) {
            assert(names(v@)[i as int] == s@);
            return true;
        }
        i = i + 1;
    }
    assert forall|j: int| 0 <= j < names(v@).len() implies names(v@)[j] != s@ by {
        assert(names(v@)[j] == v@[j]@);
    }
    false
}

proof fn lemma_push_contains(s: Seq<Seq<char>>, x: Seq<char>, f: Seq<char>)
    ensures
        s.push(x).contains(f) <==> (s.contains(f) || f == x),
{
    if s.push(x).contains(f) {
        let j = choose|j: int| 0 <= j < s.push(x).len() && s.push(x)[j] == f;
        if j < s.len() {
            assert(s[j] == f);
        }
    }
    if s.contains(f) {
        let j = choose|j: int| 0 <= j < s.len() && s[j] == f;
        assert(s.push(x)[j] == f);
    }
    if f == x {
        assert(s.push(x)[s.len() as int] == f);
    }
}

/// Appends the strings of `more` that `v` does not hold yet, so that a list
/// without repeats stays without repeats.
fn add_unique(v: &mut Vec<String>, more: &Vec<String>)
    ensures
        forall|f: Seq<char>| #![trigger names(final(v)@).contains(f)]
            names(final(v)@).contains(f) <==> (names(old(v)@).contains(f) || names(more@).contains(f)),
        names(old(v)@).no_duplicates() ==> names(final(v)@).no_duplicates(),
{
    let mut k: usize = 0;
    while k < more.len()
        invariant
            k <= more@.len(),
            forall|f: Seq<char>| #![trigger names(v@).contains(f)]
                names(v@).contains(f) <==> (names(old(v)@).contains(f) || names(more@.take(k as int)).contains(f)),
            names(old(v)@).no_duplicates() ==> names(v@).no_duplicates(),
        decreases more@.len() - k,
    {
        let ghost before = v@;
        let ghost m = more@[k as int]@;
        assert(names(more@.take(k + 1)) =~= names(more@.take(k as int)).push(m));
        if !contains_name(v, more[k].as_str()) {
            push_name(v, more[k].clone());
            proof {
                assert forall|i: int, j: int|
                    0 <= i < names(v@).len() && 0 <= j < names(v@).len() && i != j && names(old(v)@).no_duplicates()
                        implies names(v@)[i] != names(v@)[j] by {
                    if i == names(before).len() as int {
                        assert(names(before)[j] == names(v@)[j]);
                    } else if j == names(before).len() as int {
                        assert(names(before)[i] == names(v@)[i]);
                    } else {
                        assert(names(before)[i] == names(v@)[i]);
                        assert(names(before)[j] == names(v@)[j]);
                    }
                }
            }
        }
        assert(names(v@) == names(before).push(m) || (names(v@) == names(before) && names(
            before,
        ).contains(m)));
        assert forall|f: Seq<char>| #![trigger names(v@).contains(f)]
            names(v@).contains(f) <==> (names(old(v)@).contains(f) || names(more@.take(k + 1)).contains(f)) by {
            lemma_push_contains(names(before), m, f);
            lemma_push_contains(names(more@.take(k as int)), m, f);
        }
        k = k + 1;
    }
    assert(more@.take(more@.len() as int) =~= more@);
}

/// The file of the first item whose uid is `u`.
pub open spec fn linked_file(items: Seq<PrfItem>, u: Option<String>, f: Seq<char>) -> bool {
    match u {
        Some(x) => {
            let k = index_of_uid(items, Some(x@));
            k >= 0 && opt_view(items[k].file) == Some(f)
        },
        None => false,
    }
}

/// Item `i` keeps file `f` in use: it is the item's own file, or the item is
/// a main profile and `f` is the file of one of its extensions.
pub open spec fn contributes(items: Seq<PrfItem>, i: int, f: Seq<char>) -> bool {
    ||| opt_view(items[i].file) == Some(f)
    ||| {
        &&& is_main_type(items[i].itype)
        &&& items[i].option matches Some(o)
        &&& {
            ||| linked_file(items, o.merge, f)
            ||| linked_file(items, o.script, f)
            ||| linked_file(items, o.rules, f)
            ||| linked_file(items, o.proxies, f)
            ||| linked_file(items, o.groups, f)
        }
    }
}

/// A file that some item keeps in use.
pub open spec fn is_active_file(items: Seq<PrfItem>, f: Seq<char>) -> bool {
    exists|i: int| 0 <= i < items.len() && #[trigger] contributes(items, i, f)
}

fn linked_file_of(items: &Vec<PrfItem>, u: &Option<String>) -> (r: Option<String>)
    ensures
        match r {
            Some(s) => linked_file(items@, *u, s@),
            None => forall|f: Seq<char>| !#[trigger] linked_file(items@, *u, f),
        },
{
    match u {
        Some(x) => match index_of_str_uid(items, x.as_str()) {
            Some(k) => clone_opt_string(&items[k].file),
            None => None,
        },
        None => None,
    }
}

fn push_linked(v: &mut Vec<String>, items: &Vec<PrfItem>, u: &Option<String>)
    ensures
        forall|f: Seq<char>|
            #![trigger names(final(v)@).contains(f)]
            names(final(v)@).contains(f) <==> (names(old(v)@).contains(f) || linked_file(
                items@,
                *u,
                f,
            )),
{
    match linked_file_of(items, u) {
        Some(s) => {
            let ghost sv = s@;
            push_name(v, s);
            assert forall|f: Seq<char>| #![trigger names(v@).contains(f)]
                names(v@).contains(f) <==> (names(old(v)@).contains(f) || linked_file(
                    items@,
                    *u,
                    f,
                )) by {
                if names(v@).contains(f) {
                    let j = choose|j: int| 0 <= j < names(v@).len() && names(v@)[j] == f;
                    if j < names(old(v)@).len() {
                        assert(names(old(v)@)[j] == f);
                    } else {
                        assert(f == sv);
                        assert(linked_file(items@, *u, sv));
                        assert(index_of_uid(items@, Some(u->0@)) >= 0);
                    }
                }
                if names(old(v)@).contains(f) {
                    let j = choose|j: int| 0 <= j < names(old(v)@).len() && names(old(v)@)[j] == f;
                    assert(names(v@)[j] == f);
                }
                if linked_file(items@, *u, f) {
                    proof_linked_unique(items@, *u, f, sv);
                    assert(names(v@)[names(old(v)@).len() as int] == f);
                }
            }
        },
        None => {},
    }
}

proof fn proof_linked_unique(items: Seq<PrfItem>, u: Option<String>, f: Seq<char>, g: Seq<char>)
    requires
        linked_file(items, u, f),
        linked_file(items, u, g),
    ensures
        f == g,
{
}

fn push_opt_file(v: &mut Vec<String>, file: &Option<String>)
    ensures
        forall|f: Seq<char>|
            #![trigger names(final(v)@).contains(f)]
            names(final(v)@).contains(f) <==> (names(old(v)@).contains(f) || opt_view(*file) == Some(
                f,
            )),
{
    match file {
        Some(s) => {
            push_name(v, s.clone());
            assert forall|f: Seq<char>| #![trigger names(v@).contains(f)]
                names(v@).contains(f) <==> (names(old(v)@).contains(f) || opt_view(*file) == Some(
                    f,
                )) by {
                if names(v@).contains(f) {
                    let j = choose|j: int| 0 <= j < names(v@).len() && names(v@)[j] == f;
                    if j < names(old(v)@).len() {
                        assert(names(old(v)@)[j] == f);
                    }
                }
                if names(old(v)@).contains(f) {
                    let j = choose|j: int| 0 <= j < names(old(v)@).len() && names(old(v)@)[j] == f;
                    assert(names(v@)[j] == f);
                }
                if opt_view(*file) == Some(f) {
                    assert(names(v@)[names(old(v)@).len() as int] == f);
                }
            }
        },
        None => {},
    }
}

/// The files that item `i` keeps in use.
fn item_files(items: &Vec<PrfItem>, i: usize) -> (v: Vec<String>)
    requires
        i < items@.len(),
    ensures
        forall|f: Seq<char>| #[trigger] names(v@).contains(f) <==> contributes(items@, i as int, f),
{
    let mut v: Vec<String> = Vec::new();
    let ghost v0 = v@;
    push_opt_file(&mut v, &items[i].file);
    let ghost v1 = v@;
    if is_main_item_type(&items[i].itype) {
        match &items[i].option {
            Some(o) => {
                push_linked(&mut v, items, &o.merge);
                let ghost v2 = v@;
                push_linked(&mut v, items, &o.script);
                let ghost v3 = v@;
                push_linked(&mut v, items, &o.rules);
                let ghost v4 = v@;
                push_linked(&mut v, items, &o.proxies);
                let ghost v5 = v@;
                push_linked(&mut v, items, &o.groups);
                assert forall|f: Seq<char>| #[trigger]
                    names(v@).contains(f) <==> contributes(items@, i as int, f) by {
                    assert(names(v0).contains(f) == false);
                    assert(names(v1).contains(f) == (names(v0).contains(f) || opt_view(
                        items@[i as int].file,
                    ) == Some(f)));
                    assert(names(v2).contains(f) == (names(v1).contains(f) || linked_file(
                        items@,
                        o.merge,
                        f,
                    )));
                    assert(names(v3).contains(f) == (names(v2).contains(f) || linked_file(
                        items@,
                        o.script,
                        f,
                    )));
                    assert(names(v4).contains(f) == (names(v3).contains(f) || linked_file(
                        items@,
                        o.rules,
                        f,
                    )));
                    assert(names(v5).contains(f) == (names(v4).contains(f) || linked_file(
                        items@,
                        o.proxies,
                        f,
                    )));
                }
                return v;
            },
            None => {},
        }
    }
    assert forall|f: Seq<char>| #[trigger] names(v@).contains(f) <==> contributes(
        items@,
        i as int,
        f,
    ) by {
        assert(names(v0).contains(f) == false);
    }
    v
}

/// `Regex::new(pattern)` followed by `Regex::is_match(text)`; a pattern that
/// does not compile matches nothing. What a compiled pattern accepts is
/// named `regex_match`; for the four name patterns of profile files the
/// crate's syntax gives it directly: `^` and `$` (without multi-line mode)
/// anchor at the start and end of the text, a class such as `[a-zA-Z0-9]`
/// accepts one of its listed ASCII characters, `+` one or more of them, and
/// `\.` a dot.
#[verifier::external_body]
fn regex_is_match(pattern: &str, text: &str) -> (r: bool)
    ensures
        r == regex_match(pattern@, text@),
        pattern@ == "^[RL][a-zA-Z0-9]+\\.yaml$"@ ==> (r <==> name_shape(text@, "RL"@, ".yaml"@)),
        pattern@ == "^m[a-zA-Z0-9]+\\.yaml$"@ ==> (r <==> name_shape(text@, "m"@, ".yaml"@)),
        pattern@ == "^s[a-zA-Z0-9]+\\.js$"@ ==> (r <==> name_shape(text@, "s"@, ".js"@)),
        pattern@ == "^[rpg][a-zA-Z0-9]+\\.yaml$"@ ==> (r <==> name_shape(text@, "rpg"@, ".yaml"@)),
{
    match regex::Regex::new(pattern) {
        Ok(re) => re.is_match(text),
        Err(_) => false,
    }
}

/// An ASCII letter or digit.
pub open spec fn is_ascii_alnum(c: char) -> bool {
    let n = c as u32;
    (48 <= n && n <= 57) || (65 <= n && n <= 90) || (97 <= n && n <= 122)
}

/// `name` is one of the characters `first`, then one or more ASCII letters
/// or digits, then `ext`, and nothing else.
pub open spec fn name_shape(name: Seq<char>, first: Seq<char>, ext: Seq<char>) -> bool {
    &&& name.len() >= ext.len() + 2
    &&& first.contains(name[0])
    &&& forall|i: int| 1 <= i < name.len() - ext.len() ==> is_ascii_alnum(#[trigger] name[i])
    &&& name.skip(name.len() - ext.len()) == ext
}

/// The shapes of profile file names: main profiles (`R`/`L`), merge (`m`),
/// script (`s`, `.js`), and rules / proxies / groups (`r`/`p`/`g`) files.
pub open spec fn profile_name_shape(name: Seq<char>) -> bool {
    ||| name_shape(name, "RL"@, ".yaml"@)
    ||| name_shape(name, "m"@, ".yaml"@)
    ||| name_shape(name, "s"@, ".js"@)
    ||| name_shape(name, "rpg"@, ".yaml"@)
}

/// Whether the `regex` crate compiles `pattern` and finds a match in `text`.
pub uninterp spec fn regex_match(pattern: Seq<char>, text: Seq<char>) -> bool;

/// The name patterns of profile files: main profiles, merge, script, and
/// rules / proxies / groups files.
pub open spec fn is_profile_name(name: Seq<char>) -> bool {
    ||| regex_match("^[RL][a-zA-Z0-9]+\\.yaml$"@, name)
    ||| regex_match("^m[a-zA-Z0-9]+\\.yaml$"@, name)
    ||| regex_match("^s[a-zA-Z0-9]+\\.js$"@, name)
    ||| regex_match("^[rpg][a-zA-Z0-9]+\\.yaml$"@, name)
}

/// A file that a sweep of the profile directory removes.
pub open spec fn is_orphan(items: Seq<PrfItem>, name: Seq<char>) -> bool {
    is_profile_name(name) && !is_protected_name(name) && !is_active_file(items, name)
}

/// The names among `names` that a sweep removes, in order.
pub open spec fn orphans(items: Seq<PrfItem>, files: Seq<String>) -> Seq<String>
    decreases files.len(),
{
    if files.len() == 0 {
        Seq::empty()
    } else {
        let prev = orphans(items, files.drop_last());
        if is_orphan(items, files.last()@) {
            prev.push(files.last())
        } else {
            prev
        }
    }
}

/// The preview entries of a list, in order: items with both uid and name.
pub open spec fn preview_entries(items: Seq<PrfItem>, current: Option<String>) -> Seq<IProfilePreview>
    decreases items.len(),
{
    if items.len() == 0 {
        Seq::empty()
    } else {
        let prev = preview_entries(items.drop_last(), current);
        let it = items.last();
        match (it.uid, it.name) {
            (Some(u), Some(n)) => prev.push(
                IProfilePreview { uid: u, name: n, is_current: opt_view(current) == Some(u@) },
            ),
            _ => prev,
        }
    }
}

impl IProfiles {
    /// Removes the item with uid `uid` and the extension items it links to
    /// (unset links remove nothing). When the active profile is removed the
    /// first remaining main profile becomes active. Returns whether the
    /// active profile was removed and the files of the removed items, which
    /// are due to be deleted.
    pub fn delete_item(&mut self, uid: &String) -> (r: Result<(bool, Vec<String>), ProfileError>)
        ensures
            ({
                let items = items_of(*old(self));
                let k = index_of_uid(items, Some(uid@));
                if k < 0 {
                    &&& *final(self) == *old(self)
                    &&& (r matches Err(ProfileError::ItemNotFound(u)) && u@ == uid@)
                } else {
                    let targets = linked_uids(items[k], uid@);
                    let rest = after_takes(items, targets);
                    let cur_deleted = opt_view(old(self).current) == Some(uid@);
                    &&& r matches Ok((d, files)) && d == cur_deleted && files@ == taken_files(
                        items,
                        targets,
                    )
                    &&& final(self).items is Some
                    &&& items_of(*final(self)) == rest
                    &&& final(self).current == if cur_deleted {
                        first_main_uid(rest)
                    } else {
                        old(self).current
                    }
                }
            }),
    {
        let ghost items0 = items_of(*self);
        let k = match &self.items {
            Some(items) => index_of_str_uid(items, uid.as_str()),
            None => None,
        };
        let k = match k {
            Some(k) => k,
            None => {
                return Err(ProfileError::ItemNotFound(uid.clone()));
            },
        };
        let cur_deleted = match &self.current {
            Some(c) => *c == *uid,
            None => false,
        };
        let mut items = match self.items.take() {
            Some(v) => v,
            None => Vec::new(),
        };
        assert(items@ == items0);
        let mut targets: Vec<Option<String>> = Vec::new();
        targets.push(Some(uid.clone()));
        match &items[k].option {
            Some(o) => {
                targets.push(clone_opt_string(&o.merge));
                targets.push(clone_opt_string(&o.script));
                targets.push(clone_opt_string(&o.rules));
                targets.push(clone_opt_string(&o.proxies));
                targets.push(clone_opt_string(&o.groups));
            },
            None => {
                targets.push(None);
                targets.push(None);
                targets.push(None);
                targets.push(None);
                targets.push(None);
            },
        }
        let ghost tv = targets@.map_values(|o: Option<String>| opt_view(o));
        assert(tv =~= linked_uids(items0[k as int], uid@));
        let mut files: Vec<String> = Vec::new();
        let mut t: usize = 0;
        assert(tv.skip(0) =~= tv);
        assert(files@ + taken_files(items@, tv) =~= taken_files(items@, tv));
        while t < targets.len()
            invariant
                t <= targets@.len(),
                tv == targets@.map_values(|o: Option<String>| opt_view(o)),
                after_takes(items0, tv) == after_takes(items@, tv.skip(t as int)),
                taken_files(items0, tv) == files@ + taken_files(items@, tv.skip(t as int)),
            decreases targets@.len() - t,
        {
            let ghost before = items@;
            assert(tv.skip(t as int)[0] == opt_view(targets@[t as int]));
            assert(tv.skip(t as int).drop_first() =~= tv.skip(t + 1));
            if targets[t].is_some() {
                let file = take_item_file_by_uid(&mut items, &targets[t]);
                match file {
                    Some(f) => {
                        files.push(f);
                    },
                    None => {},
                }
            }
            assert(taken_files(items0, tv) =~= files@ + taken_files(items@, tv.skip(t + 1)));
            t = t + 1;
        }
        assert(tv.skip(t as int).len() == 0);
        assert(files@ + taken_files(items@, tv.skip(t as int)) =~= files@);
        if cur_deleted {
            self.current = first_main_uid_of(&items);
        }
        self.items = Some(items);
        Ok((cur_deleted, files))
    }

    /// The file of the active profile: `Ok(None)` when there is no active
    /// profile or no list (an empty configuration), an error when the active
    /// uid names no item or that item has no file.
    pub fn current_profile_file(&self) -> (r: Result<Option<String>, ProfileError>)
        ensures
            match (self.current, self.items) {
                (Some(c), Some(v)) => {
                    let k = index_of_uid(v@, Some(c@));
                    if k >= 0 {
                        match v@[k].file {
                            Some(f) => r matches Ok(Some(g)) && g == f,
                            None => r matches Err(ProfileError::FileFieldMissing),
                        }
                    } else {
                        r matches Err(ProfileError::CurrentNotFound(u)) && u == c
                    }
                },
                _ => r matches Ok(None),
            },
    {
        match (&self.current, &self.items) {
            (Some(c), Some(items)) => {
                match index_of_str_uid(items, c.as_str()) {
                    Some(k) => match &items[k].file {
                        Some(f) => Ok(Some(f.clone())),
                        None => Err(ProfileError::FileFieldMissing),
                    },
                    None => Err(ProfileError::CurrentNotFound(c.clone())),
                }
            },
            _ => Ok(None),
        }
    }

    /// Uid, name and whether active, of every item that has a uid and a name.
    pub fn profiles_preview(&self) -> (r: Option<Vec<IProfilePreview>>)
        ensures
            match self.items {
                Some(v) => r matches Some(p) && p@ == preview_entries(v@, self.current),
                None => r is None,
            },
    {
        match &self.items {
            None => None,
            Some(items) => {
                let mut out: Vec<IProfilePreview> = Vec::new();
                let mut i: usize = 0;
                while i < items.len()
                    invariant
                        i <= items@.len(),
                        out@ == preview_entries(items@.take(i as int), self.current),
                    decreases items@.len() - i,
                {
                    assert(items@.take(i + 1).drop_last() =~= items@.take(i as int));
                    assert(items@.take(i + 1).last() == items@[i as int]);
                    match (&items[i].uid, &items[i].name) {
                        (Some(u), Some(n)) => {
                            let is_current = self.is_current_profile_index(u);
                            out.push(IProfilePreview { uid: u.clone(), name: n.clone(), is_current });
                        },
                        _ => {},
                    }
                    i = i + 1;
                }
                assert(items@.take(i as int) =~= items@);
                Some(out)
            },
        }
    }

    /// The global extension files, which a sweep never removes.
    pub fn get_protected_global_files(&self) -> (r: Vec<String>)
        ensures
            forall|f: Seq<char>| #[trigger] names(r@).contains(f) <==> is_protected_name(f),
            names(r@).no_duplicates(),
    {
        let mut r: Vec<String> = Vec::new();
        push_name(&mut r, "Merge.yaml".to_owned());
        push_name(&mut r, "Script.js".to_owned());
        proof {
            reveal_strlit("Merge.yaml");
            reveal_strlit("Script.js");
            assert(names(r@)[0].len() != names(r@)[1].len());
        }
        assert forall|f: Seq<char>| #[trigger] names(r@).contains(f) <==> is_protected_name(f) by {
            if is_protected_name(f) {
                if f == "Merge.yaml"@ {
                    assert(names(r@)[0] == f);
                } else {
                    assert(names(r@)[1] == f);
                }
            }
        }
        r
    }

    /// The files that the items keep in use.
    pub fn get_all_active_files(&self) -> (r: Vec<String>)
        ensures
            forall|f: Seq<char>| #[trigger]
                names(r@).contains(f) <==> is_active_file(items_of(*self), f),
            names(r@).no_duplicates(),
    {
        let mut r: Vec<String> = Vec::new();
        let empty: Vec<PrfItem> = Vec::new();
        let items = match &self.items {
            Some(v) => v,
            None => &empty,
        };
        assert(items@ == items_of(*self));
        let mut i: usize = 0;
        while i < items.len()
            invariant
                i <= items@.len(),
                items@ == items_of(*self),
                forall|f: Seq<char>| #[trigger]
                    names(r@).contains(f) <==> exists|j: int| 0 <= j < i && #[trigger] contributes(
                        items@,
                        j,
                        f,
                    ),
                names(r@).no_duplicates(),
            decreases items@.len() - i,
        {
            let ghost r0 = r@;
            let more = item_files(items, i);
            let ghost m = more@;
            add_unique(&mut r, &more);
            assert forall|f: Seq<char>| #[trigger]
                names(r@).contains(f) <==> exists|j: int| 0 <= j < i + 1 && #[trigger] contributes(
                    items@,
                    j,
                    f,
                ) by {
                assert(names(r@).contains(f) <==> (names(r0).contains(f) || names(m).contains(f)));
                if names(r0).contains(f) {
                    let j = choose|j: int| 0 <= j < i && #[trigger] contributes(items@, j, f);
                    assert(contributes(items@, j, f));
                }
                if names(m).contains(f) {
                    assert(contributes(items@, i as int, f));
                }
                if exists|j: int| 0 <= j < i + 1 && #[trigger] contributes(items@, j, f) {
                    let j = choose|j: int| 0 <= j < i + 1 && #[trigger] contributes(items@, j, f);
                    if j < i {
                        assert(names(r0).contains(f));
                    } else {
                        assert(names(m).contains(f));
                    }
                }
            }
            i = i + 1;
        }
        r
    }

    /// The file names among `files` that a sweep of the profile directory
    /// removes: profile-shaped names that are neither protected nor in use.
    pub fn orphaned_files(&self, files: &Vec<String>) -> (r: Vec<String>)
        ensures
            r@ == orphans(items_of(*self), files@),
    {
        let active = self.get_all_active_files();
        let protected = self.get_protected_global_files();
        let mut r: Vec<String> = Vec::new();
        let mut i: usize = 0;
        while i < files.len()
            invariant
                i <= files@.len(),
                r@ == orphans(items_of(*self), files@.take(i as int)),
                forall|f: Seq<char>| #[trigger]
                    names(active@).contains(f) <==> is_active_file(items_of(*self), f),
                forall|f: Seq<char>| #[trigger] names(protected@).contains(f) <==> is_protected_name(f),
            decreases files@.len() - i,
        {
            assert(files@.take(i + 1).drop_last() =~= files@.take(i as int));
            assert(files@.take(i + 1).last() == files@[i as int]);
            let name = files[i].as_str();
            if Self::is_profile_file(name) && !contains_name(&protected, name) && !contains_name(
                &active,
                name,
            ) {
                r.push(files[i].clone());
            }
            i = i + 1;
        }
        assert(files@.take(i as int) =~= files@);
        r
    }

    /// Whether a file name has the shape of a profile file.
    pub fn is_profile_file(filename: &str) -> (r: bool)
        ensures
            r == is_profile_name(filename@),
            r == profile_name_shape(filename@),
    {
        proof {
            reveal_strlit("^[RL][a-zA-Z0-9]+\\.yaml$");
            reveal_strlit("^m[a-zA-Z0-9]+\\.yaml$");
            reveal_strlit("^s[a-zA-Z0-9]+\\.js$");
            reveal_strlit("^[rpg][a-zA-Z0-9]+\\.yaml$");
        }
        regex_is_match("^[RL][a-zA-Z0-9]+\\.yaml$", filename) || regex_is_match(
            "^m[a-zA-Z0-9]+\\.yaml$",
            filename,
        ) || regex_is_match("^s[a-zA-Z0-9]+\\.js$", filename) || regex_is_match(
            "^[rpg][a-zA-Z0-9]+\\.yaml$",
            filename,
        )
    }

    /// Gives every item without uid a fresh uid starting with `d`; an absent
    /// list becomes empty. Returns whether every item has a uid afterwards
    /// (an item whose fresh uid could not be drawn is left as it was).
    pub fn assign_missing_uids(&mut self) -> (all: bool)
        ensures
            final(self).current == old(self).current,
            final(self).items is Some,
            items_of(*final(self)).len() == items_of(*old(self)).len(),
            all == forall|j: int|
                0 <= j < items_of(*final(self)).len() ==> (#[trigger] items_of(*final(self))[j]).uid is Some,
            (forall|j: int| 0 <= j < items_of(*old(self)).len() ==> (#[trigger] items_of(*old(self))[j]).uid is Some)
                ==> (all && items_of(*final(self)) == items_of(*old(self))),
            forall|j: int|
                0 <= j < items_of(*old(self)).len() ==> {
                    let a = #[trigger] items_of(*final(self))[j];
                    let b = items_of(*old(self))[j];
                    &&& b.uid is Some ==> a == b
                    &&& b.uid is None ==> (a == b || {
                        &&& a == (PrfItem { uid: a.uid, ..b })
                        &&& a.uid matches Some(u) && crate::help::is_generated_uid(u@, "d"@)
                    })
                },
    {
        let ghost items0 = items_of(*self);
        let mut items = match self.items.take() {
            Some(v) => v,
            None => Vec::new(),
        };
        assert(items@ == items0);
        let mut all = true;
        let mut i: usize = 0;
        while i < items.len()
            invariant
                i <= items@.len(),
                items@.len() == items0.len(),
                forall|j: int| i <= j < items0.len() ==> items@[j] == items0[j],
                forall|j: int|
                    0 <= j < i ==> {
                        let a = #[trigger] items@[j];
                        let b = items0[j];
                        &&& b.uid is Some ==> a == b
                        &&& b.uid is None ==> (a == b || {
                            &&& a == (PrfItem { uid: a.uid, ..b })
                            &&& a.uid matches Some(u) && crate::help::is_generated_uid(u@, "d"@)
                        })
                    },
                all == forall|j: int| 0 <= j < i ==> (#[trigger] items@[j]).uid is Some,
            decreases items@.len() - i,
        {
            let ghost pre = items@;
            if items[i].uid.is_none() {
                proof {
                    reveal_strlit("d");
                }
                match crate::help::get_uid("d") {
                    Some(fresh) => {
                        let mut item = items.remove(i);
                        item.uid = Some(fresh);
                        let ghost mid = items@;
                        items.insert(i, item);
                        assert forall|j: int| 0 <= j < items@.len() && j != i implies items@[j]
                            == pre[j] by {
                            if j > i {
                                assert(items@[j] == mid[j - 1]);
                            } else {
                                assert(items@[j] == mid[j]);
                            }
                        }
                        assert forall|j: int| 0 <= j < items@.len() && j != i implies items@[j]
                            == items0[j] || j < i by {}
                    },
                    None => {
                        all = false;
                    },
                }
            }
            assert(all == forall|j: int| 0 <= j < i + 1 ==> (#[trigger] items@[j]).uid is Some) by {
                assert forall|j: int| 0 <= j < i implies items@[j] == pre[j] by {}
            }
            i = i + 1;
        }
        self.items = Some(items);
        all
    }
}

} // verus!
