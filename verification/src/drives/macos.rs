//! macOS media, as the I/O Registry lists them.

use vstd::prelude::*;
use vstd::string::*;

use crate::drives;
use crate::drives::{DriveError, DriveErrorView};
use crate::macos_native::DiskRecord;
use crate::model::{Drive, DriveView};
use crate::text;
use crate::text::{
    chars_of, decimal_text, digits_between, find_char, has_prefix, parse_bounded, text_between,
    trim,
};
use crate::worker::{WorkerDrive, WorkerDriveView};

verus! {

broadcast use vstd::seq_lib::group_seq_properties;

// ---------------------------------------------------------------------------------------------
// Identifiers
// ---------------------------------------------------------------------------------------------

/// Whether a text names a whole disk: `disk` and a number, with no partition behind it.
pub open spec fn is_disk_name(id: Seq<char>) -> bool {
    let digits = id.subrange("disk"@.len() as int, id.len() as int);
    text::starts_with(id, "disk"@) && digits.len() > 0 && text::all_digits(digits)
}

fn disk_name_between(characters: &Vec<char>, to: usize) -> (result: bool)
    requires
        to <= characters@.len(),
    ensures
        result == is_disk_name(characters@.take(to as int)),
{
    let name = text_between(characters, 0, to);
    assert(name@ =~= characters@.take(to as int));
    valid_identifier(name.as_str())
}

/// Whether a text names a whole disk.
pub fn valid_identifier(id: &str) -> (result: bool)
    ensures
        result == is_disk_name(id@),
{
    let characters = chars_of(id);
    match has_prefix(&characters, "disk") {
        Some(length) => length < characters.len() && digits_between(
            &characters,
            length,
            characters.len(),
        ),
        None => false,
    }
}

/// The identifier of a drive: the name of its disk and its entry in the I/O Registry, which does
/// not outlive the insertion of the medium.
pub open spec fn stable_identifier(disk_id: Seq<char>, registry_entry_id: nat) -> Seq<char> {
    disk_id + "@"@ + text::decimal(registry_entry_id)
}

/// The identifier of a drive.
pub fn format_stable_identifier(disk_id: &str, registry_entry_id: u64) -> (result: String)
    ensures
        result@ == stable_identifier(disk_id@, registry_entry_id as nat),
{
    let number = decimal_text(registry_entry_id);
    text::join3(disk_id, "@", number.as_str())
}

/// The disk name and the registry entry that an identifier consists of: what stands before and
/// behind its first `@`.
pub open spec fn split_identifier(value: Seq<char>) -> Option<(Seq<char>, u64)> {
    let at = text::find(value, '@');
    let name = value.take(at);
    let digits = value.subrange(at + 1, value.len() as int);
    if at < value.len() && is_disk_name(name) && digits.len() > 0 && text::all_digits(digits) && 0
        < text::digits_value(digits) <= u64::MAX {
        Some((name, text::digits_value(digits) as u64))
    } else {
        None
    }
}

/// Take an identifier apart.
pub fn split_stable_identifier(value: &str) -> (result: Option<(String, u64)>)
    ensures
        match result {
            Some((name, entry)) => split_identifier(value@) == Some((name@, entry)),
            None => split_identifier(value@) is None,
        },
{
    let characters = chars_of(value);
    let at: usize = find_char(&characters, '@');
    if at == characters.len() || !disk_name_between(&characters, at) {
        return None;
    }
    let from: usize = at + 1;
    let ghost digits = value@.subrange(from as int, value@.len() as int);
    if from == characters.len() || !digits_between(&characters, from, characters.len()) {
        return None;
    }
    let number = text_between(&characters, from, characters.len());
    proof {
        assert(number@ =~= digits);
        text::scan_of_digits(digits, u64::MAX as nat);
        assert(text::is_digit(digits[0]));
        assert(characters@.subrange(0, at as int) =~= value@.take(at as int));
    }
    match parse_bounded(number.as_str(), u64::MAX) {
        Ok(entry) => {
            if entry == 0 {
                None
            } else {
                Some((text_between(&characters, 0, at), entry))
            }
        },
        Err(_) => None,
    }
}

/// An identifier made of a disk name and a positive registry entry comes apart into just these.
pub proof fn stable_identifier_splits_back(disk_id: Seq<char>, registry_entry_id: u64)
    requires
        is_disk_name(disk_id),
        registry_entry_id > 0,
    ensures
        split_identifier(stable_identifier(disk_id, registry_entry_id as nat)) == Some(
            (disk_id, registry_entry_id),
        ),
{
    let digits = text::decimal(registry_entry_id as nat);
    let value = stable_identifier(disk_id, registry_entry_id as nat);
    reveal_strlit("@");
    reveal_strlit("disk");
    text::decimal_reads_back(registry_entry_id as nat);
    let at = disk_id.len() as int;
    assert(value[at] == '@');
    let rest = disk_id.subrange(4, disk_id.len() as int);
    assert forall|i: int| 0 <= i < at implies value[i] != '@' by {
        assert(value[i] == disk_id[i]);
        if i < 4 {
            assert(disk_id.take(4)[i] == "disk"@[i]);
        } else {
            assert(rest[i - 4] == disk_id[i]);
            assert(text::is_digit(rest[i - 4]));
        }
    }
    text::find_is(value, '@', at);
    assert(value.take(at) =~= disk_id);
    assert(value.subrange(at + 1, value.len() as int) =~= digits);
}

/// The whole disk that an identifier names, with or without a registry entry behind it.
pub open spec fn named_disk(id: Seq<char>) -> Option<Seq<char>> {
    let at = text::find(id, '@');
    let digits = id.subrange(at + 1, id.len() as int);
    if is_disk_name(id.take(at)) && (at < id.len() ==> digits.len() > 0 && text::all_digits(
        digits,
    )) {
        Some(id.take(at))
    } else {
        None
    }
}

/// The whole disk that an identifier names.
pub fn disk_identifier(id: &str) -> (result: Option<String>)
    ensures
        text::optional_text(result) == named_disk(id@),
{
    let characters = chars_of(id);
    let at: usize = find_char(&characters, '@');
    if !disk_name_between(&characters, at) {
        return None;
    }
    if at < characters.len() {
        let from: usize = at + 1;
        if from == characters.len() || !digits_between(&characters, from, characters.len()) {
            return None;
        }
    }
    assert(characters@.subrange(0, at as int) =~= id@.take(at as int));
    Some(text_between(&characters, 0, at))
}

/// The device path of a disk.
pub open spec fn device_path(disk_id: Seq<char>) -> Seq<char> {
    "/dev/"@ + disk_id
}

/// Whether a drive's identity is one that discovery gives out.
pub open spec fn is_worker_drive(drive: WorkerDriveView) -> bool {
    &&& split_identifier(drive.id) matches Some((disk_id, entry))
    &&& drive.device == device_path(disk_id)
    &&& drive.capacity > 0
}

/// Whether a drive's identity is one that discovery gives out.
pub fn valid_worker_drive(drive: &WorkerDrive) -> (result: bool)
    ensures
        result == is_worker_drive(drive@),
{
    match split_stable_identifier(drive.id.as_str()) {
        Some((disk_id, _)) => {
            let device = text::join2("/dev/", disk_id.as_str());
            drive.capacity > 0 && drive.device == device
        },
        None => false,
    }
}

// ---------------------------------------------------------------------------------------------
// The safe media
// ---------------------------------------------------------------------------------------------

/// A medium that may be offered.
#[derive(Debug)]
pub struct SafeMedia {
    pub registry_entry_id: u64,
    pub name: Option<String>,
    pub size: u64,
}

/// Whether a record may be offered: a whole, writable, removable, ejectable and physical medium
/// under a disk's name, with a registry entry and a size.
pub open spec fn is_safe(record: DiskRecord) -> bool {
    &&& record.claims_to_be_a_card()
    &&& is_disk_name(record.bsd_name@)
    &&& record.registry_entry_id != 0
    &&& record.size != 0
}

/// What is kept of a safe record. A name of white space alone is none.
pub open spec fn media_of(record: DiskRecord) -> SafeMedia {
    SafeMedia {
        registry_entry_id: record.registry_entry_id,
        name: if record.name matches Some(name) && text::trimmed(name@).len() > 0 {
            record.name
        } else {
            None
        },
        size: record.size,
    }
}

/// Whether a safe record before this one has the same registry entry.
pub open spec fn repeats_an_entry(records: Seq<DiskRecord>, at: int) -> bool {
    exists|i: int|
        0 <= i < at && is_safe(#[trigger] records[i]) && records[i].registry_entry_id
            == records[at].registry_entry_id
}

/// The safe media by the names of their disks. Two safe records with one registry entry or one
/// name make the whole listing unusable.
pub open spec fn collect(records: Seq<DiskRecord>) -> Result<
    Map<Seq<char>, SafeMedia>,
    DriveErrorView,
>
    decreases records.len(),
{
    if records.len() == 0 {
        Ok(Map::empty())
    } else {
        match collect(records.drop_last()) {
            Err(error) => Err(error),
            Ok(media) => {
                let record = records.last();
                if !is_safe(record) {
                    Ok(media)
                } else if repeats_an_entry(records, records.len() - 1) {
                    Err(
                        DriveErrorView::InvalidData(
                            "duplicate I/O Registry entry ID "@ + text::decimal(
                                record.registry_entry_id as nat,
                            ),
                        ),
                    )
                } else if media.dom().contains(record.bsd_name@) {
                    Err(
                        DriveErrorView::InvalidData(
                            "duplicate I/O Registry identity for "@ + record.bsd_name@,
                        ),
                    )
                } else {
                    Ok(media.insert(record.bsd_name@, media_of(record)))
                }
            },
        }
    }
}

/// Whether a text comes before another in the order of their characters.
pub open spec fn text_less(left: Seq<char>, right: Seq<char>) -> bool
    decreases left.len(),
{
    if right.len() == 0 {
        false
    } else if left.len() == 0 {
        true
    } else if left[0] != right[0] {
        left[0] < right[0]
    } else {
        text_less(left.drop_first(), right.drop_first())
    }
}

proof fn text_order(left: Seq<char>, right: Seq<char>)
    ensures
        text_less(left, right) ==> !text_less(right, left) && left != right,
        left != right ==> text_less(left, right) || text_less(right, left),
    decreases left.len(),
{
    if left.len() > 0 && right.len() > 0 && left[0] == right[0] {
        text_order(left.drop_first(), right.drop_first());
        assert(seq![left[0]] + left.drop_first() =~= left);
        assert(seq![right[0]] + right.drop_first() =~= right);
    } else if left.len() == 0 && right.len() == 0 {
        assert(left =~= right);
    }
}

proof fn text_order_is_transitive(first: Seq<char>, second: Seq<char>, third: Seq<char>)
    requires
        text_less(first, second),
        text_less(second, third),
    ensures
        text_less(first, third),
    decreases first.len(),
{
    if first.len() > 0 && first[0] == second[0] && second[0] == third[0] {
        text_order_is_transitive(first.drop_first(), second.drop_first(), third.drop_first());
    }
}

fn comes_before(left: &Vec<char>, right: &Vec<char>) -> (result: bool)
    ensures
        result == text_less(left@, right@),
{
    let mut index: usize = 0;
    let ghost all_left = left@;
    let ghost all_right = right@;
    assert(all_left.subrange(0, all_left.len() as int) =~= all_left);
    assert(all_right.subrange(0, all_right.len() as int) =~= all_right);
    while index < left.len() && index < right.len() && left[index] == right[index]
        invariant
            index <= left@.len(),
            index <= right@.len(),
            all_left == left@,
            all_right == right@,
            text_less(all_left, all_right) == text_less(
                all_left.subrange(index as int, all_left.len() as int),
                all_right.subrange(index as int, all_right.len() as int),
            ),
        decreases left@.len() - index,
    {
        let ghost rest_left = all_left.subrange(index as int, all_left.len() as int);
        let ghost rest_right = all_right.subrange(index as int, all_right.len() as int);
        assert(rest_left.drop_first() =~= all_left.subrange(
            index as int + 1,
            all_left.len() as int,
        ));
        assert(rest_right.drop_first() =~= all_right.subrange(
            index as int + 1,
            all_right.len() as int,
        ));
        index += 1;
    }
    if index == right.len() {
        false
    } else if index == left.len() {
        true
    } else {
        left[index] < right[index]
    }
}

/// The safe media in the order of their disk names, each name once.
pub struct MediaTable {
    entries: Vec<(String, SafeMedia)>,
}

/// Whether the names of some entries are in strictly ascending order.
pub open spec fn in_order(entries: Seq<(String, SafeMedia)>) -> bool {
    forall|i: int, j: int|
        0 <= i < j < entries.len() ==> text_less(
            (#[trigger] entries[i]).0@,
            (#[trigger] entries[j]).0@,
        )
}

/// Whether an entry has this name.
pub open spec fn is_entry(entries: Seq<(String, SafeMedia)>, at: int, name: Seq<char>) -> bool {
    0 <= at < entries.len() && entries[at].0@ == name
}

/// The place of an entry with this name.
pub open spec fn place_of(entries: Seq<(String, SafeMedia)>, name: Seq<char>) -> int {
    choose|i: int| is_entry(entries, i, name)
}

/// The entries as a map from names to media.
pub open spec fn entries_map(entries: Seq<(String, SafeMedia)>) -> Map<Seq<char>, SafeMedia> {
    Map::new(
        |name: Seq<char>| exists|i: int| is_entry(entries, i, name),
        |name: Seq<char>| entries[place_of(entries, name)].1,
    )
}

proof fn entry_of(entries: Seq<(String, SafeMedia)>, at: int)
    requires
        in_order(entries),
        0 <= at < entries.len(),
    ensures
        entries_map(entries).dom().contains(entries[at].0@),
        entries_map(entries)[entries[at].0@] == entries[at].1,
{
    let name = entries[at].0@;
    assert(is_entry(entries, at, name));
    let found = place_of(entries, name);
    assert(is_entry(entries, found, name));
    if found < at {
        text_order(entries[found].0@, entries[at].0@);
    } else if at < found {
        text_order(entries[at].0@, entries[found].0@);
    }
}

impl View for MediaTable {
    type V = Map<Seq<char>, SafeMedia>;

    closed spec fn view(&self) -> Map<Seq<char>, SafeMedia> {
        entries_map(self.entries@)
    }
}

impl MediaTable {
    /// The entries in their order.
    pub closed spec fn listed(self) -> Seq<(String, SafeMedia)> {
        self.entries@
    }

    /// Whether the table is in order.
    pub open spec fn well_formed(self) -> bool {
        in_order(self.listed()) && self@ == entries_map(self.listed())
    }

    /// A table without media.
    pub fn new() -> (table: MediaTable)
        ensures
            table.well_formed(),
            table@ == Map::<Seq<char>, SafeMedia>::empty(),
    {
        let table = MediaTable { entries: Vec::new() };
        assert(table@ =~= Map::<Seq<char>, SafeMedia>::empty());
        table
    }

    /// The number of media.
    pub fn len(&self) -> (result: usize)
        ensures
            result == self.listed().len(),
    {
        self.entries.len()
    }

    /// Whether there is no medium.
    pub fn is_empty(&self) -> (result: bool)
        ensures
            result == (self.listed().len() == 0),
    {
        self.entries.len() == 0
    }

    /// The medium of a disk.
    pub fn get(&self, name: &str) -> (result: Option<&SafeMedia>)
        requires
            self.well_formed(),
        ensures
            match result {
                Some(media) => self@.dom().contains(name@) && self@[name@] == *media,
                None => !self@.dom().contains(name@),
            },
    {
        let mut index: usize = 0;
        while index < self.entries.len()
            invariant
                index <= self.entries@.len(),
                in_order(self.entries@),
                forall|i: int| 0 <= i < index ==> (#[trigger] self.entries@[i]).0@ != name@,
            decreases self.entries@.len() - index,
        {
            if text::same_text(self.entries[index].0.as_str(), name) {
                proof {
                    entry_of(self.entries@, index as int);
                }
                return Some(&self.entries[index].1);
            }
            index += 1;
        }
        None
    }

    /// Add the medium of a disk that is not listed yet.
    fn insert(&mut self, name: String, media: SafeMedia)
        requires
            old(self).well_formed(),
            !old(self)@.dom().contains(name@),
        ensures
            final(self).well_formed(),
            final(self)@ == old(self)@.insert(name@, media),
    {
        let wanted = chars_of(name.as_str());
        let ghost before = self.entries@;
        let mut index: usize = 0;
        while index < self.entries.len() && comes_before(
            &chars_of(self.entries[index].0.as_str()),
            &wanted,
        )
            invariant
                index <= self.entries@.len(),
                self.entries@ == before,
                wanted@ == name@,
                forall|i: int|
                    0 <= i < index ==> text_less((#[trigger] before[i]).0@, name@),
            decreases self.entries@.len() - index,
        {
            index += 1;
        }
        proof {
            if index < before.len() {
                assert(!is_entry(before, index as int, name@));
                text_order(before[index as int].0@, name@);
                assert(text_less(name@, before[index as int].0@));
            }
            assert forall|j: int| index <= j < before.len() implies text_less(
                name@,
                (#[trigger] before[j]).0@,
            ) by {
                if j > index {
                    text_order_is_transitive(name@, before[index as int].0@, before[j].0@);
                }
            }
        }
        let ghost key = name@;
        let ghost entry = (name, media);
        self.entries.insert(index, (name, media));
        let ghost after = self.entries@;
        assert(after =~= before.insert(index as int, entry));
        proof {
            assert(in_order(after)) by {
                assert forall|i: int, j: int| 0 <= i < j < after.len() implies text_less(
                    (#[trigger] after[i]).0@,
                    (#[trigger] after[j]).0@,
                ) by {
                    let old_i = if i < index {
                        i
                    } else {
                        i - 1
                    };
                    let old_j = if j < index {
                        j
                    } else {
                        j - 1
                    };
                    if i != index {
                        assert(after[i] == before[old_i]);
                    }
                    if j != index {
                        assert(after[j] == before[old_j]);
                    }
                    if i == index {
                        assert(text_less(key, before[old_j].0@));
                    } else if j == index {
                        assert(text_less(before[old_i].0@, key));
                    }
                }
            }
            map_of_inserted(before, index as int, entry);
        }
    }
}

proof fn map_of_inserted(
    before: Seq<(String, SafeMedia)>,
    at: int,
    entry: (String, SafeMedia),
)
    requires
        0 <= at <= before.len(),
        in_order(before),
        in_order(before.insert(at, entry)),
        !entries_map(before).dom().contains(entry.0@),
    ensures
        entries_map(before.insert(at, entry)) == entries_map(before).insert(entry.0@, entry.1),
{
    let after = before.insert(at, entry);
    let left = entries_map(after);
    let right = entries_map(before).insert(entry.0@, entry.1);
    entry_of(after, at);
    assert forall|name: Seq<char>| left.dom().contains(name) <==> right.dom().contains(name) by {
        if left.dom().contains(name) {
            let i = place_of(after, name);
            assert(is_entry(after, i, name));
            if i < at {
                assert(is_entry(before, i, name));
            } else if i > at {
                assert(is_entry(before, i - 1, name));
            }
        }
        if right.dom().contains(name) {
            if name == entry.0@ {
                assert(is_entry(after, at, name));
            } else {
                let i = place_of(before, name);
                assert(is_entry(before, i, name));
                if i < at {
                    assert(is_entry(after, i, name));
                } else {
                    assert(is_entry(after, i + 1, name));
                }
            }
        }
    }
    assert forall|name: Seq<char>| left.dom().contains(name) implies left[name] == right[name] by {
        let i = place_of(after, name);
        assert(is_entry(after, i, name));
        entry_of(after, i);
        if i < at {
            assert(after[i] == before[i]);
            entry_of(before, i);
        } else if i > at {
            assert(after[i] == before[i - 1]);
            entry_of(before, i - 1);
        }
        if i != at {
            assert(name != entry.0@) by {
                if i < at {
                    assert(is_entry(before, i, name));
                } else {
                    assert(is_entry(before, i - 1, name));
                }
            }
        }
    }
    assert(left =~= right);
}

fn entry_is_repeated(records: &Vec<DiskRecord>, at: usize) -> (result: bool)
    requires
        at < records@.len(),
    ensures
        result == repeats_an_entry(records@, at as int),
{
    let mut index: usize = 0;
    while index < at
        invariant
            index <= at < records@.len(),
            forall|i: int|
                0 <= i < index ==> !(is_safe(#[trigger] records@[i]) && records@[i].registry_entry_id
                    == records@[at as int].registry_entry_id),
        decreases at - index,
    {
        if record_is_safe(&records[index]) && records[index].registry_entry_id
            == records[at].registry_entry_id {
            assert(is_safe(records@[index as int]));
            return true;
        }
        index += 1;
    }
    false
}

fn record_is_safe(record: &DiskRecord) -> (result: bool)
    ensures
        result == is_safe(*record),
{
    record.is_candidate() && valid_identifier(record.bsd_name.as_str()) && record.registry_entry_id
        != 0 && record.size != 0
}

fn safe_media(record: &DiskRecord) -> (result: SafeMedia)
    ensures
        result == media_of(*record),
{
    let name = match &record.name {
        Some(name) => {
            let bare = trim(name.as_str());
            if bare.as_str().is_empty() {
                None
            } else {
                Some(name.clone())
            }
        },
        None => None,
    };
    SafeMedia { registry_entry_id: record.registry_entry_id, name, size: record.size }
}

proof fn collection_fault_stays(records: Seq<DiskRecord>, upto: int)
    requires
        0 <= upto <= records.len(),
        collect(records.take(upto)) is Err,
    ensures
        collect(records) == collect(records.take(upto)),
    decreases records.len() - upto,
{
    if upto < records.len() {
        assert(records.take(upto + 1).drop_last() =~= records.take(upto));
        collection_fault_stays(records, upto + 1);
    } else {
        assert(records.take(upto) =~= records);
    }
}

/// The safe media among the records of the I/O Registry.
pub fn safe_media_records(records: &Vec<DiskRecord>) -> (result: Result<MediaTable, DriveError>)
    ensures
        match result {
            Ok(table) => table.well_formed() && collect(records@) == Ok::<
                Map<Seq<char>, SafeMedia>,
                DriveErrorView,
            >(table@),
            Err(error) => collect(records@) == Err::<Map<Seq<char>, SafeMedia>, DriveErrorView>(
                error@,
            ),
        },
{
    let mut table = MediaTable::new();
    let mut index: usize = 0;
    assert(records@.take(0) =~= Seq::empty());
    while index < records.len()
        invariant
            index <= records@.len(),
            table.well_formed(),
            collect(records@.take(index as int)) == Ok::<
                Map<Seq<char>, SafeMedia>,
                DriveErrorView,
            >(table@),
        decreases records@.len() - index,
    {
        let record: &DiskRecord = &records[index];
        let ghost upto = records@.take(index as int + 1);
        assert(upto.drop_last() =~= records@.take(index as int));
        assert(upto.last() == *record);
        if record_is_safe(record) {
            assert(repeats_an_entry(upto, index as int) == repeats_an_entry(
                records@,
                index as int,
            )) by {
                if repeats_an_entry(records@, index as int) {
                    let i = choose|i: int|
                        0 <= i < index && is_safe(#[trigger] records@[i])
                            && records@[i].registry_entry_id
                            == records@[index as int].registry_entry_id;
                    assert(is_safe(upto[i]));
                }
                if repeats_an_entry(upto, index as int) {
                    let i = choose|i: int|
                        0 <= i < index && is_safe(#[trigger] upto[i]) && upto[i].registry_entry_id
                            == upto[index as int].registry_entry_id;
                    assert(is_safe(records@[i]));
                }
            }
            if entry_is_repeated(records, index) {
                proof {
                    collection_fault_stays(records@, index as int + 1);
                }
                let number = decimal_text(record.registry_entry_id);
                return Err(
                    DriveError::InvalidData(
                        text::join2("duplicate I/O Registry entry ID ", number.as_str()),
                    ),
                );
            }
            if table.get(record.bsd_name.as_str()).is_some() {
                proof {
                    collection_fault_stays(records@, index as int + 1);
                }
                return Err(
                    DriveError::InvalidData(
                        text::join2(
                            "duplicate I/O Registry identity for ",
                            record.bsd_name.as_str(),
                        ),
                    ),
                );
            }
            let media = safe_media(record);
            table.insert(record.bsd_name.clone(), media);
        }
        index += 1;
    }
    assert(records@.take(records@.len() as int) =~= records@);
    Ok(table)
}

// ---------------------------------------------------------------------------------------------
// Drives
// ---------------------------------------------------------------------------------------------

/// The drive that a medium is offered as.
pub open spec fn media_drive(disk_id: Seq<char>, media: SafeMedia) -> DriveView {
    DriveView {
        id: stable_identifier(disk_id, media.registry_entry_id as nat),
        device: device_path(disk_id),
        name: match media.name {
            Some(name) => name@,
            None => drives::unnamed(),
        },
        capacity: media.size,
    }
}

/// The drive with an identifier: the medium of the named disk, where it is still the same entry of
/// the I/O Registry.
pub open spec fn drive_of(value: Seq<char>, media: Map<Seq<char>, SafeMedia>) -> Option<DriveView> {
    match split_identifier(value) {
        Some((disk_id, entry)) => if media.dom().contains(disk_id)
            && media[disk_id].registry_entry_id == entry {
            Some(media_drive(disk_id, media[disk_id]))
        } else {
            None
        },
        None => None,
    }
}

fn offer(disk_id: &str, media: &SafeMedia) -> (drive: Drive)
    ensures
        drive@ == media_drive(disk_id@, *media),
{
    Drive {
        device: text::join2("/dev/", disk_id),
        id: format_stable_identifier(disk_id, media.registry_entry_id),
        name: match &media.name {
            Some(name) => name.clone(),
            None => "Removable drive".to_owned(),
        },
        capacity: media.size,
    }
}

/// The drive with an identifier, where its medium is still there.
pub fn registry_drive(value: &str, registry_entries: &MediaTable) -> (result: Option<Drive>)
    requires
        registry_entries.well_formed(),
    ensures
        match result {
            Some(drive) => drive_of(value@, registry_entries@) == Some(drive@),
            None => drive_of(value@, registry_entries@) is None,
        },
{
    match split_stable_identifier(value) {
        Some((disk_id, entry)) => match registry_entries.get(disk_id.as_str()) {
            Some(media) => {
                if media.registry_entry_id == entry {
                    Some(offer(disk_id.as_str(), media))
                } else {
                    None
                }
            },
            None => None,
        },
        None => None,
    }
}

/// The drive with an identifier among the records of the I/O Registry.
pub fn removable_drive_by_stable_id(value: &str, records: &Vec<DiskRecord>) -> (result: Result<
    Option<Drive>,
    DriveError,
>)
    ensures
        match collect(records@) {
            Err(error) => result matches Err(fault) && fault@ == error,
            Ok(media) => match drive_of(value@, media) {
                Some(view) => result matches Ok(Some(drive)) && drive@ == view,
                None => result matches Ok(None),
            },
        },
{
    match safe_media_records(records) {
        Err(error) => Err(error),
        Ok(table) => Ok(registry_drive(value, &table)),
    }
}

/// Whether some drives are exactly those of the media, in the order of their disk names.
pub open spec fn is_listing(found: Seq<DriveView>, media: Map<Seq<char>, SafeMedia>) -> bool {
    exists|entries: Seq<(String, SafeMedia)>|
        #![trigger in_order(entries)]
        in_order(entries) && entries_map(entries) == media && found == Seq::new(
            entries.len(),
            |i: int| media_drive(entries[i].0@, entries[i].1),
        )
}

/// The safe media as drives, in the order of their disk names.
pub fn removable_drives(records: &Vec<DiskRecord>) -> (result: Result<Vec<Drive>, DriveError>)
    ensures
        match collect(records@) {
            Err(error) => result matches Err(fault) && fault@ == error,
            Ok(media) => result matches Ok(found) && is_listing(
                drives::drive_views(found@),
                media,
            ),
        },
{
    let table = match safe_media_records(records) {
        Ok(table) => table,
        Err(error) => {
            return Err(error);
        },
    };
    let ghost entries = table.listed();
    let ghost wanted = Seq::new(
        entries.len(),
        |i: int| media_drive(entries[i].0@, entries[i].1),
    );
    let mut found: Vec<Drive> = Vec::new();
    let mut index: usize = 0;
    assert(drives::drive_views(found@) =~= wanted.take(0));
    while index < table.entries.len()
        invariant
            index <= table.entries@.len(),
            entries == table.entries@,
            wanted == Seq::new(
                entries.len(),
                |i: int| media_drive(entries[i].0@, entries[i].1),
            ),
            drives::drive_views(found@) == wanted.take(index as int),
        decreases table.entries@.len() - index,
    {
        let drive = offer(table.entries[index].0.as_str(), &table.entries[index].1);
        let ghost before = drives::drive_views(found@);
        found.push(drive);
        assert(drives::drive_views(found@) =~= before.push(drive@));
        assert(wanted.take(index as int + 1) =~= wanted.take(index as int).push(
            wanted[index as int],
        ));
        index += 1;
    }
    assert(wanted.take(wanted.len() as int) =~= wanted);
    assert(in_order(entries));
    Ok(found)
}

proof fn collected_media_are_safe(records: Seq<DiskRecord>, name: Seq<char>)
    requires
        collect(records) is Ok,
        collect(records)->Ok_0.dom().contains(name),
    ensures
        is_disk_name(name),
        collect(records)->Ok_0[name].registry_entry_id > 0,
        collect(records)->Ok_0[name].size > 0,
    decreases records.len(),
{
    if records.len() > 0 {
        let before = collect(records.drop_last())->Ok_0;
        if before.dom().contains(name) {
            collected_media_are_safe(records.drop_last(), name);
        }
    }
}

/// Every medium that discovery offers is found again under the identifier it was offered with, as
/// long as the registry still holds it, and has an identity that the worker accepts.
pub proof fn offered_media_are_found_again(records: Seq<DiskRecord>, name: Seq<char>)
    requires
        collect(records) is Ok,
        collect(records)->Ok_0.dom().contains(name),
    ensures
        ({
            let media = collect(records)->Ok_0;
            let drive = media_drive(name, media[name]);
            &&& drive_of(drive.id, media) == Some(drive)
            &&& is_worker_drive(drives::worker_view(drive))
        }),
{
    let media = collect(records)->Ok_0;
    collected_media_are_safe(records, name);
    stable_identifier_splits_back(name, media[name].registry_entry_id);
}

/// A drive that was selected is not found again once another medium has taken its disk's name: a
/// different registry entry makes a different identifier.
pub proof fn replaced_media_are_not_found(
    name: Seq<char>,
    selected_entry: u64,
    media: Map<Seq<char>, SafeMedia>,
)
    requires
        is_disk_name(name),
        selected_entry > 0,
        media.dom().contains(name) ==> media[name].registry_entry_id != selected_entry,
    ensures
        drive_of(stable_identifier(name, selected_entry as nat), media) is None,
{
    stable_identifier_splits_back(name, selected_entry);
}

/// A medium is offered only where one record of the I/O Registry describes it as safe.
pub proof fn offered_media_are_safe(records: Seq<DiskRecord>, name: Seq<char>)
    requires
        collect(records) is Ok,
        collect(records)->Ok_0.dom().contains(name),
    ensures
        exists|i: int|
            #![trigger records[i]]
            0 <= i < records.len() && is_safe(records[i]) && records[i].bsd_name@ == name
                && collect(records)->Ok_0[name] == media_of(records[i]),
    decreases records.len(),
{
    let front = records.drop_last();
    let media = collect(front)->Ok_0;
    if media.dom().contains(name) {
        offered_media_are_safe(front, name);
        let i = choose|i: int|
            #![trigger front[i]]
            0 <= i < front.len() && is_safe(front[i]) && front[i].bsd_name@ == name && media[name]
                == media_of(front[i]);
        assert(records[i] == front[i]);
    } else {
        assert(records[records.len() - 1] == records.last());
    }
}

/// What is required of a record to be offered: a whole, writable, removable, ejectable and physical
/// medium, with a registry entry and a size, under the name of a disk and not of a partition.
pub open spec fn may_be_offered(record: DiskRecord) -> bool {
    let name = record.bsd_name@;
    &&& record.whole && record.writable && record.removable && record.ejectable && record.physical
    &&& record.registry_entry_id > 0
    &&& record.size > 0
    &&& name.len() > 4 && name.take(4) == "disk"@
    &&& forall|i: int| 4 <= i < name.len() ==> '0' <= #[trigger] name[i] <= '9'
}

proof fn safe_records_are_those_required(record: DiskRecord)
    ensures
        is_safe(record) <==> may_be_offered(record),
{
    reveal_strlit("disk");
    let name = record.bsd_name@;
    let digits = name.subrange(4, name.len() as int);
    if text::starts_with(name, "disk"@) {
        assert forall|i: int| 0 <= i < digits.len() implies digits[i] == name[i + 4] by {}
        if text::all_digits(digits) {
            assert forall|i: int| 4 <= i < name.len() implies '0' <= #[trigger] name[i] <= '9' by {
                assert(digits[i - 4] == name[i]);
            }
        }
    }
}

/// Whether a drive is the one that a record is offered as: identified by the disk's name and the
/// registry entry, at the disk's device path, with its name and its size.
pub open spec fn describes(drive: DriveView, record: DiskRecord) -> bool {
    &&& drive.id == record.bsd_name@ + "@"@ + text::decimal(record.registry_entry_id as nat)
    &&& drive.device == "/dev/"@ + record.bsd_name@
    &&& drive.capacity == record.size
    &&& drive.name == (if record.name matches Some(name) && text::trimmed(name@).len() > 0 {
        record.name->0@
    } else {
        "Removable drive"@
    })
}

/// Whether a drive describes one of some records that may be offered.
pub open spec fn is_of_a_record(drive: DriveView, records: Seq<DiskRecord>) -> bool {
    exists|i: int|
        0 <= i < records.len() && may_be_offered(#[trigger] records[i]) && describes(
            drive,
            records[i],
        )
}

proof fn collected_media_hold_every_safe_record(records: Seq<DiskRecord>, at: int)
    requires
        collect(records) is Ok,
        0 <= at < records.len(),
        is_safe(records[at]),
    ensures
        collect(records)->Ok_0.dom().contains(records[at].bsd_name@),
        collect(records)->Ok_0[records[at].bsd_name@] == media_of(records[at]),
    decreases records.len(),
{
    let front = records.drop_last();
    if at < front.len() {
        assert(front[at] == records[at]);
        collected_media_hold_every_safe_record(front, at);
    } else {
        assert(records[at] == records.last());
    }
}

/// Where a listing succeeds, it holds every medium that may be offered and no other: each record
/// that may be offered has a drive that describes it, each drive describes such a record, and the
/// drives stand in the order of the disks' names, each once.
pub proof fn every_offerable_medium_is_listed(records: Seq<DiskRecord>, found: Seq<DriveView>)
    requires
        collect(records) is Ok,
        is_listing(found, collect(records)->Ok_0),
    ensures
        forall|i: int|
            0 <= i < records.len() && may_be_offered(#[trigger] records[i]) ==> exists|j: int|
                0 <= j < found.len() && describes(#[trigger] found[j], records[i]),
        forall|j: int| 0 <= j < found.len() ==> is_of_a_record(#[trigger] found[j], records),
{
    let media = collect(records)->Ok_0;
    let entries = choose|entries: Seq<(String, SafeMedia)>|
        #![trigger in_order(entries)]
        in_order(entries) && entries_map(entries) == media && found == Seq::new(
            entries.len(),
            |i: int| media_drive(entries[i].0@, entries[i].1),
        );
    assert forall|i: int| 0 <= i < records.len() && may_be_offered(#[trigger] records[i]) implies
        exists|j: int| 0 <= j < found.len() && describes(#[trigger] found[j], records[i]) by {
        safe_records_are_those_required(records[i]);
        collected_media_hold_every_safe_record(records, i);
        let name = records[i].bsd_name@;
        let j = place_of(entries, name);
        assert(entries_map(entries).dom().contains(name));
        assert(is_entry(entries, j, name));
        assert(entries_map(entries)[name] == entries[j].1);
        assert(describes(found[j], records[i]));
    }
    assert forall|j: int| 0 <= j < found.len() implies is_of_a_record(
        #[trigger] found[j],
        records,
    ) by {
        let name = entries[j].0@;
        assert(is_entry(entries, j, name));
        assert(entries_map(entries).dom().contains(name));
        let k = place_of(entries, name);
        assert(is_entry(entries, k, name));
        one_entry_for_a_name(entries, j, k);
        offered_media_are_safe(records, name);
        let i = choose|i: int|
            #![trigger records[i]]
            0 <= i < records.len() && is_safe(records[i]) && records[i].bsd_name@ == name
                && media[name] == media_of(records[i]);
        safe_records_are_those_required(records[i]);
        assert(describes(found[j], records[i]));
    }
}

proof fn one_entry_for_a_name(entries: Seq<(String, SafeMedia)>, first: int, second: int)
    requires
        in_order(entries),
        0 <= first < entries.len(),
        0 <= second < entries.len(),
        entries[first].0@ == entries[second].0@,
    ensures
        first == second,
{
    text_order(entries[first].0@, entries[second].0@);
}

/// A listing fails only where it is ambiguous: two media that may be offered have one registry entry
/// or one disk's name.
pub proof fn listing_fails_only_where_it_is_ambiguous(records: Seq<DiskRecord>)
    ensures
        collect(records) is Err <==> exists|i: int, j: int|
            0 <= i < j < records.len() && #[trigger] may_be_offered(records[i])
                && #[trigger] may_be_offered(records[j]) && (records[i].registry_entry_id
                == records[j].registry_entry_id || records[i].bsd_name@ == records[j].bsd_name@),
    decreases records.len(),
{
    if records.len() > 0 {
        let front = records.drop_last();
        let last = records.len() - 1;
        assert(records[last] == records.last());
        assert(forall|i: int| 0 <= i < last ==> #[trigger] front[i] == records[i]);
        assert forall|i: int| 0 <= i < records.len() implies is_safe(#[trigger] records[i])
            == may_be_offered(records[i]) by {
            safe_records_are_those_required(records[i]);
        }
        listing_fails_only_where_it_is_ambiguous(front);
        if collect(front) is Err {
            let (i, j) = choose|i: int, j: int|
                0 <= i < j < front.len() && #[trigger] may_be_offered(front[i])
                    && #[trigger] may_be_offered(front[j]) && (front[i].registry_entry_id
                    == front[j].registry_entry_id || front[i].bsd_name@ == front[j].bsd_name@);
            assert(may_be_offered(records[i]) && may_be_offered(records[j]));
        } else {
            let media = collect(front)->Ok_0;
            if collect(records) is Err {
                if repeats_an_entry(records, last) {
                    let i = choose|i: int|
                        0 <= i < last && is_safe(#[trigger] records[i])
                            && records[i].registry_entry_id == records[last].registry_entry_id;
                    assert(may_be_offered(records[i]) && may_be_offered(records[last]));
                } else {
                    offered_media_are_safe(front, records[last].bsd_name@);
                    let i = choose|i: int|
                        #![trigger front[i]]
                        0 <= i < front.len() && is_safe(front[i]) && front[i].bsd_name@
                            == records[last].bsd_name@;
                    assert(records[i] == front[i]);
                    assert(may_be_offered(records[i]) && may_be_offered(records[last]));
                }
            }
            if exists|i: int, j: int|
                0 <= i < j < records.len() && #[trigger] may_be_offered(records[i])
                    && #[trigger] may_be_offered(records[j]) && (records[i].registry_entry_id
                    == records[j].registry_entry_id || records[i].bsd_name@
                    == records[j].bsd_name@) {
                let (i, j) = choose|i: int, j: int|
                    0 <= i < j < records.len() && #[trigger] may_be_offered(records[i])
                        && #[trigger] may_be_offered(records[j]) && (records[i].registry_entry_id
                        == records[j].registry_entry_id || records[i].bsd_name@
                        == records[j].bsd_name@);
                if j < last {
                    assert(may_be_offered(front[i]) && may_be_offered(front[j]));
                } else {
                    assert(is_safe(records[i]));
                    assert(is_safe(front[i]));
                    collected_media_hold_every_safe_record(front, i);
                }
            }
        }
    }
}

/// A text names a whole disk exactly where it is `disk` and digits; an identifier comes apart only
/// where it is such a name and the digits of a registry entry other than zero around an `@`; and the
/// disk that an identifier names stands before that `@`, or is all of it.
pub proof fn split_identifier_is_put_together_again(value: Seq<char>, digits: Seq<char>)
    requires
        digits.len() > 0,
        text::all_digits(digits),
    ensures
        is_disk_name("disk"@ + digits),
        named_disk("disk"@ + digits) == Some("disk"@ + digits),
        is_disk_name(value) ==> value == "disk"@ + value.subrange(4, value.len() as int),
        split_identifier(value) matches Some((front, entry)) ==> {
            let number = value.subrange(front.len() + 1int, value.len() as int);
            &&& value == front + "@"@ + number
            &&& is_disk_name(front)
            &&& text::all_digits(number) && text::digits_value(number) == entry && entry > 0
            &&& named_disk(value) == Some(front)
        },
        device_path(value) == "/dev/"@ + value,
{
    reveal_strlit("@");
    reveal_strlit("disk");
    text::find_bounds(value, '@');
    let at = text::find(value, '@');
    if split_identifier(value) is Some {
        assert(value =~= value.take(at) + "@"@ + value.subrange(at + 1, value.len() as int));
    }
    let name = "disk"@ + digits;
    assert(name.subrange(4, name.len() as int) =~= digits);
    assert(name.take(4) =~= "disk"@);
    text::find_bounds(name, '@');
    let place = text::find(name, '@');
    if place < name.len() {
        if place < 4 {
            assert(name[place] == "disk"@[place]);
        } else {
            assert(name[place] == digits[place - 4]);
            assert(text::is_digit(digits[place - 4]));
        }
    }
    assert(name.take(name.len() as int) =~= name);
    if is_disk_name(value) {
        assert(value =~= value.take(4) + value.subrange(4, value.len() as int));
    }
}

/// A drive that can be written to has room, however much; and its identifier alone says which disk it
/// is: two with the same identifier have the same path.
pub proof fn identifier_tells_the_path(first: WorkerDriveView, second: WorkerDriveView)
    requires
        is_worker_drive(first),
    ensures
        first.capacity > 0,
        second.id == first.id && second.device == first.device && second.capacity > 0
            ==> is_worker_drive(second),
        is_worker_drive(second) && second.id == first.id ==> second.device == first.device,
{
}

} // verus!
