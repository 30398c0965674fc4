//! What macOS says of its media: the facts of IOKit and of Disk Arbitration, and what they prove.

use vstd::prelude::*;
use vstd::string::*;

use crate::text;
use crate::text::{chars_of, has_prefix, same_ignoring_case, trim};

verus! {

/// How far the ancestry of a medium is followed.
pub const MAX_ANCESTORS: usize = 64;

/// One `IOMedia` entry of the I/O Registry.
#[derive(Clone, Debug, PartialEq, Eq)]
pub struct DiskRecord {
    pub bsd_name: String,
    pub name: Option<String>,
    pub registry_entry_id: u64,
    pub size: u64,
    pub whole: bool,
    pub writable: bool,
    pub removable: bool,
    pub ejectable: bool,
    pub physical: bool,
}

impl DiskRecord {
    /// Whether the entry is a whole, writable, removable, ejectable and physical medium.
    pub open spec fn claims_to_be_a_card(self) -> bool {
        self.whole && self.writable && self.removable && self.ejectable && self.physical
    }

    /// Whether the entry is a whole, writable, removable, ejectable and physical medium.
    pub fn is_candidate(&self) -> (result: bool)
        ensures
            result == self.claims_to_be_a_card(),
    {
        self.whole && self.writable && self.removable && self.ejectable && self.physical
    }
}

/// The properties of an `IOMedia` entry, as far as it has them.
#[derive(Debug)]
pub struct MediaProperties {
    pub bsd_name: Option<String>,
    pub size: Option<u64>,
    pub name: Option<String>,
    pub whole: Option<bool>,
    pub writable: Option<bool>,
    pub removable: Option<bool>,
    pub ejectable: Option<bool>,
}

/// A flag that is set only where it is present and true.
pub open spec fn is_set(flag: Option<bool>) -> bool {
    flag == Some(true)
}

fn flag_is_set(flag: Option<bool>) -> (result: bool)
    ensures
        result == is_set(flag),
{
    match flag {
        Some(value) => value,
        None => false,
    }
}

/// The record of an entry that has a name and a size; a safety flag that is missing counts as not
/// set, and a name of white space alone as none.
pub fn media_record(properties: MediaProperties, registry_entry_id: u64, physical: bool) -> (result:
    Option<DiskRecord>)
    ensures
        match result {
            None => properties.bsd_name is None || properties.size is None,
            Some(record) => {
                &&& properties.bsd_name == Some(record.bsd_name)
                &&& properties.size == Some(record.size)
                &&& record.registry_entry_id == registry_entry_id
                &&& record.physical == physical
                &&& record.whole == is_set(properties.whole)
                &&& record.writable == is_set(properties.writable)
                &&& record.removable == is_set(properties.removable)
                &&& record.ejectable == is_set(properties.ejectable)
                &&& record.name == (if properties.name matches Some(name) && text::trimmed(
                    name@,
                ).len() > 0 {
                    properties.name
                } else {
                    None
                })
            },
        },
{
    let bsd_name = match properties.bsd_name {
        Some(bsd_name) => bsd_name,
        None => {
            return None;
        },
    };
    let size: u64 = match properties.size {
        Some(size) => size,
        None => {
            return None;
        },
    };
    let name = match properties.name {
        Some(name) => {
            let bare = trim(name.as_str());
            if bare.as_str().is_empty() {
                None
            } else {
                Some(name)
            }
        },
        None => None,
    };
    Some(
        DiskRecord {
            bsd_name,
            name,
            registry_entry_id,
            size,
            whole: flag_is_set(properties.whole),
            writable: flag_is_set(properties.writable),
            removable: flag_is_set(properties.removable),
            ejectable: flag_is_set(properties.ejectable),
            physical,
        },
    )
}

/// What the lookup of an entry's parent came to.
#[derive(Debug)]
pub enum ParentLookup {
    /// The entry is the root.
    Root,
    /// There is a parent.
    Found,
    /// The lookup failed, with this status.
    Failed(String),
}

/// What one entry of a medium's ancestry shows.
#[derive(Debug)]
pub enum Ancestry {
    /// The medium is backed by a file.
    Virtual,
    /// The root is reached: the medium is physical.
    Physical,
    /// The parent is to be looked at.
    Ascend,
    /// Nothing can be said of the medium.
    Fault(String),
}

/// Whether an entry belongs to a disk image: by its class, or by its interconnect location.
pub open spec fn is_file_backed(class: Option<String>, location: Option<String>) -> bool {
    ||| class matches Some(name) && text::starts_with(name@, "IOHDIX"@)
    ||| location matches Some(place) && text::lower_text(place@) == text::lower_text("File"@)
}

/// Whether a medium is physical, one entry of its ancestry at a time. `above` entries were looked
/// at before this one.
pub fn inspect_ancestor(
    class: &Option<String>,
    location: &Option<String>,
    parent: &ParentLookup,
    above: usize,
) -> (result: Ancestry)
    ensures
        if is_file_backed(*class, *location) {
            result is Virtual
        } else {
            match parent {
                ParentLookup::Root => result is Physical,
                ParentLookup::Failed(status) => result matches Ancestry::Fault(cause) && cause@
                    == "could not inspect I/O Registry ancestry (status "@ + status@ + ")"@,
                ParentLookup::Found => if above + 1 < MAX_ANCESTORS {
                    result is Ascend
                } else {
                    result matches Ancestry::Fault(cause) && cause@
                        == "I/O Registry ancestry exceeded the safety traversal limit"@
                },
            }
        },
{
    let image_class = match class {
        Some(name) => {
            let characters = chars_of(name.as_str());
            has_prefix(&characters, "IOHDIX").is_some()
        },
        None => false,
    };
    let in_file = match location {
        Some(place) => same_ignoring_case(place.as_str(), "File"),
        None => false,
    };
    if image_class || in_file {
        return Ancestry::Virtual;
    }
    match parent {
        ParentLookup::Root => Ancestry::Physical,
        ParentLookup::Failed(status) => Ancestry::Fault(
            text::join3(
                "could not inspect I/O Registry ancestry (status ",
                status.as_str(),
                ")",
            ),
        ),
        ParentLookup::Found => {
            if above < MAX_ANCESTORS - 1 {
                Ancestry::Ascend
            } else {
                Ancestry::Fault(
                    "I/O Registry ancestry exceeded the safety traversal limit".to_owned(),
                )
            }
        },
    }
}

/// What Disk Arbitration says of a medium.
#[derive(Debug)]
pub struct MediaDescription {
    pub bsd_name: Option<String>,
    pub size: Option<u64>,
    pub whole: Option<bool>,
    pub writable: Option<bool>,
    pub removable: Option<bool>,
    pub ejectable: Option<bool>,
}

/// Whether Disk Arbitration says of a medium exactly what IOKit says.
pub open spec fn agrees(record: DiskRecord, description: MediaDescription) -> bool {
    &&& text::optional_text(description.bsd_name) == Some(record.bsd_name@)
    &&& description.size == Some(record.size)
    &&& description.whole == Some(record.whole)
    &&& description.writable == Some(record.writable)
    &&& description.removable == Some(record.removable)
    &&& description.ejectable == Some(record.ejectable)
}

fn same_flag(stated: Option<bool>, wanted: bool) -> (result: bool)
    ensures
        result == (stated == Some(wanted)),
{
    match stated {
        Some(value) => value == wanted,
        None => false,
    }
}

/// Hold the record of a medium against its description by Disk Arbitration.
pub fn cross_check_disk_arbitration(record: &DiskRecord, description: &MediaDescription) -> (result:
    Result<(), String>)
    ensures
        match result {
            Ok(()) => agrees(*record, *description),
            Err(cause) => !agrees(*record, *description) && cause@
                == "IOKit and Disk Arbitration disagree about "@ + record.bsd_name@,
        },
{
    let same_name = match &description.bsd_name {
        Some(name) => *name == record.bsd_name,
        None => false,
    };
    let same_size = match description.size {
        Some(size) => size == record.size,
        None => false,
    };
    if same_name && same_size && same_flag(description.whole, record.whole) && same_flag(
        description.writable,
        record.writable,
    ) && same_flag(description.removable, record.removable) && same_flag(
        description.ejectable,
        record.ejectable,
    ) {
        Ok(())
    } else {
        Err(
            text::join2(
                "IOKit and Disk Arbitration disagree about ",
                record.bsd_name.as_str(),
            ),
        )
    }
}

/// One entry of the I/O Registry: its record, where it has one, and what Disk Arbitration says of
/// it, or why either could not be had.
#[derive(Debug)]
pub struct MediaEntry {
    pub record: Result<Option<DiskRecord>, String>,
    pub description: Result<MediaDescription, String>,
}

/// What one entry comes to: nothing, a medium, or a fault that ends the query. What Disk
/// Arbitration says matters only of an entry that claims to be a card.
pub open spec fn inspected(entry: MediaEntry) -> Result<Option<DiskRecord>, Seq<char>> {
    match entry.record {
        Err(cause) => Err(cause@),
        Ok(None) => Ok(None),
        Ok(Some(record)) => if !record.claims_to_be_a_card() {
            Ok(None)
        } else {
            match entry.description {
                Err(cause) => Err(cause@),
                Ok(description) => if agrees(record, description) {
                    Ok(Some(record))
                } else {
                    Err("IOKit and Disk Arbitration disagree about "@ + record.bsd_name@)
                },
            }
        },
    }
}

/// The media among some entries, or the first fault.
pub open spec fn removable_media(entries: Seq<MediaEntry>) -> Result<Seq<DiskRecord>, Seq<char>>
    decreases entries.len(),
{
    if entries.len() == 0 {
        Ok(Seq::empty())
    } else {
        match removable_media(entries.drop_last()) {
            Err(fault) => Err(fault),
            Ok(found) => match inspected(entries.last()) {
                Err(fault) => Err(fault),
                Ok(None) => Ok(found),
                Ok(Some(record)) => Ok(found.push(record)),
            },
        }
    }
}

proof fn fault_stays(entries: Seq<MediaEntry>, taken: int)
    requires
        0 <= taken <= entries.len(),
        removable_media(entries.take(taken)) is Err,
    ensures
        removable_media(entries) == removable_media(entries.take(taken)),
    decreases entries.len() - taken,
{
    if taken < entries.len() {
        assert(entries.take(taken + 1).drop_last() =~= entries.take(taken));
        fault_stays(entries, taken + 1);
    } else {
        assert(entries.take(taken) =~= entries);
    }
}

/// The removable media among the entries of the I/O Registry. An entry that IOKit and Disk
/// Arbitration disagree about ends the query.
pub fn query_removable_media(entries: Vec<MediaEntry>) -> (result: Result<Vec<DiskRecord>, String>)
    ensures
        match result {
            Ok(found) => removable_media(entries@) == Ok::<Seq<DiskRecord>, Seq<char>>(found@),
            Err(cause) => removable_media(entries@) == Err::<Seq<DiskRecord>, Seq<char>>(cause@),
        },
{
    let ghost all = entries@;
    let mut found: Vec<DiskRecord> = Vec::new();
    let mut rest = entries;
    let ghost mut taken: int = 0;
    assert(all.take(0) =~= Seq::empty());
    while rest.len() > 0
        invariant
            all == entries@,
            0 <= taken,
            taken + rest@.len() == all.len(),
            rest@ == all.skip(taken),
            removable_media(all.take(taken)) == Ok::<Seq<DiskRecord>, Seq<char>>(found@),
        decreases rest@.len(),
    {
        let entry = rest.remove(0);
        proof {
            assert(entry == all[taken]);
            assert(rest@ =~= all.skip(taken + 1));
            assert(all.take(taken + 1).drop_last() =~= all.take(taken));
            assert(all.take(taken + 1).last() == entry);
            if removable_media(all.take(taken + 1)) is Err {
                fault_stays(all, taken + 1);
            }
        }
        let description = entry.description;
        match entry.record {
            Err(cause) => {
                return Err(cause);
            },
            Ok(None) => {},
            Ok(Some(record)) => {
                if record.is_candidate() {
                    match description {
                        Err(cause) => {
                            return Err(cause);
                        },
                        Ok(description) => match cross_check_disk_arbitration(
                            &record,
                            &description,
                        ) {
                            Err(cause) => {
                                return Err(cause);
                            },
                            Ok(()) => {
                                found.push(record);
                            },
                        },
                    }
                }
            },
        }
        proof {
            taken = taken + 1;
        }
    }
    assert(all.take(taken) =~= all);
    Ok(found)
}

/// A medium that the query gives out was described by IOKit and by Disk Arbitration in the same
/// terms, and both say that it is a whole, writable, removable, ejectable and physical medium.
pub proof fn queried_media_are_confirmed(entries: Seq<MediaEntry>, record: DiskRecord)
    requires
        removable_media(entries) matches Ok(found) && found.contains(record),
    ensures
        record.claims_to_be_a_card(),
        exists|i: int|
            #![trigger entries[i]]
            0 <= i < entries.len() && entries[i].record == Ok::<Option<DiskRecord>, String>(
                Some(record),
            ) && entries[i].description is Ok && agrees(record, entries[i].description->Ok_0),
    decreases entries.len(),
{
    let found = removable_media(entries)->Ok_0;
    let place = choose|i: int| 0 <= i < found.len() && found[i] == record;
    if entries.len() > 0 {
        let before = removable_media(entries.drop_last())->Ok_0;
        if place < before.len() {
            assert(before[place] == record);
            queried_media_are_confirmed(entries.drop_last(), record);
            let i = choose|i: int|
                #![trigger entries.drop_last()[i]]
                0 <= i < entries.len() - 1 && entries.drop_last()[i].record == Ok::<
                    Option<DiskRecord>,
                    String,
                >(Some(record)) && entries.drop_last()[i].description is Ok && agrees(
                    record,
                    entries.drop_last()[i].description->Ok_0,
                );
            assert(entries[i] == entries.drop_last()[i]);
        } else {
            assert(entries[entries.len() - 1] == entries.last());
        }
    }
}

/// How an operation of Disk Arbitration stands.
#[derive(Debug)]
pub struct DiskActionState {
    pub complete: bool,
    pub error: Option<String>,
}

/// What an unmount or an eject came to once its time was up: it timed out, was refused, or is done.
pub fn disk_action_result(bsd_name: &str, state: DiskActionState) -> (result: Result<(), String>)
    ensures
        match result {
            Ok(()) => state.complete && state.error is None,
            Err(cause) => if !state.complete {
                cause@ == "Disk Arbitration timed out for "@ + bsd_name@
            } else {
                text::optional_text(state.error) == Some(cause@)
            },
        },
{
    if !state.complete {
        return Err(text::join2("Disk Arbitration timed out for ", bsd_name));
    }
    match state.error {
        Some(error) => Err(error),
        None => Ok(()),
    }
}

/// What an entry contributes to the media.
pub open spec fn contributed(entry: MediaEntry) -> Seq<DiskRecord> {
    match entry.record {
        Ok(Some(record)) => if record.whole && record.writable && record.removable
            && record.ejectable && record.physical {
            seq![record]
        } else {
            Seq::empty()
        },
        _ => Seq::empty(),
    }
}

/// Whether nothing speaks against an entry: its record can be had, and if it claims to be a card,
/// Disk Arbitration says of it in each point what IOKit says.
pub open spec fn is_unambiguous(entry: MediaEntry) -> bool {
    match entry.record {
        Err(_) => false,
        Ok(None) => true,
        Ok(Some(record)) => {
            let claims = record.whole && record.writable && record.removable && record.ejectable
                && record.physical;
            claims ==> {
                &&& entry.description matches Ok(said)
                &&& said.bsd_name matches Some(name)
                &&& name@ == record.bsd_name@
                &&& said.size == Some(record.size)
                &&& said.whole == Some(true) && said.writable == Some(true)
                &&& said.removable == Some(true) && said.ejectable == Some(true)
            }
        },
    }
}

/// Every card among the entries is given out, in their order and once each, and nothing else is; the
/// query fails exactly where something speaks against one of the entries.
pub proof fn every_confirmed_card_is_given_out(entries: Seq<MediaEntry>)
    ensures
        removable_media(entries) is Ok <==> forall|i: int|
            0 <= i < entries.len() ==> is_unambiguous(#[trigger] entries[i]),
        removable_media(entries) matches Ok(found) ==> found == entries.map_values(
            |entry: MediaEntry| contributed(entry),
        ).flatten(),
    decreases entries.len(),
{
    let given = |entry: MediaEntry| contributed(entry);
    if entries.len() == 0 {
        assert(entries.map_values(given) =~= Seq::empty());
        assert(entries.map_values(given).flatten() =~= Seq::empty());
    } else {
        let front = entries.drop_last();
        every_confirmed_card_is_given_out(front);
        assert forall|i: int| 0 <= i < front.len() implies #[trigger] front[i] == entries[i] by {}
        let last = entries.len() - 1;
        assert(entries[last] == entries.last());
        let parts = entries.map_values(given);
        assert(parts.drop_last() =~= front.map_values(given));
        parts.lemma_flatten_and_flatten_alt_are_equivalent();
        parts.drop_last().lemma_flatten_and_flatten_alt_are_equivalent();
        assert(parts.flatten() == parts.drop_last().flatten() + contributed(entries.last()));
        assert((inspected(entries.last()) is Ok) == is_unambiguous(entries.last()));
        if removable_media(entries) is Ok {
            let found = removable_media(front)->Ok_0;
            assert(found + contributed(entries.last()) =~= removable_media(entries)->Ok_0);
            assert forall|i: int| 0 <= i < entries.len() implies is_unambiguous(
                #[trigger] entries[i],
            ) by {
                if i < last {
                    assert(is_unambiguous(front[i]));
                }
            }
        } else if forall|i: int| 0 <= i < entries.len() ==> is_unambiguous(#[trigger] entries[i]) {
            assert forall|i: int| 0 <= i < front.len() implies is_unambiguous(
                #[trigger] front[i],
            ) by {
                assert(is_unambiguous(entries[i]));
            }
        }
    }
}

/// A medium is taken for the file of a disk image exactly where its class starts like that of one, or
/// its interconnect is a file, whatever the case of the letters.
pub proof fn disk_images_are_recognized(class: Option<String>, location: Option<String>)
    ensures
        class is Some && text::starts_with(class->0@, "IOHDIX"@) ==> is_file_backed(
            class,
            location,
        ),
        location is Some && location->0@ == "File"@ ==> is_file_backed(class, location),
        class is None && location is None ==> !is_file_backed(class, location),
{
}

} // verus!
