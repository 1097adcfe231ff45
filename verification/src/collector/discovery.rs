//! Discovery of the NVMe controllers of the host.
//!
//! The kernel lists its controllers as the entries of one directory. The
//! caller reads that directory; what the listing means is decided here.

use vstd::prelude::*;
use vstd::string::StringExecFns;

verus! {

/// The entries of a directory that could be read, in the order of the listing.
pub open spec fn readable(entries: Seq<Option<String>>) -> Seq<String> {
    entries.filter_map(|entry: Option<String>| entry)
}

/// The names that a listing holds, in the order of the listing. A directory
/// that is missing or cannot be read lists nothing, and an entry that could
/// not be read is passed over.
pub open spec fn listed_names(listing: Result<Vec<Option<String>>, String>) -> Seq<String> {
    match listing {
        Ok(entries) => readable(entries@),
        Err(_) => Seq::empty(),
    }
}

/// The line that reports a directory that could not be read, for the reason given.
pub open spec fn discovery_line(reason: Seq<char>) -> Seq<char> {
    "Failed to list NVMe controllers in /sys/class/nvme: "@ + reason
}

/// What is logged of a listing: nothing where the directory was read, and
/// one line where it was not.
pub open spec fn discovery_log(listing: Result<Vec<Option<String>>, String>) -> Option<Seq<char>> {
    match listing {
        Ok(_) => None,
        Err(reason) => Some(discovery_line(reason@)),
    }
}

/// Gives the directory whose entries are the controllers of the host.
pub fn controllers_directory() -> (path: &'static str)
    ensures
        path@ == "/sys/class/nvme"@,
{
    "/sys/class/nvme"
}

/// Gives the line to log for a listing, if there is one: a directory that
/// is missing or cannot be read is reported with the reason, and is then
/// taken as a host without controllers.
pub fn discovery_log_line(listing: &Result<Vec<Option<String>>, String>) -> (line: Option<String>)
    ensures
        match line {
            Some(text) => discovery_log(*listing) == Some(text@),
            None => discovery_log(*listing) is None,
        },
{
    match listing {
        Ok(_) => None,
        Err(reason) => {
            let mut text = "Failed to list NVMe controllers in /sys/class/nvme: ".to_owned();
            text.append(reason.as_str());
            Some(text)
        },
    }
}

/// Lists the controllers that the host exposes, from a reading of
/// [`controllers_directory`]: the reason where the directory is missing or
/// cannot be read, else its entries in the order of enumeration, each `None`
/// where the entry could not be read. To find no controller is no error.
pub fn list_nvme_controllers(listing: Result<Vec<Option<String>>, String>) -> (names: Vec<String>)
    ensures
        names@ == listed_names(listing),
        listing is Err ==> names@.len() == 0,
{
    let mut names: Vec<String> = Vec::new();
    if let Ok(entries) = listing {
        let ghost all = entries@;
        for entry in it: entries
            invariant
                names@ == readable(all.take(it.index() as int)),
                it.seq() == all,
        {
            proof {
                all.lemma_filter_map_take_succ(|entry: Option<String>| entry, it.index() as int);
            }
            if let Some(name) = entry {
                names.push(name);
            }
        }
        proof {
            assert(all.take(all.len() as int) =~= all);
        }
    }
    names
}

/// No name is invented and none is lost: the names are at most as many as
/// the entries, and where every entry could be read they are the entries.
pub proof fn readable_keeps_what_was_read(entries: Seq<Option<String>>)
    ensures
        readable(entries).len() <= entries.len(),
        (forall|i: int| 0 <= i < entries.len() ==> #[trigger] entries[i] is Some) ==> readable(
            entries,
        ) == entries.map_values(|entry: Option<String>| entry->0),
    decreases entries.len(),
{
    if entries.len() > 0 {
        readable_keeps_what_was_read(entries.drop_last());
        if forall|i: int| 0 <= i < entries.len() ==> #[trigger] entries[i] is Some {
            assert(forall|i: int|
                0 <= i < entries.drop_last().len() ==> #[trigger] entries.drop_last()[i]
                    == entries[i]);
            assert(entries.last() is Some);
            assert(readable(entries) =~= entries.map_values(|entry: Option<String>| entry->0));
        }
    }
}

} // verus!
