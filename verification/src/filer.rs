//! Directory entries as the client is shown them.

use crate::json::{
    json_lines, json_model, json_number, json_object2, json_object3, json_text, json_texts,
    object2, object3, Json,
};
use crate::order::{sort_lines, sorted_texts};
use crate::paths::{file_name, file_name_text, to_text};
use crate::response::texts;
use serde_json::Value;
use std::path::PathBuf;
use vstd::prelude::*;
use vstd::string::StringExecFns;

verus! {

/// A path to be shown to the client, and whether an icon goes before it.
pub struct DisplayPath {
    inner: PathBuf,
    enable_icon: bool,
}

/// How an entry named `name` is shown: a directory has the separator after its
/// name, and the icon goes before the whole where icons are enabled.
pub open spec fn entry_text(
    name: Seq<char>,
    is_dir: bool,
    separator: Seq<char>,
    enable_icon: bool,
    icon: Seq<char>,
) -> Seq<char> {
    let label = if is_dir {
        name + separator
    } else {
        name
    };
    if enable_icon {
        icon + label
    } else {
        label
    }
}

impl DisplayPath {
    /// The path that is shown.
    pub closed spec fn path(&self) -> PathBuf {
        self.inner
    }

    /// Whether an icon goes before the path.
    pub closed spec fn icon_enabled(&self) -> bool {
        self.enable_icon
    }

    /// Shows `path`, with an icon before it where `enable_icon` is set.
    pub fn new(path: PathBuf, enable_icon: bool) -> (r: Self)
        ensures
            r.path() == path,
            r.icon_enabled() == enable_icon,
    {
        Self { inner: path, enable_icon }
    }

    /// The name of the file or directory that the path ends in, where it has
    /// one that is valid Unicode.
    pub fn to_file_name_str(&self) -> (r: Option<String>)
        ensures
            match r {
                Some(name) => file_name_text(self.path()) == Some(name@),
                None => file_name_text(self.path()) is None,
            },
    {
        match file_name(&self.inner) {
            Some(name) => to_text(&name),
            None => None,
        }
    }

    /// The text that shows the path to the client: its file name, followed by
    /// `separator` where the path is a directory, and with `icon` before it
    /// where icons are enabled. `None` where the path has no file name to show.
    pub fn into_string(self, is_dir: bool, separator: &str, icon: &str) -> (r: Option<String>)
        ensures
            match file_name_text(self.path()) {
                Some(name) => r matches Some(text) && text@ == entry_text(
                    name,
                    is_dir,
                    separator@,
                    self.icon_enabled(),
                    icon@,
                ),
                None => r is None,
            },
    {
        match self.to_file_name_str() {
            Some(name) => Some(entry_label(name, is_dir, separator, self.enable_icon, icon)),
            None => None,
        }
    }
}

/// Shows an entry named `name`: a directory has `separator` after its name,
/// and `icon` goes before the whole where icons are enabled.
pub fn entry_label(
    name: String,
    is_dir: bool,
    separator: &str,
    enable_icon: bool,
    icon: &str,
) -> (text: String)
    ensures
        text@ == entry_text(name@, is_dir, separator@, enable_icon, icon@),
{
    let mut text = if enable_icon {
        String::from_str(icon).concat(name.as_str())
    } else {
        name
    };
    if is_dir {
        text.append(separator);
    }
    text
}

/// How many of `len` entries are listed under the limit `max`.
pub open spec fn listed_len(len: nat, max: Option<usize>) -> nat {
    match max {
        Some(m) => if m < len {
            m as nat
        } else {
            len
        },
        None => len,
    }
}

/// The texts of entries that were all read.
pub open spec fn read_texts<E>(entries: Seq<Result<String, E>>) -> Seq<Seq<char>> {
    Seq::new(entries.len(), |i: int| entries[i]->Ok_0@)
}

/// The failure that comes first among `entries`, if any of them failed.
pub open spec fn first_failure<E>(entries: Seq<Result<String, E>>) -> Option<E>
    decreases entries.len(),
{
    if entries.len() == 0 {
        None
    } else {
        match entries[0] {
            Err(e) => Some(e),
            Ok(_) => first_failure(entries.drop_first()),
        }
    }
}

proof fn lemma_first_failure_skips_read<E>(entries: Seq<Result<String, E>>, i: int)
    requires
        0 <= i < entries.len(),
        entries[i] is Ok,
    ensures
        first_failure(entries.skip(i)) == first_failure(entries.skip(i + 1)),
{
    assert(entries.skip(i).drop_first() =~= entries.skip(i + 1));
}

/// Lists the entries of a directory as they were read, each one the text that
/// shows it or the failure to read it. No more than `max` entries are taken,
/// in the order in which they were read. The first failure among them fails
/// the listing; without one, the texts taken are listed in ascending order.
pub fn read_dir_entries<E>(entries: Vec<Result<String, E>>, max: Option<usize>) -> (r: Result<
    Vec<String>,
    E,
>)
    ensures
        ({
            let taken = entries@.take(listed_len(entries@.len(), max) as int);
            match first_failure(taken) {
                Some(e) => r == Err::<Vec<String>, E>(e),
                None => {
                    &&& r matches Ok(list)
                    &&& sorted_texts(texts(list@))
                    &&& texts(list@).to_multiset() == read_texts(taken).to_multiset()
                },
            }
        }),
{
    let mut rest = entries;
    let n = match max {
        Some(m) => if m < rest.len() {
            m
        } else {
            rest.len()
        },
        None => rest.len(),
    };
    rest.truncate(n);
    let ghost taken = rest@;
    let mut list: Vec<String> = Vec::new();
    assert(taken.skip(0) =~= taken);
    for entry in it: rest
        invariant
            taken == it.seq(),
            taken == entries@.take(listed_len(entries@.len(), max) as int),
            texts(list@) == read_texts(taken.take(it.index() as int)),
            first_failure(taken) == first_failure(taken.skip(it.index() as int)),
    {
        match entry {
            Ok(text) => {
                list.push(text);
                proof {
                    lemma_first_failure_skips_read(taken, it.index() as int);
                    assert(read_texts(taken.take(it.index() + 1)) =~= read_texts(
                        taken.take(it.index() as int),
                    ).push(text@));
                }
            },
            Err(e) => return Err(e),
        }
    }
    sort_lines(&mut list);
    Ok(list)
}

/// The reply to a request for the entries of the directory `cwd`: the listing
/// with its directory and the number of its entries, or the failure with its
/// directory.
pub open spec fn filer_reply(
    id: u64,
    cwd: Seq<char>,
    listing: Result<Seq<Seq<char>>, Seq<char>>,
) -> Json {
    match listing {
        Ok(entries) => object3(
            "id"@,
            Json::Number(id as int),
            "provider_id"@,
            Json::Text("filer"@),
            "result"@,
            object3(
                "entries"@,
                json_texts(entries),
                "dir"@,
                Json::Text(cwd),
                "total"@,
                Json::Number(entries.len() as int),
            ),
        ),
        Err(message) => object3(
            "id"@,
            Json::Number(id as int),
            "provider_id"@,
            Json::Text("filer"@),
            "error"@,
            object2("message"@, Json::Text(message), "dir"@, Json::Text(cwd)),
        ),
    }
}

/// What a listing holds, as contracts see it.
pub open spec fn listing_view(listing: Result<Vec<String>, String>) -> Result<
    Seq<Seq<char>>,
    Seq<char>,
> {
    match listing {
        Ok(entries) => Ok(texts(entries@)),
        Err(message) => Err(message@),
    }
}

/// Answers the request `id` for the entries of the directory `cwd`, given
/// what listing it gave.
pub fn handle_message(id: u64, cwd: &str, listing: Result<Vec<String>, String>) -> (v: Value)
    ensures
        json_model(v) == filer_reply(id, cwd@, listing_view(listing)),
{
    proof {
        reveal_strlit("id");
        reveal_strlit("provider_id");
        reveal_strlit("result");
        reveal_strlit("error");
        reveal_strlit("entries");
        reveal_strlit("dir");
        reveal_strlit("total");
        reveal_strlit("message");
        assert("id"@.len() != "provider_id"@.len());
        assert("id"@.len() != "result"@.len());
        assert("id"@.len() != "error"@.len());
        assert("provider_id"@.len() != "result"@.len());
        assert("provider_id"@.len() != "error"@.len());
        assert("entries"@.len() != "dir"@.len());
        assert("entries"@.len() != "total"@.len());
        assert("dir"@.len() != "total"@.len());
        assert("message"@.len() != "dir"@.len());
    }
    let provider = json_text(String::from_str("filer"));
    let dir = json_text(String::from_str(cwd));
    match listing {
        Ok(entries) => {
            let total = json_number(entries.len() as u64);
            let result = json_object3("entries", json_lines(&entries), "dir", dir, "total", total);
            json_object3("id", json_number(id), "provider_id", provider, "result", result)
        },
        Err(message) => {
            let error = json_object2("message", json_text(message), "dir", dir);
            json_object3("id", json_number(id), "provider_id", provider, "error", error)
        },
    }
}

} // verus!
