//! The RIB files of a run: where each is downloaded from and where it is
//! kept.

use crate::text::{basename, basename_of, chars_of};
use vstd::prelude::*;
use vstd::string::StringExecFns;

verus! {

/// One RIB file: the address it is downloaded from and its local path.
#[derive(Debug)]
pub struct RibFile {
    pub url: String,
    pub filename: String,
}

/// The name under which the files of a collector are filed: `ris` for the
/// collectors whose name starts with `rrc`, `route-views` for the others.
pub open spec fn source_of(collector_id: Seq<char>) -> Seq<char> {
    if "rrc"@.is_prefix_of(collector_id) {
        "ris"@
    } else {
        "route-views"@
    }
}

/// The local path of the file of collector `collector_id` that is
/// downloaded from `url`, in the directory `dir`: the name of the file at
/// `url`, behind the collector's name, and behind the collector's source
/// too where the collector's name does not start with it.
pub open spec fn local_filename(dir: Seq<char>, collector_id: Seq<char>, url: Seq<char>) -> Seq<
    char,
> {
    let source = source_of(collector_id);
    if source.is_prefix_of(collector_id) {
        dir + "/"@ + collector_id + "."@ + basename_of(url)
    } else {
        dir + "/"@ + source + "."@ + collector_id + "."@ + basename_of(url)
    }
}

/// Whether `text` starts with `start`.
pub fn starts_with(text: &str, start: &str) -> (b: bool)
    ensures
        b == start@.is_prefix_of(text@),
{
    let t = chars_of(text);
    let s = chars_of(start);
    if s.len() > t.len() {
        return false;
    }
    let mut i: usize = 0;
    while i < s.len()
        invariant
            t@ == text@,
            s@ == start@,
            s.len() <= t.len(),
            i <= s.len(),
            forall|j: int| 0 <= j < i ==> text@[j] == start@[j],
        decreases s.len() - i,
    {
        if t[i] != s[i] {
            assert(text@.subrange(0, start@.len() as int)[i as int] != start@[i as int]);
            return false;
        }
        i += 1;
    }
    assert(start@ =~= text@.subrange(0, start@.len() as int));
    true
}

impl RibFile {
    pub fn new(url: String, filename: String) -> (r: Self)
        ensures
            r.url == url,
            r.filename == filename,
    {
        Self { url, filename }
    }

    pub fn get_filename(&self) -> (r: &String)
        ensures
            *r == self.filename,
    {
        &self.filename
    }

    /// The file of collector `collector_id` that is downloaded from `url`,
    /// kept in the directory `dir`.
    pub fn in_dir(dir: &str, collector_id: &str, url: String) -> (r: Self)
        ensures
            r.url == url,
            r.filename@ == local_filename(dir@, collector_id@, url@),
    {
        let name = basename(url.as_str());
        let source = if starts_with(collector_id, "rrc") {
            "ris"
        } else {
            "route-views"
        };
        let mut filename = String::from_str(dir);
        filename.append("/");
        if !starts_with(collector_id, source) {
            filename.append(source);
            filename.append(".");
        }
        filename.append(collector_id);
        filename.append(".");
        filename.append(name.as_str());
        Self { url, filename }
    }
}

} // verus!
