//! The pure logic of the directory-backed event store: one record per
//! event, stored as a single artifact inside a directory, named
//! deterministically from the event's identity; only artifacts with the
//! recognized extension participate; records that fail to decode are
//! silently skipped during range scans.
//!
//! The file system itself, and the calendar-interchange text codec, live
//! in the unverified shell around this crate; they hand this module plain
//! values — artifact names, and the per-artifact decode results — and get
//! plain values back.

use vstd::prelude::*;
use vstd::string::StrSliceExecFns;
use vstd::string::StringExecFns;

use crate::backend::{filter_events_in_range, spec_overlapping};
use crate::event::{Event, EventId};

verus! {

/// The artifact name carries the recognized calendar-interchange
/// extension, with a non-empty base name before it.
pub open spec fn spec_is_ics_name(s: Seq<char>) -> bool {
    s.len() > 4 && s[s.len() - 4] == '.' && s[s.len() - 3] == 'i' && s[s.len() - 2] == 'c' && s[s
        .len() - 1] == 's'
}

/// Decides whether a directory entry's name is an event artifact.
pub fn is_event_file(name: &str) -> (r: bool)
    ensures
        r == spec_is_ics_name(name@),
{
    let n = name.unicode_len();
    if n <= 4 {
        return false;
    }
    name.get_char(n - 4) == '.' && name.get_char(n - 3) == 'i' && name.get_char(n - 2) == 'c'
        && name.get_char(n - 1) == 's'
}

/// The events among a directory scan's per-artifact decode results, in
/// scan order: a record that failed to decode is skipped, it does not
/// abort the scan.
pub open spec fn spec_decoded(s: Seq<Option<Event>>) -> Seq<Event>
    decreases s.len(),
{
    if s.len() == 0 {
        Seq::empty()
    } else {
        spec_decoded(s.drop_last()) + (match s.last() {
            Some(e) => seq![e],
            None => Seq::<Event>::empty(),
        })
    }
}

/// A directory of individually named event artifacts, one per event,
/// belonging to one named calendar.
pub struct LocalDir {
    pub dir: String,
    pub calendar: String,
}

impl LocalDir {
    pub fn new(dir: String, calendar: String) -> (r: LocalDir)
        ensures
            r.dir == dir,
            r.calendar == calendar,
    {
        LocalDir { dir, calendar }
    }

    /// The artifact path of an identity: the directory, a separator, the
    /// identity as base name, and the recognized extension — so that
    /// single-record reads, updates and deletes are direct lookups.
    pub fn event_path(&self, event_id: &EventId) -> (r: String)
        ensures
            r@ == self.dir@ + "/"@ + event_id@ + ".ics"@,
    {
        let mut path = self.dir.clone();
        path.append("/");
        path.append(event_id.as_str());
        path.append(".ics");
        path
    }

    /// Collects the events of a directory scan from its per-artifact
    /// decode results, keeping scan order and skipping decode failures.
    pub fn all_events(&self, parsed: &Vec<Option<Event>>) -> (r: Vec<Event>)
        ensures
            r@ == spec_decoded(parsed@),
    {
        let mut out: Vec<Event> = Vec::new();
        let mut i: usize = 0;
        while i < parsed.len()
            invariant
                0 <= i <= parsed@.len(),
                out@ == spec_decoded(parsed@.subrange(0, i as int)),
            decreases parsed@.len() - i,
        {
            let ghost prefix = parsed@.subrange(0, i as int);
            match &parsed[i] {
                Some(e) => out.push(e.clone()),
                None => {},
            }
            proof {
                let next = parsed@.subrange(0, i as int + 1);
                assert(next.drop_last() =~= prefix);
                assert(next.len() != 0);
                assert(spec_decoded(next) =~= (match next.last() {
                    Some(e) => spec_decoded(prefix).push(e),
                    None => spec_decoded(prefix),
                }));
            }
            i = i + 1;
        }
        proof {
            assert(parsed@.subrange(0, parsed@.len() as int) =~= parsed@);
        }
        out
    }

    /// Every decodable event of the scan whose range overlaps the closed
    /// interval `[from, to]`; an empty result is not a failure — the scan
    /// can only fail at the enumeration level, which the shell reports
    /// before any decode result reaches this function.
    pub fn get_events(&self, parsed: &Vec<Option<Event>>, from: i64, to: i64) -> (r: Option<
        Vec<Event>,
    >)
        ensures
            r matches Some(v) && v@ == spec_overlapping(spec_decoded(parsed@), from, to),
    {
        let all = self.all_events(parsed);
        Some(filter_events_in_range(&all, from, to))
    }

}

/// A step-by-step constructor for [`LocalDir`]: both fields must be given
/// before a value can be built.
pub struct LocalDirBuilder {
    pub dir: Option<String>,
    pub calendar: Option<String>,
}

impl LocalDirBuilder {
    pub fn new() -> (r: LocalDirBuilder)
        ensures
            r.dir == None::<String>,
            r.calendar == None::<String>,
    {
        LocalDirBuilder { dir: None, calendar: None }
    }

    pub fn dir(self, dir: String) -> (r: LocalDirBuilder)
        ensures
            r.dir == Some(dir),
            r.calendar == self.calendar,
    {
        LocalDirBuilder { dir: Some(dir), ..self }
    }

    pub fn calendar(self, calendar: String) -> (r: LocalDirBuilder)
        ensures
            r.dir == self.dir,
            r.calendar == Some(calendar),
    {
        LocalDirBuilder { calendar: Some(calendar), ..self }
    }

    /// Builds the directory store when both fields were given.
    pub fn build(self) -> (r: Option<LocalDir>)
        ensures
            (match (self.dir, self.calendar) {
                (Some(d), Some(c)) => r matches Some(l) && l.dir == d && l.calendar == c,
                _ => r == None::<LocalDir>,
            }),
    {
        match (self.dir, self.calendar) {
            (Some(d), Some(c)) => Some(LocalDir { dir: d, calendar: c }),
            _ => None,
        }
    }
}

} // verus!
