//! The durable session store: one JSON record per session in a directory.
//! Reading and writing the files is the caller's part.

use vstd::prelude::*;
use crate::ids::{uuid_text, SessionId};
use crate::pathname::{path_extension, path_join};
use crate::state::{SessionPhase, SessionRecord};

verus! {

#[derive(Clone, Debug)]
pub struct FileSessionStore {
    directory: String,
}

impl FileSessionStore {
    pub closed spec fn dir(self) -> Seq<char> {
        self.directory@
    }

    pub fn new(directory: &str) -> (s: Self)
        ensures
            s.dir() == directory@,
    {
        FileSessionStore { directory: crate::text::owned(directory) }
    }

    pub fn directory(&self) -> (s: &str)
        ensures
            s@ == self.dir(),
    {
        self.directory.as_str()
    }

    /// `ID.json` in the store's directory.
    pub fn path_for(&self, session_id: SessionId) -> (p: String)
        ensures
            p@ == path_join(self.dir(), uuid_text(session_id.value() as nat) + ".json"@),
    {
        let mut name: Vec<char> = Vec::new();
        crate::text::push_str(&mut name, session_id.to_string().as_str());
        crate::text::push_str(&mut name, ".json");
        crate::pathname::join(self.directory.as_str(), crate::text::string_from(name.as_slice()).as_str())
    }
}

/// Only `.json` files hold records.
pub fn is_record_file(path: &str) -> (b: bool)
    ensures
        b == (path_extension(path@) == Some("json"@)),
{
    match crate::pathname::extension(path) {
        Some(e) => crate::text::str_eq(e.as_str(), "json"),
        None => false,
    }
}

/// The records that are neither idle nor terminal, in order.
pub open spec fn active_records(s: Seq<SessionRecord>) -> Seq<SessionRecord>
    decreases s.len(),
{
    if s.len() == 0 {
        Seq::empty()
    } else if s.last().phase.spec_is_active() {
        active_records(s.drop_last()).push(s.last())
    } else {
        active_records(s.drop_last())
    }
}

/// The records a restarted daemon must reconcile.
pub fn nonterminal(records: Vec<SessionRecord>) -> (r: Vec<SessionRecord>)
    ensures
        r@ == active_records(records@),
{
    let ghost all = records@;
    let mut rest = records;
    let mut out: Vec<SessionRecord> = Vec::new();
    let mut seen: usize = 0;
    let total = rest.len();
    assert(all.take(0) =~= Seq::<SessionRecord>::empty());
    assert(rest@ =~= all.skip(0));
    while rest.len() > 0
        invariant
            seen <= all.len(),
            all.len() == total,
            rest@ == all.skip(seen as int),
            out@ == active_records(all.take(seen as int)),
        decreases rest@.len(),
    {
        let rec = rest.remove(0);
        assert(rec == all[seen as int]);
        assert(all.take(seen as int + 1).drop_last() =~= all.take(seen as int));
        assert(all.take(seen as int + 1).last() == rec);
        if rec.phase.is_active() {
            out.push(rec);
        }
        seen = seen + 1;
        assert(rest@ =~= all.skip(seen as int));
    }
    assert(all.take(seen as int) =~= all);
    out
}

} // verus!
