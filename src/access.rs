use vstd::prelude::*;

verus! {

/// Reader/writer exclusion for one record: any number of readers, or one writer.
#[derive(Debug)]
pub struct AccessFlag {
    readers: u32,
    writer: bool,
}

/// The state of an access flag: how many readers hold it, and whether a writer does.
pub struct AccessState {
    pub readers: nat,
    pub writer: bool,
}

impl View for AccessFlag {
    type V = AccessState;

    closed spec fn view(&self) -> AccessState {
        AccessState { readers: self.readers as nat, writer: self.writer }
    }
}

/// No writer holds the flag while a reader does.
pub open spec fn exclusive(s: AccessState) -> bool {
    !(s.writer && s.readers > 0)
}

pub open spec fn idle(s: AccessState) -> bool {
    s.readers == 0 && !s.writer
}

/// A read request: granted unless a writer holds the flag (or the reader count is full).
pub open spec fn read_step(s: AccessState) -> Option<AccessState> {
    if s.writer || s.readers >= u32::MAX {
        None
    } else {
        Some(AccessState { readers: s.readers + 1, writer: false })
    }
}

/// A write request: granted only when nobody holds the flag.
pub open spec fn write_step(s: AccessState) -> Option<AccessState> {
    if idle(s) {
        Some(AccessState { readers: 0, writer: true })
    } else {
        None
    }
}

impl AccessFlag {
    pub fn new() -> (r: AccessFlag)
        ensures
            idle(r@),
    {
        AccessFlag { readers: 0, writer: false }
    }

    pub fn is_idle(&self) -> (r: bool)
        ensures
            r == idle(self@),
    {
        self.readers == 0 && !self.writer
    }

    /// Takes a read access; the result says whether it was granted.
    pub fn try_read(&mut self) -> (granted: bool)
        ensures
            granted == (read_step(old(self)@) is Some),
            granted ==> Some(final(self)@) == read_step(old(self)@),
            !granted ==> final(self)@ == old(self)@,
    {
        if self.writer || self.readers == u32::MAX {
            false
        } else {
            self.readers = self.readers + 1;
            true
        }
    }

    /// Gives back a read access.
    pub fn release_read(&mut self)
        requires
            old(self)@.readers > 0,
        ensures
            final(self)@ == (AccessState { readers: (old(self)@.readers - 1) as nat, ..old(self)@ }),
    {
        self.readers = self.readers - 1;
    }

    /// Takes the write access; the result says whether it was granted.
    pub fn try_write(&mut self) -> (granted: bool)
        ensures
            granted == (write_step(old(self)@) is Some),
            granted ==> Some(final(self)@) == write_step(old(self)@),
            !granted ==> final(self)@ == old(self)@,
    {
        if self.writer || self.readers > 0 {
            false
        } else {
            self.writer = true;
            true
        }
    }

    /// Gives back the write access.
    pub fn release_write(&mut self)
        requires
            old(self)@.writer,
        ensures
            final(self)@ == (AccessState { writer: false, ..old(self)@ }),
    {
        self.writer = false;
    }
}

/// Readers never block each other: where no writer holds the flag, two read
/// requests in a row are both granted. A write is never granted beside another
/// access: it needs an idle flag, and while it is held every other request is
/// refused. Every step keeps readers and a writer apart.
pub proof fn lemma_reads_share_writes_exclude(s: AccessState)
    ensures
        !s.writer && s.readers + 2 <= u32::MAX ==> read_step(s) is Some && read_step(
            read_step(s)->Some_0,
        ) is Some,
        write_step(s) is Some ==> s.readers == 0 && !s.writer,
        s.writer ==> read_step(s) is None && write_step(s) is None,
        s.readers > 0 ==> write_step(s) is None,
        read_step(s) matches Some(t) ==> exclusive(t) && !t.writer,
        write_step(s) matches Some(t) ==> exclusive(t) && t.readers == 0,
{
}

} // verus!
