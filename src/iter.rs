//! The scan protocol: stepping through the rows of an index scan and
//! releasing its host resource exactly once.

use vstd::prelude::*;
use crate::error::{is_host_error, BindError};

verus! {

/// The observable state of a scan: whether its host resource has been
/// released, whether the end of the sequence was reached, and how many rows
/// it has handed out.
pub struct ScanState {
    pub released: bool,
    pub finished: bool,
    pub rows: nat,
}

/// The context text of a failed step of a scan.
pub open spec fn next_failure_text() -> Seq<char> {
    "error on receive iterator next value"@
}

/// The scan state after the host answered a step with status `code` and a
/// tuple that is present or not.
pub open spec fn after_next(s: ScanState, code: i32, present: bool) -> ScanState {
    if code == -1 {
        s
    } else if present {
        ScanState { rows: s.rows + 1, ..s }
    } else {
        ScanState { finished: true, ..s }
    }
}

/// The scan state after a release.
pub open spec fn after_release(s: ScanState) -> ScanState {
    ScanState { released: true, ..s }
}

/// A scan over a host resource `H`. It owns the encoded scan key, which the
/// host refers to for the whole scan, and hands the resource back to the
/// host exactly once.
pub struct TarantoolIterator<H> {
    handle: H,
    key: Vec<u8>,
    released: bool,
    finished: bool,
    rows: Ghost<nat>,
}

impl<H> TarantoolIterator<H> {
    pub closed spec fn state(&self) -> ScanState {
        ScanState { released: self.released, finished: self.finished, rows: self.rows@ }
    }

    pub closed spec fn spec_handle(&self) -> H {
        self.handle
    }

    pub closed spec fn spec_key(&self) -> Seq<u8> {
        self.key@
    }

    /// Takes ownership of a freshly constructed host scan and of its key.
    pub fn new(handle: H, key: Vec<u8>) -> (r: TarantoolIterator<H>)
        ensures
            r.state() == (ScanState { released: false, finished: false, rows: 0 }),
            r.spec_handle() == handle,
            r.spec_key() == key@,
    {
        TarantoolIterator { handle, key, released: false, finished: false, rows: Ghost(0) }
    }

    pub fn handle(&self) -> (r: &H)
        ensures
            *r == self.spec_handle(),
    {
        &self.handle
    }

    pub fn key(&self) -> (r: &Vec<u8>)
        ensures
            r@ == self.spec_key(),
    {
        &self.key
    }

    pub fn is_released(&self) -> (r: bool)
        ensures
            r == self.state().released,
    {
        self.released
    }

    pub fn is_finished(&self) -> (r: bool)
        ensures
            r == self.state().finished,
    {
        self.finished
    }

    /// Takes the host's answer to one step of the scan. The failure sentinel
    /// -1 is an error, never the end; otherwise an absent tuple ends the
    /// sequence and a present one is the next row.
    pub fn next<T>(&mut self, code: i32, tuple: Option<T>, host_message: Option<String>) -> (r:
        Option<Result<T, BindError>>)
        requires
            !old(self).state().released,
        ensures
            final(self).state() == after_next(old(self).state(), code, tuple is Some),
            final(self).spec_handle() == old(self).spec_handle(),
            final(self).spec_key() == old(self).spec_key(),
            code == -1 ==> (r matches Some(Err(e)) && is_host_error(
                e,
                host_message,
                next_failure_text(),
            )),
            code != -1 ==> match tuple {
                Some(t) => r == Some(Ok::<T, BindError>(t)),
                None => r is None,
            },
    {
        if code == -1 {
            return Some(
                Err(
                    BindError::HostCall {
                        host_message,
                        context: String::from_str("error on receive iterator next value"),
                    },
                ),
            );
        }
        match tuple {
            None => {
                self.finished = true;
                None
            },
            Some(t) => {
                self.rows = Ghost(self.rows@ + 1);
                Some(Ok(t))
            },
        }
    }

    /// Marks the host resource released. Returns true only the first time:
    /// the caller frees the resource exactly when this returns true, so an
    /// explicit release followed by the one on scope exit frees it once.
    pub fn release(&mut self) -> (r: bool)
        ensures
            r == !old(self).state().released,
            final(self).state() == after_release(old(self).state()),
            final(self).spec_handle() == old(self).spec_handle(),
            final(self).spec_key() == old(self).spec_key(),
    {
        let first = !self.released;
        self.released = true;
        first
    }
}

/// The scan state, and the rows handed out in order, after the host
/// answered one step for each entry of `answers` without failing: a present
/// tuple is handed out as the next row, an absent one ends the sequence.
pub open spec fn feed<T>(s: ScanState, answers: Seq<Option<T>>) -> (ScanState, Seq<T>)
    decreases answers.len(),
{
    if answers.len() == 0 {
        (s, Seq::empty())
    } else {
        let (before, out) = feed(s, answers.drop_last());
        match answers.last() {
            Some(t) => (after_next(before, 0i32, true), out.push(t)),
            None => (after_next(before, 0i32, false), out),
        }
    }
}

/// The host's answers for a scan over `rows`: each row in turn, then the end.
pub open spec fn answers_for<T>(rows: Seq<T>) -> Seq<Option<T>> {
    rows.map_values(|r: T| Some(r)).push(None)
}

proof fn lemma_feed_rows<T>(rows: Seq<T>)
    ensures
        feed(ScanState { released: false, finished: false, rows: 0 }, rows.map_values(|r: T| Some(r)))
            == (ScanState { released: false, finished: false, rows: rows.len() }, rows),
    decreases rows.len(),
{
    if rows.len() > 0 {
        let answers = rows.map_values(|r: T| Some(r));
        assert(answers.drop_last() =~= rows.drop_last().map_values(|r: T| Some(r)));
        lemma_feed_rows(rows.drop_last());
        assert(rows.drop_last().push(rows.last()) =~= rows);
    } else {
        assert(rows =~= Seq::<T>::empty());
        assert(rows.map_values(|r: T| Some(r)) =~= Seq::<Option<T>>::empty());
    }
}

/// A scan over the rows `r_1 .. r_N` hands out exactly `r_1 .. r_N`, in
/// order, then ends; its resource is then released by the first release
/// and by no later one.
pub proof fn lemma_scan_yields_rows<T>(rows: Seq<T>)
    ensures
        ({
            let start = ScanState { released: false, finished: false, rows: 0 };
            let (end, out) = feed(start, answers_for(rows));
            &&& answers_for(rows).len() == rows.len() + 1
            &&& forall|i: int| 0 <= i < rows.len() ==> #[trigger] answers_for(rows)[i] == Some(rows[i])
            &&& answers_for(rows)[rows.len() as int] is None
            &&& out == rows
            &&& end == (ScanState { released: false, finished: true, rows: rows.len() })
            &&& after_release(end).released
        }),
{
    lemma_feed_rows(rows);
    assert(answers_for(rows).drop_last() =~= rows.map_values(|r: T| Some(r)));
}

/// A failed step neither ends the scan nor counts as a row.
pub proof fn lemma_failure_is_not_end(s: ScanState, present: bool)
    ensures
        after_next(s, -1i32, present) == s,
{
}

} // verus!
