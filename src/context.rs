use vstd::prelude::*;

use crate::error::{HeifError, HeifErrorCode, HeifErrorSubCode, code_of, sub_code_of, NATIVE_OK};
use crate::writer::VectorWriter;

verus! {

/// Whether the native processing context is still owned.
#[derive(Debug, Clone, Copy, PartialEq, Eq, Structural)]
pub enum HandleState {
    Live,
    Released,
}

/// What the owner of a native context must do when it lets the context go.
#[derive(Debug, Clone, Copy, PartialEq, Eq, Structural)]
pub struct Release {
    /// Free the native context now.
    pub free_handle: bool,
    /// Drop the stored reader now.
    pub drop_reader: bool,
}

/// Ownership record of one native processing context and of the reader slot
/// whose address the engine keeps for its callbacks.
#[derive(Debug)]
pub struct ContextLifecycle {
    state: HandleState,
    reader_held: bool,
}

/// Abstract state of a context's ownership record.
pub struct LifecycleView {
    pub state: HandleState,
    pub reader_held: bool,
}

impl View for ContextLifecycle {
    type V = LifecycleView;

    closed spec fn view(&self) -> LifecycleView {
        LifecycleView { state: self.state, reader_held: self.reader_held }
    }
}

/// The record after the context has been let go, and what had to be done.
pub open spec fn release_step(v: LifecycleView) -> (LifecycleView, Release) {
    (
        LifecycleView { state: HandleState::Released, reader_held: false },
        Release { free_handle: v.state == HandleState::Live, drop_reader: v.reader_held },
    )
}

/// How many times the native context is freed when it is let go `k` times
/// in a row, starting from `v`.
pub open spec fn frees_after(v: LifecycleView, k: nat) -> nat
    decreases k,
{
    if k == 0 {
        0
    } else {
        let (next, act) = release_step(v);
        (if act.free_handle { 1nat } else { 0nat }) + frees_after(next, (k - 1) as nat)
    }
}

/// How many times the stored reader is dropped when the context is let go
/// `k` times in a row, starting from `v`.
pub open spec fn reader_drops_after(v: LifecycleView, k: nat) -> nat
    decreases k,
{
    if k == 0 {
        0
    } else {
        let (next, act) = release_step(v);
        (if act.drop_reader { 1nat } else { 0nat }) + reader_drops_after(next, (k - 1) as nat)
    }
}

impl ContextLifecycle {
    /// Decides the outcome of allocating a native context: an engine that
    /// handed back no context is a creation failure; otherwise the context
    /// is owned and holds no reader.
    pub fn after_alloc(handle_is_null: bool) -> (r: Result<ContextLifecycle, HeifError>)
        ensures
            r is Ok <==> !handle_is_null,
            r matches Ok(l) ==> l@.state == HandleState::Live && !l@.reader_held,
            r matches Err(e) ==> e.code == HeifErrorCode::ContextCreateFailed && e.sub_code
                == HeifErrorSubCode::Unspecified && e.message@.len() == 0,
    {
        if handle_is_null {
            Err(HeifError::context_create_failed())
        } else {
            Ok(ContextLifecycle { state: HandleState::Live, reader_held: false })
        }
    }

    /// Whether the native context is still owned.
    pub fn is_live(&self) -> (r: bool)
        ensures
            r <==> self@.state == HandleState::Live,
    {
        self.state == HandleState::Live
    }

    /// Whether a reader is stored beside the context.
    pub fn holds_reader(&self) -> (r: bool)
        ensures
            r == self@.reader_held,
    {
        self.reader_held
    }

    /// Records that a reader now sits in the context's reader slot; it stays
    /// there until the context is let go.
    pub fn store_reader(&mut self)
        requires
            old(self)@.state == HandleState::Live,
        ensures
            final(self)@.state == HandleState::Live,
            final(self)@.reader_held,
    {
        self.reader_held = true;
    }

    /// Lets the context go: says whether the native context and the reader
    /// are to be freed now, and records that nothing is owned any more.
    pub fn release(&mut self) -> (r: Release)
        ensures
            (final(self)@, r) == release_step(old(self)@),
    {
        let r = Release {
            free_handle: self.state == HandleState::Live,
            drop_reader: self.reader_held,
        };
        self.state = HandleState::Released;
        self.reader_held = false;
        r
    }
}

/// Letting a context go any number of times frees its native context at most
/// once: exactly once when it was owned, never when it was already released.
/// Likewise a stored reader is dropped exactly once, and no reader is dropped
/// when none was stored.
pub proof fn lemma_release_frees_once(v: LifecycleView, k: nat)
    ensures
        frees_after(v, k) == if k > 0 && v.state == HandleState::Live { 1nat } else { 0nat },
        reader_drops_after(v, k) == if k > 0 && v.reader_held { 1nat } else { 0nat },
    decreases k,
{
    if k > 0 {
        let next = release_step(v).0;
        lemma_release_frees_once(next, (k - 1) as nat);
    }
}

/// Number of top-level images from the engine's signed count; a negative
/// count means none.
pub fn top_level_count(n: i32) -> (r: usize)
    ensures
        r == if n < 0 { 0 } else { n as int },
{
    if n < 0 {
        0
    } else {
        n as usize
    }
}

/// Decides the result of serialising into `writer`: on success the bytes
/// the engine wrote, in order; otherwise the translated error.
pub fn finish_write(writer: VectorWriter, code: u32, sub_code: u32, message: String) -> (r: Result<
    Vec<u8>,
    HeifError,
>)
    ensures
        r is Ok <==> code == NATIVE_OK,
        r matches Ok(b) ==> b@ == writer@,
        r matches Err(e) ==> e.code == code_of(code) && e.sub_code == sub_code_of(sub_code)
            && e.message@ == message@,
{
    match HeifError::from_heif_error(code, sub_code, message) {
        Ok(()) => Ok(writer.into_bytes()),
        Err(e) => Err(e),
    }
}

} // verus!
