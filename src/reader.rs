use vstd::prelude::*;

verus! {

/// A request that the engine makes of a reader-backed context.
#[derive(Debug, Clone, Copy, PartialEq, Eq, Structural)]
pub enum ReadRequest {
    /// Read this many bytes at the current position.
    Read(usize),
    /// Move the current position to this offset.
    Seek(i64),
}

/// Answer to the engine's question whether the source reaches a given size.
#[derive(Debug, Clone, Copy, PartialEq, Eq, Structural)]
pub enum GrowStatus {
    SizeReached,
    SizeBeyondEof,
}

impl GrowStatus {
    /// The engine's numeric code for this answer.
    pub fn native_code(self) -> (r: u32)
        ensures
            self == GrowStatus::SizeReached ==> r == 0,
            self == GrowStatus::SizeBeyondEof ==> r == 2,
    {
        match self {
            GrowStatus::SizeReached => 0,
            GrowStatus::SizeBeyondEof => 2,
        }
    }
}

/// Whether the bridge hands `req` on to the application's reader when it
/// stands at `v` (position, total size).
pub open spec fn forwarded(v: (nat, nat), req: ReadRequest) -> bool {
    match req {
        ReadRequest::Read(n) => v.0 + n <= v.1,
        ReadRequest::Seek(t) => 0 <= t <= v.1,
    }
}

/// Position and total size after the bridge has handled `req` at `v`: a
/// forwarded request moves the position, a refused one changes nothing.
pub open spec fn step(v: (nat, nat), req: ReadRequest) -> (nat, nat) {
    if !forwarded(v, req) {
        v
    } else {
        match req {
            ReadRequest::Read(n) => ((v.0 + n) as nat, v.1),
            ReadRequest::Seek(t) => (t as nat, v.1),
        }
    }
}

/// Position and total size after the bridge has handled `reqs` in order.
pub open spec fn run(v: (nat, nat), reqs: Seq<ReadRequest>) -> (nat, nat)
    decreases reqs.len(),
{
    if reqs.len() == 0 {
        v
    } else {
        step(run(v, reqs.drop_last()), reqs.last())
    }
}

/// Sits between the engine and the application's reader. It tracks the
/// current position against the size that the reader reported, and forwards
/// only the requests that stay within that size.
pub struct ReaderBridge {
    position: u64,
    size: u64,
}

impl View for ReaderBridge {
    /// Current position and total size.
    type V = (nat, nat);

    closed spec fn view(&self) -> (nat, nat) {
        (self.position as nat, self.size as nat)
    }
}

impl ReaderBridge {
    /// The position never passes the total size.
    pub open spec fn wf(&self) -> bool {
        self@.0 <= self@.1
    }

    /// A bridge at the start of a source of `size` bytes.
    pub fn new(size: u64) -> (r: ReaderBridge)
        ensures
            r@ == (0nat, size as nat),
            r.wf(),
    {
        ReaderBridge { position: 0, size }
    }

    /// Current position.
    pub fn position(&self) -> (r: u64)
        ensures
            r == self@.0,
    {
        self.position
    }

    /// Total size that the reader reported.
    pub fn size(&self) -> (r: u64)
        ensures
            r == self@.1,
    {
        self.size
    }

    /// Decides a request: returns whether it is forwarded to the reader, and
    /// moves the position as `step` says.
    pub fn handle_request(&mut self, req: ReadRequest) -> (r: bool)
        requires
            old(self).wf(),
        ensures
            r == forwarded(old(self)@, req),
            final(self)@ == step(old(self)@, req),
            final(self).wf(),
    {
        match req {
            ReadRequest::Read(n) => {
                if (n as u128) <= ((self.size - self.position) as u128) {
                    self.position = self.position + n as u64;
                    true
                } else {
                    false
                }
            },
            ReadRequest::Seek(t) => {
                if 0 <= t && (t as u128) <= (self.size as u128) {
                    self.position = t as u64;
                    true
                } else {
                    false
                }
            },
        }
    }

    /// Whether the source reaches `target` bytes.
    pub fn grow_status(&self, target: i64) -> (r: GrowStatus)
        ensures
            r == GrowStatus::SizeReached <==> target <= self@.1,
            r == GrowStatus::SizeReached || r == GrowStatus::SizeBeyondEof,
    {
        if target < 0 || (target as u128) <= (self.size as u128) {
            GrowStatus::SizeReached
        } else {
            GrowStatus::SizeBeyondEof
        }
    }
}

/// Whatever requests the engine makes, in whatever order, the position of a
/// bridge that started at offset 0 of `size` bytes never passes `size`, and
/// every read that is forwarded to the reader ends at or before `size`.
pub proof fn lemma_reads_stay_within_size(size: nat, reqs: Seq<ReadRequest>)
    ensures
        run((0, size), reqs).0 <= size,
        run((0, size), reqs).1 == size,
        forall|i: int, n: usize|
            0 <= i < reqs.len() && reqs[i] == ReadRequest::Read(n) && forwarded(
                run((0, size), reqs.take(i)),
                reqs[i],
            ) ==> run((0, size), reqs.take(i)).0 + n <= size,
    decreases reqs.len(),
{
    if reqs.len() > 0 {
        lemma_reads_stay_within_size(size, reqs.drop_last());
    }
    assert forall|i: int, n: usize|
        0 <= i < reqs.len() && reqs[i] == ReadRequest::Read(n) && forwarded(
            run((0, size), reqs.take(i)),
            reqs[i],
        ) implies run((0, size), reqs.take(i)).0 + n <= size by {
        lemma_reads_stay_within_size(size, reqs.take(i));
    }
}

} // verus!
