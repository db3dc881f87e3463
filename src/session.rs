//! A live pseudo-console session: resize and teardown.
//!
//! The session owns the console handle and the resolved entry points. Its
//! operations return the entry-point call the host must make, so that which
//! calls a session makes, and how often, is decided here.
use vstd::prelude::*;

use crate::capability::ConptyApi;
use crate::geometry::{coord_from_sizeinfo, coord_of, Coord, SizeInfo};

verus! {

/// A call into one of the session's console entry points.
#[derive(Clone, Copy, Debug, PartialEq, Eq, Structural)]
pub enum ConsoleCall {
    /// Resize the console `handle` to `size` through the entry at `entry`.
    Resize { entry: usize, handle: usize, size: Coord },
    /// Close the console `handle` through the entry at `entry`; this blocks
    /// until the session's buffered output has been read.
    Close { entry: usize, handle: usize },
}

/// A pseudo-console session: the console handle, the entry points that
/// serve it, and its current geometry.
#[derive(Debug, PartialEq, Eq, Structural)]
pub struct Conpty {
    pub handle: usize,
    pub api: ConptyApi,
    pub size: Coord,
}

/// The resize call for a new terminal size, or `None` when the size does
/// not fit the console geometry.
pub open spec fn resize_call(s: Conpty, size: SizeInfo) -> Option<ConsoleCall> {
    match coord_of(size) {
        Some(c) => Some(ConsoleCall::Resize { entry: s.api.resize, handle: s.handle, size: c }),
        None => None,
    }
}

/// The session after a resize request: only its geometry changes, and only
/// when the new size fits.
pub open spec fn resized(s: Conpty, size: SizeInfo) -> Conpty {
    match coord_of(size) {
        Some(c) => Conpty { handle: s.handle, api: s.api, size: c },
        None => s,
    }
}

/// The call that ends a session.
pub open spec fn close_call(s: Conpty) -> ConsoleCall {
    ConsoleCall::Close { entry: s.api.close, handle: s.handle }
}

/// The entry-point calls of a session that is resized to each of `sizes` in
/// turn and then torn down.
pub open spec fn session_calls(s: Conpty, sizes: Seq<SizeInfo>) -> Seq<ConsoleCall>
    decreases sizes.len(),
{
    if sizes.len() == 0 {
        seq![close_call(s)]
    } else {
        let rest = session_calls(resized(s, sizes[0]), sizes.drop_first());
        match resize_call(s, sizes[0]) {
            Some(c) => seq![c] + rest,
            None => rest,
        }
    }
}

/// How many of `calls` close a console.
pub open spec fn close_count(calls: Seq<ConsoleCall>) -> nat
    decreases calls.len(),
{
    if calls.len() == 0 {
        0
    } else {
        (if calls[0] is Close { 1nat } else { 0nat }) + close_count(calls.drop_first())
    }
}

/// How many of `sizes` fit the console geometry.
pub open spec fn representable_count(sizes: Seq<SizeInfo>) -> nat
    decreases sizes.len(),
{
    if sizes.len() == 0 {
        0
    } else {
        (if coord_of(sizes[0]) is Some { 1nat } else { 0nat }) + representable_count(
            sizes.drop_first(),
        )
    }
}

impl Conpty {
    /// Wraps a freshly created console handle and the entry points that
    /// serve it; `size` is the geometry it was created with.
    pub fn new(handle: usize, api: ConptyApi, size: Coord) -> (r: Conpty)
        ensures
            r.handle == handle,
            r.api == api,
            r.size == size,
    {
        Conpty { handle, api, size }
    }

    /// The geometry the session was last created with or resized to.
    pub fn size(&self) -> (r: Coord)
        ensures
            r == self.size,
    {
        self.size
    }

    /// Resizes the session to a new terminal size. A size that fits gives
    /// exactly one resize call with the converted geometry; one that does not
    /// is ignored, and the session keeps its previous geometry.
    pub fn on_resize(&mut self, sizeinfo: &SizeInfo) -> (r: Option<ConsoleCall>)
        ensures
            r == resize_call(*old(self), *sizeinfo),
            *final(self) == resized(*old(self), *sizeinfo),
    {
        match coord_from_sizeinfo(sizeinfo) {
            Some(coord) => {
                self.size = coord;
                Some(ConsoleCall::Resize { entry: self.api.resize, handle: self.handle, size: coord })
            },
            None => None,
        }
    }

    /// Tears the session down, giving the one call that closes its console.
    /// The session is consumed, so the call is made once.
    pub fn close(self) -> (r: ConsoleCall)
        ensures
            r == close_call(self),
    {
        ConsoleCall::Close { entry: self.api.close, handle: self.handle }
    }
}

/// A resize to a representable size makes exactly one call, to the resize
/// entry point with the converted geometry, and the session takes that
/// geometry; an unrepresentable size makes no call and changes nothing.
pub proof fn lemma_resize_calls(s: Conpty, size: SizeInfo)
    ensures
        coord_of(size) matches Some(c) ==> resize_call(s, size) == Some(
            ConsoleCall::Resize { entry: s.api.resize, handle: s.handle, size: c },
        ) && resized(s, size).size == c && resized(s, size).handle == s.handle
            && resized(s, size).api == s.api,
        coord_of(size) is None ==> resize_call(s, size) is None && resized(s, size) == s,
{
}

/// However many resizes precede it, teardown closes the console exactly
/// once, with the session's own handle and close entry point, as the very
/// last call; every other call is one resize per representable size.
pub proof fn lemma_close_exactly_once(s: Conpty, sizes: Seq<SizeInfo>)
    ensures
        close_count(session_calls(s, sizes)) == 1,
        session_calls(s, sizes).last() == close_call(s),
        session_calls(s, sizes).len() == representable_count(sizes) + 1,
    decreases sizes.len(),
{
    if sizes.len() == 0 {
        let only = seq![close_call(s)];
        assert(only.drop_first() =~= Seq::<ConsoleCall>::empty());
        assert(close_count(only.drop_first()) == 0);
        assert(only[0] is Close);
    } else {
        let next = resized(s, sizes[0]);
        lemma_close_exactly_once(next, sizes.drop_first());
        assert(close_call(next) == close_call(s));
        let rest = session_calls(next, sizes.drop_first());
        if let Some(c) = resize_call(s, sizes[0]) {
            let all = seq![c] + rest;
            assert(all.drop_first() =~= rest);
            assert(all.last() == rest.last());
            assert(!(all[0] is Close));
            assert(close_count(all) == close_count(rest));
        }
    }
}

} // verus!
