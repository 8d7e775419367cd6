use crate::exchange::start;
use crate::exchange::success;
use crate::exchange::ActionView;
use crate::exchange::StageView;
use crate::exchange::Value;
use crate::native::Request;
use crate::native::RequestView;
use crate::exchange::Action;
use crate::exchange::Exchange;
use crate::exchange::Operation;
use crate::exchange::Payload;
use crate::exchange::PayloadView;
use vstd::prelude::*;

verus! {

/// The raw value that denotes no resource.
pub const INVALID_HANDLE_VALUE: isize = -1;

/// Who releases the resource of a handle.
#[derive(Debug, Eq, PartialEq, Copy, Clone)]
pub enum HandleOwnership {
    /// The handle is owned by the instance, which releases it when it is
    /// closed.
    Owned,
    /// The resource belongs to someone else, and the instance never
    /// releases it.
    Shared,
}

/// A raw identifier of a resource of the operating system, with the
/// ownership of that resource.
///
/// A handle is neither copied nor cloned, so that an owned resource has one
/// handle and is released once: by [`Handle::close`], which takes the handle
/// by value.
#[derive(Debug, Eq, PartialEq)]
pub struct Handle {
    pub raw: isize,
    pub ownership: HandleOwnership,
}

impl Handle {
    /// Creates a new shared `Handle` from the raw value, which may be the
    /// invalid one.
    #[inline]
    pub fn new(handle: isize) -> (r: Handle)
        ensures
            r == (Handle { raw: handle, ownership: HandleOwnership::Shared }),
    {
        Handle { raw: handle, ownership: HandleOwnership::Shared }
    }

    /// Creates a new owned `Handle` from the raw value, which may be the
    /// invalid one. Its resource is released when the handle is closed.
    #[inline]
    pub fn new_owned(handle: isize) -> (r: Handle)
        ensures
            r == (Handle { raw: handle, ownership: HandleOwnership::Owned }),
    {
        Handle { raw: handle, ownership: HandleOwnership::Owned }
    }

    /// Gets the raw value, to hand it to a native call. The handle keeps
    /// the resource.
    #[inline]
    pub fn get_raw(&self) -> (r: isize)
        ensures
            r == self.raw,
    {
        self.raw
    }

    /// Whether the raw value is another than the invalid one.
    pub fn is_valid(&self) -> (r: bool)
        ensures
            r == (self.raw != INVALID_HANDLE_VALUE),
    {
        self.raw != INVALID_HANDLE_VALUE
    }

    /// Whether the resource is released when this handle is closed.
    pub open spec fn owned(self) -> bool {
        self.ownership == HandleOwnership::Owned
    }

    /// Whether the resource is released when this handle is closed.
    pub fn is_owned(&self) -> (r: bool)
        ensures
            r == self.owned(),
    {
        match self.ownership {
            HandleOwnership::Owned => true,
            HandleOwnership::Shared => false,
        }
    }

    /// Closes the handle. An owned handle asks for one call, which
    /// releases its resource, and the closing fails with the violation
    /// `CloseFailed` where that call fails. A shared handle ends without a
    /// call.
    pub fn close(self) -> (r: (Exchange, Action))
        ensures
            (r.0@, r.1@) == start(
                Operation::Close { handle: self.raw, owned: self.owned() },
                PayloadView::Nothing,
            ),
            self.owned() ==> r.1@ == ActionView::Call(
                RequestView::Plain(Request::CloseHandle { handle: self.raw }),
            ),
            !self.owned() ==> r.0@ == StageView::Finished && r.1@ == ActionView::Return(
                success(Value::Unit),
            ),
    {
        let owned = self.is_owned();
        Exchange::start(Operation::Close { handle: self.raw, owned }, Payload::Nothing)
    }
}

} // verus!
