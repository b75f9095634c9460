//! Sync objects, which mark a point in the command stream that can be waited
//! for.
use vstd::prelude::*;
use crate::call::{Call, Op};
use crate::glenum::{Catalog, GPUState, SyncParameter};
use crate::rendering_context::WebGL2RenderingContext;
use crate::reply::{Reply, Shape};

verus! {

/// The context's name for a sync object. The identifier 0 stands for null.
#[derive(Clone, Copy, Debug, PartialEq, Eq, Structural)]
pub struct WebGLSync {
    pub id: u32,
}

impl WebGL2RenderingContext {
    /// Creates a sync object and puts it into the command stream. `flags` is
    /// passed on as it is; the context takes 0 only. Nothing fails here: the
    /// handle is made from the reply with `from_reply`, and whether it stands
    /// for a live sync object, `is_valid` tells.
    #[verifier::allow_in_spec]
    pub fn fence_sync(&self, conditions: GPUState, flags: u32) -> (c: Call<'_>)
        ensures
            c.op.shape() == Shape::Object,
        returns
            (Call { context: self, op: Op::FenceSync { condition: conditions, flags } }),
    {
        Call { context: self, op: Op::FenceSync { condition: conditions, flags } }
    }
}

/// A sync object of a context. The handle holds the context's name for the sync
/// object and the context that it belongs to, and nothing of the sync object's
/// state. A call that the handle builds borrows the handle, so that the sync
/// object cannot be deleted while a call on it waits to be made.
#[derive(Debug)]
pub struct WebGLRSSync<'ctx> {
    context: &'ctx WebGL2RenderingContext,
    inner: WebGLSync,
}

impl<'ctx> WebGLRSSync<'ctx> {
    /// The context that the sync object belongs to.
    pub closed spec fn owner(self) -> &'ctx WebGL2RenderingContext {
        self.context
    }

    /// The context's name for the sync object.
    pub closed spec fn object(self) -> WebGLSync {
        self.inner
    }

    /// The handle of `context` for the sync object that `context` knows as
    /// `object`.
    pub closed spec fn named(context: &'ctx WebGL2RenderingContext, object: WebGLSync) -> Self {
        WebGLRSSync { context, inner: object }
    }

    /// Makes the handle for the sync object that `reply` names, where `reply`
    /// is what `context` handed back for a call that created a sync object. A
    /// reply that names no object gives the handle of null.
    #[verifier::allow_in_spec]
    pub fn from_reply(context: &'ctx WebGL2RenderingContext, reply: &Reply) -> (handle: Self)
        ensures
            handle.owner() == context,
            handle.object().id == reply.object_id(),
        returns
            Self::named(context, WebGLSync { id: reply.object_id() }),
    {
        WebGLRSSync { context, inner: WebGLSync { id: reply.object() } }
    }

    /// Gives the context that the sync object belongs to.
    pub fn context(&self) -> (context: &'ctx WebGL2RenderingContext)
        ensures
            context == self.owner(),
    {
        self.context
    }

    /// Gives the context's name for the sync object.
    pub fn inner(&self) -> (object: WebGLSync)
        ensures
            object == self.object(),
    {
        self.inner
    }

    /// Deletes the sync object. The handle is used up: nothing can be asked of
    /// a deleted sync object.
    #[verifier::allow_in_spec]
    pub fn delete(self) -> (c: Call<'ctx>)
        ensures
            c.op.shape() == Shape::Nothing,
        returns
            (Call { context: self.owner(), op: Op::DeleteSync { sync: self.object() } }),
    {
        Call { context: self.context, op: Op::DeleteSync { sync: self.inner } }
    }

    /// Asks whether the sync object is live. The reply is read with `as_bool`.
    #[verifier::allow_in_spec]
    pub fn is_valid(&self) -> (c: Call<'_>)
        ensures
            c.op.shape() == Shape::Bool,
        returns
            (Call { context: self.owner(), op: Op::IsSync { sync: self.object() } }),
    {
        Call { context: self.context, op: Op::IsSync { sync: self.inner } }
    }

    /// Waits until the sync object is signaled or `timeout` nanoseconds have
    /// passed. Both numbers are passed on as they are. The reply is read with
    /// `as_enum`, as a value of `WaitStatus`.
    #[verifier::allow_in_spec]
    pub fn client_wait(&self, flags: u32, timeout: i64) -> (c: Call<'_>)
        ensures
            c.op.shape() == Shape::Enum(Catalog::WaitStatus),
        returns
            (Call {
                context: self.owner(),
                op: Op::ClientWaitSync { sync: self.object(), flags, timeout },
            }),
    {
        Call { context: self.context, op: Op::ClientWaitSync { sync: self.inner, flags, timeout } }
    }

    /// Returns at once and makes the server wait until the sync object is
    /// signaled. Both numbers are passed on as they are.
    #[verifier::allow_in_spec]
    pub fn wait(&self, flags: u32, timeout: i64) -> (c: Call<'_>)
        ensures
            c.op.shape() == Shape::Nothing,
        returns
            (Call {
                context: self.owner(),
                op: Op::WaitSync { sync: self.object(), flags, timeout },
            }),
    {
        Call { context: self.context, op: Op::WaitSync { sync: self.inner, flags, timeout } }
    }

    /// Asks whether the sync object is signaled. The reply is read with
    /// `as_enum`, as a value of `SyncStatus`.
    #[verifier::allow_in_spec]
    pub fn status(&self) -> (c: Call<'_>)
        ensures
            c.op.shape() == Shape::Enum(Catalog::SyncStatus),
        returns
            (Call {
                context: self.owner(),
                op: Op::GetSyncParameter {
                    sync: self.object(),
                    pname: SyncParameter::Status,
                },
            }),
    {
        Call {
            context: self.context,
            op: Op::GetSyncParameter { sync: self.inner, pname: SyncParameter::Status },
        }
    }
}

/// The handle made from the reply to a call that created a sync object stands
/// for the sync object that the reply names: it asks whether that sync object
/// is live, and it deletes that sync object, on the context that the handle was
/// made for.
pub proof fn lemma_sync_lifecycle(context: &WebGL2RenderingContext, reply: Reply)
    ensures
        WebGLRSSync::from_reply(context, &reply).is_valid() == (Call {
            context,
            op: Op::IsSync { sync: WebGLSync { id: reply.object_id() } },
        }),
        WebGLRSSync::from_reply(context, &reply).delete() == (Call {
            context,
            op: Op::DeleteSync { sync: WebGLSync { id: reply.object_id() } },
        }),
{
}

} // verus!
