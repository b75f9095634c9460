//! Queries, whose results the context hands out some time after they were asked
//! for.
use vstd::prelude::*;
use crate::call::{Call, Op};
use crate::glenum::{Query, QueryParameter, QueryTarget};
use crate::rendering_context::WebGL2RenderingContext;
use crate::reply::{Reply, Shape};

verus! {

/// The context's name for a query. The identifier 0 stands for null.
#[derive(Clone, Copy, Debug, PartialEq, Eq, Structural)]
pub struct WebGLQuery {
    pub id: u32,
}

impl WebGL2RenderingContext {
    /// Creates a query. Nothing fails here: the handle is made from the reply
    /// with `from_reply`, and whether it stands for a live query, `is_valid`
    /// tells.
    #[verifier::allow_in_spec]
    pub fn create_query(&self) -> (c: Call<'_>)
        ensures
            c.op.shape() == Shape::Object,
        returns
            (Call { context: self, op: Op::CreateQuery }),
    {
        Call { context: self, op: Op::CreateQuery }
    }

    /// Asks for the query that is active on `target`; the reply names none
    /// where no query is. Nothing fails here: the handle is made from the reply
    /// with `from_reply`, and whether it stands for a live query, `is_valid`
    /// tells.
    #[verifier::allow_in_spec]
    pub fn query(&self, target: QueryTarget) -> (c: Call<'_>)
        ensures
            c.op.shape() == Shape::Object,
        returns
            (Call { context: self, op: Op::GetQuery { target, pname: Query::Current } }),
    {
        Call { context: self, op: Op::GetQuery { target, pname: Query::Current } }
    }
}

/// A query of a context. The handle holds the context's name for the query and
/// the context that it belongs to, and nothing of the query's state. A call
/// that the handle builds borrows the handle, so that the query cannot be
/// deleted while a call on it waits to be made.
#[derive(Debug)]
pub struct WebGLRSQuery<'ctx> {
    context: &'ctx WebGL2RenderingContext,
    inner: WebGLQuery,
}

impl<'ctx> WebGLRSQuery<'ctx> {
    /// The context that the query belongs to.
    pub closed spec fn owner(self) -> &'ctx WebGL2RenderingContext {
        self.context
    }

    /// The context's name for the query.
    pub closed spec fn object(self) -> WebGLQuery {
        self.inner
    }

    /// The handle of `context` for the query that `context` knows as `object`.
    pub closed spec fn named(context: &'ctx WebGL2RenderingContext, object: WebGLQuery) -> Self {
        WebGLRSQuery { context, inner: object }
    }

    /// Makes the handle for the query that `reply` names, where `reply` is what
    /// `context` handed back for a call that created a query or named the
    /// active one. A reply that names no object gives the handle of null.
    #[verifier::allow_in_spec]
    pub fn from_reply(context: &'ctx WebGL2RenderingContext, reply: &Reply) -> (handle: Self)
        ensures
            handle.owner() == context,
            handle.object().id == reply.object_id(),
        returns
            Self::named(context, WebGLQuery { id: reply.object_id() }),
    {
        WebGLRSQuery { context, inner: WebGLQuery { id: reply.object() } }
    }

    /// Gives the context that the query belongs to.
    pub fn context(&self) -> (context: &'ctx WebGL2RenderingContext)
        ensures
            context == self.owner(),
    {
        self.context
    }

    /// Gives the context's name for the query.
    pub fn inner(&self) -> (object: WebGLQuery)
        ensures
            object == self.object(),
    {
        self.inner
    }

    /// Deletes the query. The handle is used up: nothing can be asked of a
    /// deleted query.
    #[verifier::allow_in_spec]
    pub fn delete(self) -> (c: Call<'ctx>)
        ensures
            c.op.shape() == Shape::Nothing,
        returns
            (Call { context: self.owner(), op: Op::DeleteQuery { query: self.object() } }),
    {
        Call { context: self.context, op: Op::DeleteQuery { query: self.inner } }
    }

    /// Asks whether the query is live. The reply is read with `as_bool`.
    #[verifier::allow_in_spec]
    pub fn is_valid(&self) -> (c: Call<'_>)
        ensures
            c.op.shape() == Shape::Bool,
        returns
            (Call { context: self.owner(), op: Op::IsQuery { query: self.object() } }),
    {
        Call { context: self.context, op: Op::IsQuery { query: self.inner } }
    }

    /// Starts the query on `target`.
    #[verifier::allow_in_spec]
    pub fn begin(&self, target: QueryTarget) -> (c: Call<'_>)
        ensures
            c.op.shape() == Shape::Nothing,
        returns
            (Call { context: self.owner(), op: Op::BeginQuery { target, query: self.object() } }),
    {
        Call { context: self.context, op: Op::BeginQuery { target, query: self.inner } }
    }

    /// Asks whether the result of the query can be had, without waiting for it.
    /// The reply is read with `as_bool`.
    #[verifier::allow_in_spec]
    pub fn result_available(&self) -> (c: Call<'_>)
        ensures
            c.op.shape() == Shape::Bool,
        returns
            (Call {
                context: self.owner(),
                op: Op::GetQueryParameter {
                    query: self.object(),
                    pname: QueryParameter::ResultAvailable,
                },
            }),
    {
        Call {
            context: self.context,
            op: Op::GetQueryParameter {
                query: self.inner,
                pname: QueryParameter::ResultAvailable,
            },
        }
    }

    /// Asks for the result of the query. The reply is read with `as_u32`.
    #[verifier::allow_in_spec]
    pub fn result(&self) -> (c: Call<'_>)
        ensures
            c.op.shape() == Shape::U32,
        returns
            (Call {
                context: self.owner(),
                op: Op::GetQueryParameter {
                    query: self.object(),
                    pname: QueryParameter::Result,
                },
            }),
    {
        Call {
            context: self.context,
            op: Op::GetQueryParameter {
                query: self.inner,
                pname: QueryParameter::Result,
            },
        }
    }
}

/// The handle made from the reply to a call that created a query stands for the
/// query that the reply names: it asks whether that query is live, and it
/// deletes that query, on the context that the handle was made for.
pub proof fn lemma_query_lifecycle(context: &WebGL2RenderingContext, reply: Reply)
    ensures
        WebGLRSQuery::from_reply(context, &reply).is_valid() == (Call {
            context,
            op: Op::IsQuery { query: WebGLQuery { id: reply.object_id() } },
        }),
        WebGLRSQuery::from_reply(context, &reply).delete() == (Call {
            context,
            op: Op::DeleteQuery { query: WebGLQuery { id: reply.object_id() } },
        }),
{
}

} // verus!
