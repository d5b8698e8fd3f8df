//! Laws of the boundary, proved over the slot-table model.
//!
//! Each law is stated against the same spec functions the operations'
//! contracts use, so what holds of the model holds of every call
//! sequence a foreign caller can produce.
use vstd::prelude::*;

use crate::context::Context;
use crate::ops::text_arg_ok;
use crate::registry::after_destroy;
use crate::registry::after_eval_success;
use crate::registry::after_reset;
use crate::registry::ctx_at;
use crate::registry::live_at;
use crate::registry::reported_count;

verus! {

/// A destroyed handle is permanently dead: after destruction it is not
/// live, and no operation on it can reach a context again.
pub proof fn lemma_destroy_kills(s: Seq<Option<Context>>, h: usize)
    ensures
        !live_at(after_destroy(s, h), h),
{
}

/// The null handle is never live: it reports a zero execution counter
/// and no text-taking operation accepts it, whatever the table holds and
/// whatever text is passed — every operation resolves it to its failure
/// sentinel.
pub proof fn lemma_null_handle_rejected(s: Seq<Option<Context>>, text: Option<Vec<u8>>)
    ensures
        !live_at(s, 0),
        reported_count(s, 0) == 0,
        !text_arg_ok(s, 0, text),
{
}

/// Resetting the execution counter makes the reported count zero,
/// regardless of prior activity — for a dead or null handle both the
/// reset and the read are the documented no-op and zero.
pub proof fn lemma_reset_then_report_zero(s: Seq<Option<Context>>, h: usize)
    ensures
        reported_count(after_reset(s, h), h) == 0,
{
}

/// A successful evaluation increments the reported execution counter of
/// its handle by exactly one (below the machine limit of the counter).
pub proof fn lemma_eval_success_increments(s: Seq<Option<Context>>, h: usize)
    requires
        live_at(s, h),
        ctx_at(s, h).exec_count < usize::MAX,
    ensures
        reported_count(after_eval_success(s, h), h) == reported_count(s, h) + 1,
{
}

/// The counter operations leave their handle live and leave its
/// configuration alone: evaluating against a context or resetting its
/// counter never invalidates the handle.
pub proof fn lemma_counter_ops_keep_handle(s: Seq<Option<Context>>, h: usize)
    requires
        live_at(s, h),
    ensures
        live_at(after_reset(s, h), h),
        live_at(after_eval_success(s, h), h),
        ctx_at(after_reset(s, h), h).config == ctx_at(s, h).config,
        ctx_at(after_eval_success(s, h), h).config == ctx_at(s, h).config,
{
}

/// Contexts are isolated: an operation against one handle — destroying
/// it, resetting its counter, or recording an evaluation — is invisible
/// through any other handle.
pub proof fn lemma_handles_isolated(s: Seq<Option<Context>>, h: usize, j: usize)
    requires
        h != j,
    ensures
        live_at(after_destroy(s, h), j) == live_at(s, j),
        live_at(after_reset(s, h), j) == live_at(s, j),
        live_at(after_eval_success(s, h), j) == live_at(s, j),
        live_at(s, j) ==> ctx_at(after_destroy(s, h), j) == ctx_at(s, j),
        live_at(s, j) ==> ctx_at(after_reset(s, h), j) == ctx_at(s, j),
        live_at(s, j) ==> ctx_at(after_eval_success(s, h), j) == ctx_at(s, j),
{
}

/// Creating a context disturbs no existing handle: every handle issued
/// before keeps its liveness and its context, and the new handle is not
/// one of them.
pub proof fn lemma_create_preserves_handles(s: Seq<Option<Context>>, c: Context, j: usize)
    requires
        1 <= j <= s.len(),
    ensures
        live_at(s.push(Some(c)), j) == live_at(s, j),
        live_at(s, j) ==> ctx_at(s.push(Some(c)), j) == ctx_at(s, j),
        j != s.len() + 1,
{
}

} // verus!
