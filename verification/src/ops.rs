//! Operation dispatch: the boundary-callable operations.
//!
//! Each operation that involves the engine collaborator is split around
//! the engine call.  Its `*_begin` function performs the boundary's own
//! work — null-handle and null-pointer checks, text validation — and
//! either resolves to the operation's failure sentinel or hands back the
//! validated input for the engine.  Its `*_finish` function takes the
//! engine's outcome, whatever it was, and marshals it into the value the
//! foreign caller receives, updating the boundary's own state.  The
//! caller of the pair runs the engine in between; the boundary's
//! behavior is pinned for every outcome the engine can produce.
//!
//! Operations the engine takes no part in (reading and resetting the
//! execution counter, destroying a handle) are single calls.
use vstd::prelude::*;
use vstd::utf8::decode_utf8;
use vstd::utf8::valid_utf8;

use crate::buffer::make_buffer;
use crate::buffer::OwnedBuf;
use crate::context::fresh_context;
use crate::context::Config;
use crate::context::Context;
use crate::registry::after_destroy;
use crate::registry::after_eval_success;
use crate::registry::after_reset;
use crate::registry::ctx_at;
use crate::registry::live_at;
use crate::registry::reported_count;
use crate::registry::Registry;
use crate::text::marshal_text;

verus! {

/// A text-taking operation may proceed only when the handle is live, the
/// text pointer is non-null, and the bytes are well-formed UTF-8.
pub open spec fn text_arg_ok(s: Seq<Option<Context>>, h: usize, text: Option<Vec<u8>>) -> bool {
    live_at(s, h) && (text matches Some(b) && valid_utf8(b@))
}

/// Registers a context once the engine has answered the creation request:
/// a successful creation is installed and its fresh, non-null handle
/// returned; a failed one leaves no state behind and yields the null
/// handle.
pub fn context_new_finish(reg: &mut Registry, config: Config, engine_created: bool) -> (h: usize)
    ensures
        engine_created ==> (final(reg)@ == old(reg)@.push(Some(fresh_context(config)))
            && h == final(reg)@.len() && 1 <= h && live_at(final(reg)@, h) && ctx_at(
            final(reg)@,
            h,
        ) == fresh_context(config)),
        !engine_created ==> (final(reg)@ == old(reg)@ && h == 0),
{
    if engine_created {
        let ctx = Context { config, exec_count: 0 };
        reg.install(ctx)
    } else {
        0
    }
}

/// Destroys a handle: its slot is vacated and the handle is permanently
/// dead.  A no-op on the null handle and on a handle already destroyed.
pub fn context_free(reg: &mut Registry, h: usize)
    ensures
        final(reg)@ == after_destroy(old(reg)@, h),
        !live_at(final(reg)@, h),
{
    reg.destroy(h);
}

/// Begins an evaluation: validates the handle and the source text, and
/// hands back the decoded source for the engine, or the operation's
/// failure sentinel — the null buffer, modeled as `None`.
pub fn eval_begin(reg: &Registry, h: usize, source: &Option<Vec<u8>>) -> (r: Option<String>)
    ensures
        r is Some <==> text_arg_ok(reg@, h, *source),
        r matches Some(s) ==> s@ == decode_utf8(source->0@),
{
    if !reg.is_live(h) {
        None
    } else {
        marshal_text(source)
    }
}

/// Completes an evaluation with the engine's outcome.  A failed
/// evaluation changes nothing and yields the null sentinel.  A successful
/// one increments the handle's execution counter — even when its result
/// text cannot cross the boundary — and yields an owned buffer holding
/// exactly the engine's JSON text, unless that text contains an interior
/// NUL, which collapses to the null sentinel.
///
/// So the counter a caller observes moves by exactly one when a buffer
/// comes back and not at all when the evaluation failed; the one input
/// on which a null result still moves it is a successful evaluation
/// whose text carries an interior NUL — the boundary counts
/// evaluations, not deliveries.
pub fn eval_finish(reg: &mut Registry, h: usize, engine_result: Option<String>) -> (r: Option<
    OwnedBuf,
>)
    ensures
        engine_result is None ==> (final(reg)@ == old(reg)@ && r is None),
        engine_result matches Some(json) ==> (final(reg)@ == after_eval_success(old(reg)@, h) && (
        r matches Some(b) <==> (live_at(old(reg)@, h) && !json@.contains('\0'))) && (r matches Some(
            b,
        ) ==> b@ == json@ && b.wf())),
        r is Some && reported_count(old(reg)@, h) < usize::MAX ==> reported_count(final(reg)@, h)
            == reported_count(old(reg)@, h) + 1,
        engine_result is None ==> reported_count(final(reg)@, h) == reported_count(old(reg)@, h),
{
    match engine_result {
        None => None,
        Some(json) => {
            if reg.is_live(h) {
                reg.note_eval_success(h);
                make_buffer(json)
            } else {
                None
            }
        },
    }
}

/// Begins a side-effect-only execution: validates the handle and the
/// source text, and hands back either the decoded source for the engine
/// or the operation's failure sentinel `-1`.
pub fn exec_begin(reg: &Registry, h: usize, source: &Option<Vec<u8>>) -> (r: Result<String, i32>)
    ensures
        r is Ok <==> text_arg_ok(reg@, h, *source),
        r matches Ok(s) ==> s@ == decode_utf8(source->0@),
        r matches Err(code) ==> code == -1,
{
    if !reg.is_live(h) {
        Err(-1)
    } else {
        match marshal_text(source) {
            Some(s) => Ok(s),
            None => Err(-1),
        }
    }
}

/// Completes a side-effect-only execution: `0` when the engine succeeded,
/// `-1` when it failed.  The result value of the script is discarded and
/// the execution counter is not touched.
pub fn exec_finish(engine_ok: bool) -> (r: i32)
    ensures
        r == if engine_ok {
            0int
        } else {
            -1int
        },
{
    if engine_ok {
        0
    } else {
        -1
    }
}

/// Begins a compilation.  Compilation is behaviorally identical to
/// side-effect-only execution — it loads the source into the context's
/// global scope, with no separate parse-only step — so it shares its
/// validation and sentinels.
pub fn compile_begin(reg: &Registry, h: usize, source: &Option<Vec<u8>>) -> (r: Result<String, i32>)
    ensures
        r is Ok <==> text_arg_ok(reg@, h, *source),
        r matches Ok(s) ==> s@ == decode_utf8(source->0@),
        r matches Err(code) ==> code == -1,
{
    exec_begin(reg, h, source)
}

/// Completes a compilation, exactly as [`exec_finish`] does.
pub fn compile_finish(engine_ok: bool) -> (r: i32)
    ensures
        r == if engine_ok {
            0int
        } else {
            -1int
        },
{
    exec_finish(engine_ok)
}

/// Whether a garbage-collection request for `h` should be forwarded to
/// the engine: only for a live handle.  Whatever the engine then does,
/// a failure is swallowed — the operation has no failure sentinel.
pub fn gc_begin(reg: &Registry, h: usize) -> (r: bool)
    ensures
        r == live_at(reg@, h),
{
    reg.is_live(h)
}

/// Whether a heap-statistics request for `h` should be forwarded to the
/// engine: only for a live handle; a dead or null handle resolves to the
/// null sentinel without reaching the engine.
pub fn heap_statistics_begin(reg: &Registry, h: usize) -> (r: bool)
    ensures
        r == live_at(reg@, h),
{
    reg.is_live(h)
}

/// Begins a heap-snapshot request: validates the handle and the file
/// path exactly as a source text, and hands back either the decoded path
/// for the engine or the failure sentinel `-1`.
pub fn heap_snapshot_begin(reg: &Registry, h: usize, path: &Option<Vec<u8>>) -> (r: Result<
    String,
    i32,
>)
    ensures
        r is Ok <==> text_arg_ok(reg@, h, *path),
        r matches Ok(s) ==> s@ == decode_utf8(path->0@),
        r matches Err(code) ==> code == -1,
{
    if !reg.is_live(h) {
        Err(-1)
    } else {
        match marshal_text(path) {
            Some(s) => Ok(s),
            None => Err(-1),
        }
    }
}

/// Completes a heap-snapshot request: `0` when the engine wrote the
/// snapshot, `-1` when it failed.
pub fn heap_snapshot_finish(engine_ok: bool) -> (r: i32)
    ensures
        r == if engine_ok {
            0int
        } else {
            -1int
        },
{
    if engine_ok {
        0
    } else {
        -1
    }
}

/// Reads the execution counter of `h`.  A dead or null handle reports
/// zero, indistinguishable from a genuinely zero count.
pub fn get_exec_count(reg: &Registry, h: usize) -> (r: usize)
    ensures
        r == reported_count(reg@, h),
{
    reg.count_of(h)
}

/// Resets the execution counter of `h` to zero, regardless of prior
/// activity; a no-op on a dead or null handle.
pub fn reset_exec_count(reg: &mut Registry, h: usize)
    ensures
        final(reg)@ == after_reset(old(reg)@, h),
{
    reg.reset_count(h);
}

} // verus!
