use never_jscore::buffer::free_string;
use never_jscore::buffer::make_buffer;
use never_jscore::context::marshal_config;
use never_jscore::ops::compile_begin;
use never_jscore::ops::compile_finish;
use never_jscore::ops::context_free;
use never_jscore::ops::context_new_finish;
use never_jscore::ops::eval_begin;
use never_jscore::ops::eval_finish;
use never_jscore::ops::exec_begin;
use never_jscore::ops::exec_finish;
use never_jscore::ops::gc_begin;
use never_jscore::ops::get_exec_count;
use never_jscore::ops::heap_snapshot_begin;
use never_jscore::ops::heap_snapshot_finish;
use never_jscore::ops::heap_statistics_begin;
use never_jscore::ops::reset_exec_count;
use never_jscore::registry::Registry;
use never_jscore::stats::heap_statistics_finish;

fn text_arg(s: &str) -> Option<Vec<u8>> {
    Some(s.as_bytes().to_vec())
}

fn new_context(reg: &mut Registry) -> usize {
    let config = marshal_config(0, 0, -1);
    context_new_finish(reg, config, true)
}

#[test]
fn marshal_config_flags_and_seed() {
    let c = marshal_config(2, 0, -1);
    assert!(c.extensions_enabled);
    assert!(!c.logging_enabled);
    assert_eq!(c.seed, None);

    let d = marshal_config(0, 3, 5);
    assert!(!d.extensions_enabled);
    assert!(d.logging_enabled);
    assert_eq!(d.seed, Some(5));

    // A seed beyond 32 bits is passed through as its low 32 bits.
    let e = marshal_config(0, 0, 0x1_0000_0002);
    assert_eq!(e.seed, Some(2));
}

#[test]
fn creation_failure_yields_null_handle() {
    let mut reg = Registry::new();
    let config = marshal_config(1, 1, 42);
    let h = context_new_finish(&mut reg, config, false);
    assert_eq!(h, 0);
    // No context was left behind: the null handle stays dead.
    assert_eq!(get_exec_count(&reg, h), 0);
}

#[test]
fn create_and_destroy() {
    let mut reg = Registry::new();
    let h = new_context(&mut reg);
    assert!(h != 0);
    context_free(&mut reg, h);
    // A later creation hands out a fresh handle, never the old one.
    let h2 = new_context(&mut reg);
    assert!(h2 != 0);
    assert!(h2 != h);
    context_free(&mut reg, h2);
    // Destroying the null handle is a no-op.
    context_free(&mut reg, 0);
}

#[test]
fn eval_returns_owned_buffer_and_counts() {
    let mut reg = Registry::new();
    let h = new_context(&mut reg);
    let source = eval_begin(&reg, h, &text_arg("1+1"));
    assert_eq!(source.as_deref(), Some("1+1"));
    // The engine collaborator evaluates and reports the JSON encoding of 2.
    let buf = eval_finish(&mut reg, h, Some(String::from("2")));
    let buf = buf.expect("successful evaluation returns a buffer");
    assert_eq!(buf.text().as_str(), "2");
    assert_eq!(get_exec_count(&reg, h), 1);
    // Releasing the buffer once must not crash.
    free_string(Some(buf));
}

#[test]
fn exec_side_effects_persist_on_same_handle() {
    let mut reg = Registry::new();
    let h = new_context(&mut reg);
    let source = exec_begin(&reg, h, &text_arg("var x = 1;"));
    assert_eq!(source.as_deref().ok(), Some("var x = 1;"));
    assert_eq!(exec_finish(true), 0);
    // The handle stays usable: a subsequent eval on it proceeds.
    let again = eval_begin(&reg, h, &text_arg("x"));
    assert_eq!(again.as_deref(), Some("x"));
    let buf = eval_finish(&mut reg, h, Some(String::from("1")));
    assert_eq!(buf.expect("buffer").text().as_str(), "1");
}

#[test]
fn failed_exec_leaves_counter_unchanged() {
    let mut reg = Registry::new();
    let h = new_context(&mut reg);
    let before = get_exec_count(&reg, h);

    // The source is fine as text; the engine rejects it as a script.
    let source = exec_begin(&reg, h, &text_arg("this is not valid js ("));
    assert!(source.is_ok());
    assert_eq!(exec_finish(false), -1);
    assert_eq!(get_exec_count(&reg, h), before);

    // A failed eval leaves it unchanged too.
    let r = eval_finish(&mut reg, h, None);
    assert!(r.is_none());
    assert_eq!(get_exec_count(&reg, h), before);

    // A successful eval increments it by exactly one.
    let buf = eval_finish(&mut reg, h, Some(String::from("null")));
    assert!(buf.is_some());
    assert_eq!(get_exec_count(&reg, h), before + 1);
}

#[test]
fn reset_reports_zero_regardless_of_activity() {
    let mut reg = Registry::new();
    let h = new_context(&mut reg);
    let _ = eval_finish(&mut reg, h, Some(String::from("2")));
    let _ = eval_finish(&mut reg, h, Some(String::from("3")));
    assert_eq!(get_exec_count(&reg, h), 2);
    reset_exec_count(&mut reg, h);
    assert_eq!(get_exec_count(&reg, h), 0);
    // On the null handle the reset is a no-op and the read reports zero.
    reset_exec_count(&mut reg, 0);
    assert_eq!(get_exec_count(&reg, 0), 0);
}

#[test]
fn null_handle_yields_failure_sentinels() {
    let mut reg = Registry::new();
    let _ = new_context(&mut reg);

    assert!(eval_begin(&reg, 0, &text_arg("1+1")).is_none());
    assert_eq!(exec_begin(&reg, 0, &text_arg("1;")).err(), Some(-1));
    assert_eq!(compile_begin(&reg, 0, &text_arg("1;")).err(), Some(-1));
    assert_eq!(heap_snapshot_begin(&reg, 0, &text_arg("/tmp/snap")).err(), Some(-1));
    assert!(!heap_statistics_begin(&reg, 0));
    assert!(!gc_begin(&reg, 0));
    assert_eq!(get_exec_count(&reg, 0), 0);
    reset_exec_count(&mut reg, 0);
    context_free(&mut reg, 0);
}

#[test]
fn null_text_yields_failure_sentinels() {
    let mut reg = Registry::new();
    let h = new_context(&mut reg);

    assert!(eval_begin(&reg, h, &None).is_none());
    assert_eq!(exec_begin(&reg, h, &None).err(), Some(-1));
    assert_eq!(compile_begin(&reg, h, &None).err(), Some(-1));
    assert_eq!(heap_snapshot_begin(&reg, h, &None).err(), Some(-1));
}

#[test]
fn malformed_text_is_rejected_before_the_engine() {
    let mut reg = Registry::new();
    let h = new_context(&mut reg);

    let bad = Some(vec![0xffu8, 0xfe, 0x41]);
    assert!(eval_begin(&reg, h, &bad).is_none());
    assert_eq!(exec_begin(&reg, h, &bad).err(), Some(-1));
    assert_eq!(heap_snapshot_begin(&reg, h, &bad).err(), Some(-1));

    // Well-formed multi-byte text decodes to the text itself.
    let greek = eval_begin(&reg, h, &text_arg("\u{3c0}\u{3bb}"));
    assert_eq!(greek.as_deref(), Some("\u{3c0}\u{3bb}"));
}

#[test]
fn result_with_interior_nul_cannot_cross() {
    let mut reg = Registry::new();
    let h = new_context(&mut reg);
    let before = get_exec_count(&reg, h);
    // The evaluation itself succeeded, so the counter moves, but its
    // text cannot live in a null-terminated buffer.
    let buf = eval_finish(&mut reg, h, Some(String::from("a\0b")));
    assert!(buf.is_none());
    assert_eq!(get_exec_count(&reg, h), before + 1);
}

#[test]
fn compile_is_an_alias_of_exec() {
    let mut reg = Registry::new();
    let h = new_context(&mut reg);
    let src = text_arg("function f() {}");
    let via_compile = compile_begin(&reg, h, &src);
    let via_exec = exec_begin(&reg, h, &src);
    assert_eq!(via_compile.ok(), via_exec.ok());
    assert_eq!(compile_finish(true), 0);
    assert_eq!(compile_finish(false), -1);
}

#[test]
fn heap_snapshot_sentinels() {
    let mut reg = Registry::new();
    let h = new_context(&mut reg);
    let path = heap_snapshot_begin(&reg, h, &text_arg("/tmp/heap.snap"));
    assert_eq!(path.as_deref().ok(), Some("/tmp/heap.snap"));
    assert_eq!(heap_snapshot_finish(true), 0);
    assert_eq!(heap_snapshot_finish(false), -1);
}

#[test]
fn heap_statistics_serialize_as_a_json_object() {
    let entries = vec![
        (String::from("total_heap_size"), 2048u64),
        (String::from("used_heap_size"), 1024u64),
    ];
    let buf = heap_statistics_finish(Some(entries)).expect("statistics serialize");
    let value: serde_json::Value =
        serde_json::from_str(buf.text()).expect("the buffer holds well-formed JSON");
    let object = value.as_object().expect("a JSON object");
    assert_eq!(object.len(), 2);
    assert_eq!(object.get("total_heap_size").and_then(|v| v.as_u64()), Some(2048));
    assert_eq!(object.get("used_heap_size").and_then(|v| v.as_u64()), Some(1024));
    for (_, v) in object {
        assert!(v.as_u64().is_some());
    }
    // An engine failure collapses to the null sentinel.
    assert!(heap_statistics_finish(None).is_none());
}

#[test]
fn reported_statistics_always_cross() {
    // No entries at all still serialize, to the empty JSON object.
    let buf = heap_statistics_finish(Some(Vec::new())).expect("empty statistics serialize");
    assert_eq!(buf.text().as_str(), "{}");

    // Even a key holding a NUL serializes: the serializer escapes every
    // control character, so the buffer never carries a raw NUL.
    let entries = vec![(String::from("odd\0key"), 7u64)];
    let buf = heap_statistics_finish(Some(entries)).expect("statistics always serialize");
    assert!(!buf.text().contains('\0'));
    let value: serde_json::Value =
        serde_json::from_str(buf.text()).expect("the buffer holds well-formed JSON");
    let looked_up = value.as_object().and_then(|o| o.get("odd\0key")).and_then(|v| v.as_u64());
    assert_eq!(looked_up, Some(7));
}

#[test]
fn contexts_are_isolated() {
    let mut reg = Registry::new();
    let h1 = new_context(&mut reg);
    let h2 = new_context(&mut reg);
    assert!(h1 != h2);

    let _ = eval_finish(&mut reg, h1, Some(String::from("1")));
    assert_eq!(get_exec_count(&reg, h1), 1);
    assert_eq!(get_exec_count(&reg, h2), 0);

    reset_exec_count(&mut reg, h1);
    assert_eq!(get_exec_count(&reg, h2), 0);

    context_free(&mut reg, h1);
    // The other context is untouched and still usable.
    assert!(eval_begin(&reg, h2, &text_arg("typeof x")).is_some());
}

#[test]
fn buffers_round_trip_and_release() {
    let buf = make_buffer(String::from("hello")).expect("plain text crosses");
    assert_eq!(buf.text().as_str(), "hello");
    assert_eq!(buf.into_text(), "hello");

    assert!(make_buffer(String::from("a\0")).is_none());
    // Releasing the null buffer is a no-op.
    free_string(None);
}
