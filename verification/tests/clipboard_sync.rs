use visuara::clipboard_sync::{ClipboardBackend, ClipboardSync, RecordedClipboard};

struct FakeBackend {
    text: String,
    writes: Vec<String>,
}

impl ClipboardBackend for FakeBackend {
    fn get_text(&mut self) -> Result<String, String> {
        Ok(self.text.clone())
    }

    fn set_text(&mut self, text: &str) -> Result<(), String> {
        self.text = text.to_string();
        self.writes.push(text.to_string());
        Ok(())
    }
}

struct BrokenBackend;

impl ClipboardBackend for BrokenBackend {
    fn get_text(&mut self) -> Result<String, String> {
        Err("no clipboard".to_string())
    }

    fn set_text(&mut self, _text: &str) -> Result<(), String> {
        Err("no clipboard".to_string())
    }
}

#[test]
fn local_change_is_reported_once() {
    let mut backing = RecordedClipboard::new(FakeBackend { text: String::new(), writes: Vec::new() });
    let mut sync = ClipboardSync::start();
    assert_eq!(sync.poll(&mut backing, Vec::new()), None);

    backing.backend.text = "hello from local".to_string();
    let seen = sync.poll(&mut backing, Vec::new()).expect("expected a local change to be reported");
    assert_eq!(seen, "hello from local");

    // No further changes should be reported since nothing changed again.
    assert_eq!(sync.poll(&mut backing, Vec::new()), None);
}

#[test]
fn remote_update_is_not_echoed_back() {
    let mut backing = RecordedClipboard::new(FakeBackend { text: String::new(), writes: Vec::new() });
    let mut sync = ClipboardSync::start();
    let reported = sync.poll(&mut backing, vec!["from the remote side".to_string()]);
    assert_eq!(backing.backend.text, "from the remote side");
    assert_eq!(reported, None);
    assert_eq!(sync.poll(&mut backing, Vec::new()), None);
}

#[test]
fn remote_updates_apply_in_order_and_a_later_local_change_is_reported() {
    let mut backing = RecordedClipboard::new(FakeBackend { text: String::new(), writes: Vec::new() });
    let mut sync = ClipboardSync::start();
    assert_eq!(sync.poll(&mut backing, vec!["one".to_string(), "two".to_string()]), None);
    assert_eq!(backing.backend.writes, vec!["one".to_string(), "two".to_string()]);
    backing.backend.text = "three".to_string();
    assert_eq!(sync.poll(&mut backing, Vec::new()), Some("three".to_string()));
}

#[test]
fn unreadable_clipboard_reports_nothing() {
    let mut sync = ClipboardSync::start();
    assert_eq!(sync.poll(&mut RecordedClipboard::new(BrokenBackend), vec!["x".to_string()]), None);
    let mut backing = RecordedClipboard::new(FakeBackend { text: "x".to_string(), writes: Vec::new() });
    assert_eq!(sync.poll(&mut backing, Vec::new()), None);
}

#[test]
fn observe_and_apply_directly() {
    let mut sync = ClipboardSync::start();
    assert_eq!(sync.apply_remote_update("abc".to_string()), "abc");
    assert_eq!(sync.observe_local("abc".to_string()), None);
    assert_eq!(sync.observe_local("abd".to_string()), Some("abd".to_string()));
    assert_eq!(sync.observe_local("abd".to_string()), None);
}

#[test]
fn remote_updates_come_back_in_order_and_set_the_baseline() {
    let mut sync = ClipboardSync::start();
    let w = sync.take_remote_updates(vec!["a".to_string(), "b".to_string()]);
    assert_eq!(w, vec!["a".to_string(), "b".to_string()]);
    assert_eq!(sync.observe_read(Ok("b".to_string())), None);
    assert_eq!(sync.take_remote_updates(Vec::new()), Vec::<String>::new());
    assert_eq!(sync.observe_read(Ok("b".to_string())), None);
}

#[test]
fn failed_reads_are_never_reported() {
    let mut sync = ClipboardSync::start();
    assert_eq!(sync.observe_read(Err("busy".to_string())), None);
    assert_eq!(sync.observe_read(Ok("x".to_string())), Some("x".to_string()));
    assert_eq!(sync.observe_read(Err("busy".to_string())), None);
    // The baseline survived the failed read: the same text is not reported again.
    assert_eq!(sync.observe_read(Ok("x".to_string())), None);
    assert_eq!(sync.observe_read(Ok("y".to_string())), Some("y".to_string()));
}
