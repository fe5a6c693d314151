use snippet_expander::expander::AutoExpander;
use snippet_expander::keys::KeyId;
use snippet_expander::snippets::SnippetMap;

fn brb_map() -> SnippetMap {
    let mut map = SnippetMap::new();
    map.update(vec![("brb".to_string(), "be right back".to_string())]);
    map
}

fn feed(expander: &mut AutoExpander, keys: &[KeyId]) -> Vec<Option<(usize, String)>> {
    keys.iter()
        .map(|k| expander.handle_key(*k).map(|inj| (inj.erase_count, inj.text)))
        .collect()
}

#[test]
fn scenario_matched_keyword_expands() {
    let mut expander = AutoExpander::new(brb_map());
    expander.set_enabled(true);
    let out = feed(&mut expander, &[KeyId::KeyB, KeyId::KeyR, KeyId::KeyB, KeyId::Space]);
    assert_eq!(out[0], None);
    assert_eq!(out[1], None);
    assert_eq!(out[2], None);
    assert_eq!(out[3], Some((3, "be right back".to_string())));
    assert!(expander.buffer.is_empty());
}

#[test]
fn scenario_backspace_breaks_the_match() {
    let mut expander = AutoExpander::new(brb_map());
    expander.set_enabled(true);
    let out = feed(&mut expander, &[KeyId::KeyB, KeyId::KeyR, KeyId::KeyB, KeyId::Backspace]);
    assert!(out.iter().all(|o| o.is_none()));
    assert_eq!(expander.buffer, vec!['b', 'r']);
    let inj = expander.handle_key(KeyId::Space);
    assert!(inj.is_none());
    assert!(expander.buffer.is_empty());
}

#[test]
fn scenario_disabled_drops_events_entirely() {
    let mut expander = AutoExpander::new(brb_map());
    let out = feed(&mut expander, &[KeyId::KeyB, KeyId::KeyR, KeyId::KeyB, KeyId::Space]);
    assert!(out.iter().all(|o| o.is_none()));
    assert!(expander.buffer.is_empty());
    expander.set_enabled(true);
    let inj = expander.handle_key(KeyId::Space);
    assert!(inj.is_none());
}

#[test]
fn disabling_keeps_the_buffer_intact() {
    let mut expander = AutoExpander::new(brb_map());
    expander.set_enabled(true);
    feed(&mut expander, &[KeyId::KeyB, KeyId::KeyR]);
    expander.set_enabled(false);
    let out = feed(&mut expander, &[KeyId::KeyB, KeyId::Space, KeyId::Backspace]);
    assert!(out.iter().all(|o| o.is_none()));
    assert_eq!(expander.buffer, vec!['b', 'r']);
    expander.set_enabled(true);
    assert_eq!(expander.buffer, vec!['b', 'r']);
}

#[test]
fn word_boundary_clears_buffer_without_a_match() {
    let mut expander = AutoExpander::new(brb_map());
    expander.set_enabled(true);
    feed(&mut expander, &[KeyId::KeyX, KeyId::KeyY]);
    assert_eq!(expander.buffer, vec!['x', 'y']);
    let inj = expander.handle_key(KeyId::Return);
    assert!(inj.is_none());
    assert!(expander.buffer.is_empty());
}

#[test]
fn tab_and_return_also_trigger_expansion() {
    for boundary in [KeyId::Return, KeyId::Tab] {
        let mut expander = AutoExpander::new(brb_map());
        expander.set_enabled(true);
        feed(&mut expander, &[KeyId::KeyB, KeyId::KeyR, KeyId::KeyB]);
        let inj = expander.handle_key(boundary).unwrap();
        assert_eq!(inj.erase_count, 3);
        assert_eq!(inj.text, "be right back".to_string());
        assert!(expander.buffer.is_empty());
    }
}

#[test]
fn buffer_evicts_oldest_at_capacity() {
    let mut expander = AutoExpander::new(SnippetMap::new());
    expander.set_enabled(true);
    for _ in 0..100 {
        expander.handle_key(KeyId::KeyA);
    }
    assert_eq!(expander.buffer.len(), 100);
    expander.handle_key(KeyId::KeyB);
    assert_eq!(expander.buffer.len(), 100);
    assert_eq!(expander.buffer[0], 'a');
    assert_eq!(expander.buffer[99], 'b');
    expander.handle_key(KeyId::KeyC);
    assert_eq!(expander.buffer.len(), 100);
    assert_eq!(expander.buffer[98], 'b');
    assert_eq!(expander.buffer[99], 'c');
}

#[test]
fn backspace_on_empty_buffer_is_a_no_op() {
    let mut expander = AutoExpander::new(SnippetMap::new());
    expander.set_enabled(true);
    let inj = expander.handle_key(KeyId::Backspace);
    assert!(inj.is_none());
    assert!(expander.buffer.is_empty());
}

#[test]
fn ignored_keys_leave_the_buffer_unchanged() {
    let mut expander = AutoExpander::new(brb_map());
    expander.set_enabled(true);
    let out = feed(&mut expander, &[KeyId::KeyB, KeyId::Other, KeyId::KeyR, KeyId::Other]);
    assert!(out.iter().all(|o| o.is_none()));
    assert_eq!(expander.buffer, vec!['b', 'r']);
}

#[test]
fn ignored_keys_do_not_break_a_match() {
    let mut expander = AutoExpander::new(brb_map());
    expander.set_enabled(true);
    feed(&mut expander, &[KeyId::KeyB, KeyId::Other, KeyId::KeyR, KeyId::KeyB]);
    let inj = expander.handle_key(KeyId::Space).unwrap();
    assert_eq!(inj.erase_count, 3);
    assert_eq!(inj.text, "be right back".to_string());
}

#[test]
fn fresh_expander_starts_disabled_and_empty() {
    let expander = AutoExpander::new(SnippetMap::new());
    assert!(!expander.is_enabled());
    assert!(expander.buffer.is_empty());
}
