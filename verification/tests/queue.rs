use shork::error::AudioError;
use shork::jellyfin::Track;
use shork::queue::Queue;

fn track(id: &str) -> Track {
    Track { name: format!("track {}", id), id: id.to_string(), stream_url: format!("http://s/{}", id) }
}

fn ids(queue: &Queue) -> Vec<String> {
    let mut out = Vec::new();
    for t in queue.tracks() {
        out.push(t.id.clone());
    }
    out
}

#[test]
fn new_queue_is_empty_without_cursor() {
    let queue = Queue::new();
    assert_eq!(queue.len(), 0);
    assert_eq!(queue.cursor(), None);
    assert!(queue.current().is_none());
    assert!(!queue.has_next());
    assert!(!queue.has_previous());
}

#[test]
fn replace_and_play_selects_the_first_item() {
    let mut queue = Queue::new();
    queue.append(vec![track("old")]);
    let start = queue.replace_and_play(vec![track("a"), track("b")]);
    assert_eq!(start, Some(track("a")));
    assert_eq!(ids(&queue), vec!["a".to_string(), "b".to_string()]);
    assert_eq!(queue.cursor(), Some(0));
    assert_eq!(queue.current().map(|t| t.name.clone()), Some("track a".to_string()));
}

#[test]
fn replace_and_play_with_nothing_empties_the_queue() {
    let mut queue = Queue::new();
    queue.replace_and_play(vec![track("a")]);
    let start = queue.replace_and_play(Vec::new());
    assert_eq!(start, None);
    assert_eq!(queue.len(), 0);
    assert_eq!(queue.cursor(), None);
}

#[test]
fn append_keeps_the_cursor() {
    let mut queue = Queue::new();
    queue.replace_and_play(vec![track("a"), track("b")]);
    assert!(queue.advance().is_ok());
    queue.append(vec![track("c"), track("d")]);
    assert_eq!(
        ids(&queue),
        vec!["a".to_string(), "b".to_string(), "c".to_string(), "d".to_string()]
    );
    assert_eq!(queue.cursor(), Some(1));
}

#[test]
fn append_to_an_empty_queue_selects_nothing() {
    let mut queue = Queue::new();
    queue.append(vec![track("a")]);
    assert_eq!(queue.len(), 1);
    assert_eq!(queue.cursor(), None);
    assert!(queue.current().is_none());
}

#[test]
fn advance_moves_to_the_next_item() {
    let mut queue = Queue::new();
    queue.replace_and_play(vec![track("a"), track("b")]);
    assert!(queue.has_next());
    assert_eq!(queue.advance(), Ok(track("b")));
    assert_eq!(queue.cursor(), Some(1));
    assert!(!queue.has_next());
    assert!(queue.has_previous());
}

#[test]
fn advance_past_the_end_clears_the_cursor() {
    let mut queue = Queue::new();
    queue.replace_and_play(vec![track("a")]);
    assert_eq!(queue.advance(), Err(AudioError::EmptyQueue));
    assert_eq!(queue.cursor(), None);
    assert_eq!(queue.len(), 1);
    assert_eq!(queue.advance(), Err(AudioError::EmptyQueue));
    assert_eq!(queue.cursor(), None);
}

#[test]
fn retreat_moves_to_the_previous_item() {
    let mut queue = Queue::new();
    queue.replace_and_play(vec![track("a"), track("b"), track("c")]);
    assert!(queue.advance().is_ok());
    assert!(queue.advance().is_ok());
    assert_eq!(queue.retreat(), Ok(track("b")));
    assert_eq!(queue.cursor(), Some(1));
}

#[test]
fn retreat_at_the_first_item_does_not_wrap() {
    let mut queue = Queue::new();
    queue.replace_and_play(vec![track("a"), track("b")]);
    assert_eq!(queue.retreat(), Err(AudioError::EmptyQueue));
    assert_eq!(queue.cursor(), Some(0));
    assert_eq!(ids(&queue), vec!["a".to_string(), "b".to_string()]);
}

#[test]
fn retreat_without_cursor_changes_nothing() {
    let mut queue = Queue::new();
    queue.append(vec![track("a")]);
    assert_eq!(queue.retreat(), Err(AudioError::EmptyQueue));
    assert_eq!(queue.cursor(), None);
    assert_eq!(queue.len(), 1);
}

#[test]
fn clear_empties_the_queue() {
    let mut queue = Queue::new();
    queue.replace_and_play(vec![track("a"), track("b")]);
    queue.clear();
    assert_eq!(queue.len(), 0);
    assert_eq!(queue.cursor(), None);
    assert!(queue.current().is_none());
}
