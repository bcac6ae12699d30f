use persona_responder::sampling::{decide, should_process};
use persona_responder::handler::{Handler, HISTORY_WINDOW};
use persona_responder::job::{Limiter, CAPACITY, HEARTBEAT_MILLIS, MAX_POOL};
use persona_responder::persona::PersonaBook;
use persona_responder::prompt::{
    assemble, chronological, own_turn, speaker_label, HistoryEntry, Speaker,
};

fn speaker(id: u64, name: &str, discriminator: Option<u16>) -> Speaker {
    Speaker { id, name: name.to_string(), discriminator }
}

fn entry(id: u64, name: &str, content: &str) -> HistoryEntry {
    HistoryEntry { author: speaker(id, name, None), content: content.to_string() }
}

#[test]
fn prompt_merges_consecutive_turns() {
    let history = vec![entry(1, "A", "hi"), entry(1, "A", "there"), entry(2, "B", "hey")];
    let me = speaker(9, "Me", None);
    let p = assemble("P", &history, &me);
    assert_eq!(p, "P\n\nContext:\n### A: hi\nthere\n### B: hey\n### Me: ");
    assert_eq!(p.matches("### A:").count(), 1);
    assert_eq!(p.matches("### B:").count(), 1);
    assert!(p.ends_with("### Me: "));
}

#[test]
fn prompt_with_empty_history() {
    let me = speaker(9, "Me", Some(42));
    let p = assemble("persona", &Vec::new(), &me);
    assert_eq!(p, "persona\n\nContext:\n### Me#0042: ");
}

#[test]
fn prompt_strips_mention_markup() {
    let history = vec![entry(1, "A", "@everyone look @B")];
    let p = assemble("", &history, &speaker(9, "Me", None));
    assert_eq!(p, "\n\nContext:\n### A: everyone look B\n### Me: ");
}

#[test]
fn prompt_alternating_authors_are_separate_turns() {
    let history = vec![entry(1, "A", "x"), entry(2, "B", "y"), entry(1, "A", "z")];
    let p = assemble("P", &history, &speaker(9, "Me", None));
    assert_eq!(p, "P\n\nContext:\n### A: x\n### B: y\n### A: z\n### Me: ");
}

#[test]
fn label_pads_discriminator() {
    assert_eq!(speaker_label(&speaker(1, "bob", Some(7))), "bob#0007");
    assert_eq!(speaker_label(&speaker(1, "bob", Some(1234))), "bob#1234");
    assert_eq!(speaker_label(&speaker(1, "bob", Some(12345))), "bob#12345");
    assert_eq!(speaker_label(&speaker(1, "bob", None)), "bob");
}

#[test]
fn newest_first_is_reversed() {
    let fetched = vec![entry(3, "C", "3"), entry(2, "B", "2"), entry(1, "A", "1")];
    let r = chronological(fetched);
    let ids: Vec<u64> = r.iter().map(|e| e.author.id).collect();
    assert_eq!(ids, vec![1, 2, 3]);
    assert!(chronological(Vec::new()).is_empty());
}

#[test]
fn sampling_rules_for_each_draw() {
    for skip in [false, true] {
        assert!(!decide(true, Some(true), skip));
        assert!(!decide(true, Some(false), skip));
        assert!(!decide(true, None, skip));
        assert!(decide(false, Some(true), skip));
        assert!(!decide(false, None, skip));
    }
    assert!(decide(false, Some(false), false));
    assert!(!decide(false, Some(false), true));
}

#[test]
fn sampling_directed_always_and_bots_never() {
    for _ in 0..200 {
        assert!(should_process(false, Some(true)));
        assert!(!should_process(true, Some(true)));
        assert!(!should_process(true, Some(false)));
        assert!(!should_process(false, None));
    }
}

#[test]
fn persona_set_then_query() {
    let mut book = PersonaBook::new("default".to_string());
    assert_eq!(book.persona_for(5), "default");
    assert_eq!(book.command(5, Some("pirate".to_string())), "done");
    assert_eq!(book.command(5, None), "pirate");
    assert_eq!(book.command(6, None), "default");
    book.set(5, "poet".to_string());
    assert_eq!(book.persona_for(5), "poet");
}

#[test]
fn limiter_never_exceeds_capacity() {
    let limiter = Limiter::new();
    assert_eq!(limiter.available(), CAPACITY);
    let mut jobs = Vec::new();
    for _ in 0..CAPACITY {
        jobs.push(limiter.try_admit().expect("a permit is free"));
    }
    assert_eq!(limiter.available(), 0);
    assert!(limiter.try_admit().is_none());
    assert!(limiter.try_admit().is_none());
    let mut first = jobs.remove(0);
    assert!(first.heartbeat_due());
    assert_eq!(first.settle("reply".to_string()), Some("reply".to_string()));
    assert!(!first.heartbeat_due());
    assert_eq!(limiter.available(), 1);
    assert!(limiter.try_admit().is_some());
}

#[test]
fn empty_result_releases_and_sends_nothing() {
    let limiter = Limiter::new();
    let mut job = limiter.try_admit().unwrap();
    assert_eq!(limiter.available(), CAPACITY - 1);
    assert_eq!(job.settle(String::new()), None);
    assert_eq!(limiter.available(), CAPACITY);
}

#[test]
fn dropped_job_releases_its_permit() {
    let limiter = Limiter::new();
    let job = limiter.try_admit().unwrap();
    assert_eq!(limiter.available(), CAPACITY - 1);
    drop(job);
    assert_eq!(limiter.available(), CAPACITY);
}

#[test]
fn handler_waits_for_identity() {
    let mut h = Handler::new("P".to_string());
    assert!(!h.needs_mention_check(false));
    assert!(h.accept(false, Some(true)).is_none());
    assert!(h.prompt(1, vec![entry(1, "A", "hi")]).is_none());
    h.set_identity(speaker(9, "Me", None));
    h.set_identity(speaker(10, "Other", None));
    assert!(h.needs_mention_check(false));
    assert!(!h.needs_mention_check(true));
    assert!(h.accept(true, Some(true)).is_none());
    assert!(h.accept(false, None).is_none());
    let job = h.accept(false, Some(true));
    assert!(job.is_some());
    assert_eq!(h.limiter().available(), CAPACITY - 1);
    let fetched = vec![entry(2, "B", "hey"), entry(1, "A", "there"), entry(1, "A", "hi")];
    assert_eq!(
        h.prompt(1, fetched).unwrap(),
        "P\n\nContext:\n### A: hi\nthere\n### B: hey\n### Me: "
    );
}

#[test]
fn handler_persona_command() {
    let mut h = Handler::new("base".to_string());
    assert_eq!(h.persona_command(3, None), "base");
    assert_eq!(h.persona_command(3, Some("knight".to_string())), "done");
    assert_eq!(h.persona_command(3, None), "knight");
    assert_eq!(h.persona_command(4, None), "base");
    h.set_identity(speaker(9, "Me", None));
    assert!(h.prompt(3, Vec::new()).unwrap().starts_with("knight\n\nContext:\n"));
}

#[test]
fn handler_sheds_when_full() {
    let mut h = Handler::new("P".to_string());
    h.set_identity(speaker(9, "Me", None));
    let held: Vec<_> = (0..CAPACITY).map(|_| h.accept(false, Some(true)).unwrap()).collect();
    assert!(h.accept(false, Some(true)).is_none());
    drop(held);
    assert!(h.accept(false, Some(true)).is_some());
}

#[test]
fn configured_limits() {
    assert_eq!(CAPACITY, 4);
    assert_eq!(HEARTBEAT_MILLIS, 2000);
    assert_eq!(HISTORY_WINDOW, 5);
}

fn turn_of(s: &str) -> String {
    let chars: Vec<char> = s.chars().collect();
    own_turn(&chars).into_iter().collect()
}

#[test]
fn own_turn_stops_at_next_marker() {
    assert_eq!(turn_of("hello there\n### A: hi"), "hello there\n");
    assert_eq!(turn_of("no marker here"), "no marker here");
    assert_eq!(turn_of("###"), "");
    assert_eq!(turn_of("a ## b #"), "a ## b #");
    assert_eq!(turn_of(""), "");
    assert_eq!(turn_of("x#### y"), "x");
}

#[test]
fn label_pads_edge_discriminators() {
    assert_eq!(speaker_label(&speaker(1, "z", Some(0))), "z#0000");
    assert_eq!(speaker_label(&speaker(1, "z", Some(10))), "z#0010");
    assert_eq!(speaker_label(&speaker(1, "z", Some(999))), "z#0999");
    assert_eq!(speaker_label(&speaker(1, "z", Some(65535))), "z#65535");
}

#[test]
fn pool_limit_matches_semaphore() {
    assert_eq!(MAX_POOL, tokio::sync::Semaphore::MAX_PERMITS);
    let h = Handler::new("P".to_string());
    assert_eq!(h.limiter().available(), CAPACITY);
}
