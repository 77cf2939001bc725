use std::cell::Cell;

use observe::Event;
use observe::Observer;
use observe::RecordingObserver;
use observe::SharedObserver;
use observe::UpdateStream;

/// An observer whose fallible methods all fail with a fixed message.
#[derive(Debug)]
struct FailingObserver;

impl Observer<u64, String> for FailingObserver {
    fn on_start(&mut self) -> Result<(), String> {
        Err(String::from("cannot prepare"))
    }

    fn on_commit(&mut self) -> Result<(), String> {
        Err(String::from("cannot flush"))
    }

    fn on_updates(&mut self, _updates: &mut UpdateStream<u64>) -> Result<(), String> {
        Err(String::from("cannot digest"))
    }

    fn on_completed(&mut self) -> Result<(), String> {
        Err(String::from("cannot clean up"))
    }

    fn on_error(&self, _error: String) {}
}

/// An error value with no sensible recovery, to check that reporting one is
/// still just a pass-through notification.
#[derive(Debug, PartialEq)]
struct Unfixable {
    details: Vec<String>,
}

/// An observer that only counts how often it was told about errors.
#[derive(Debug)]
struct ErrorCounting {
    errors_seen: Cell<usize>,
}

impl Clone for ErrorCounting {
    fn clone(&self) -> Self {
        ErrorCounting { errors_seen: Cell::new(self.errors_seen.get()) }
    }
}

impl Observer<u64, Unfixable> for ErrorCounting {
    fn on_start(&mut self) -> Result<(), Unfixable> {
        Ok(())
    }

    fn on_commit(&mut self) -> Result<(), Unfixable> {
        Ok(())
    }

    fn on_updates(&mut self, updates: &mut UpdateStream<u64>) -> Result<(), Unfixable> {
        while updates.next().is_some() {}
        Ok(())
    }

    fn on_completed(&mut self) -> Result<(), Unfixable> {
        Ok(())
    }

    fn on_error(&self, _error: Unfixable) {
        self.errors_seen.set(self.errors_seen.get() + 1);
    }
}

#[test]
fn stream_yields_each_item_once_in_order() {
    let mut stream = UpdateStream::new(vec![10u64, 20, 30]);
    assert_eq!(stream.next(), Some(10));
    assert_eq!(stream.next(), Some(20));
    assert_eq!(stream.next(), Some(30));
    assert_eq!(stream.next(), None);
    assert_eq!(stream.next(), None);
}

#[test]
fn empty_batch_succeeds_and_mutates_nothing() {
    let mut observer: RecordingObserver<u64, String> = RecordingObserver::new();
    let mut batch = UpdateStream::new(Vec::new());
    assert_eq!(observer.on_updates(&mut batch), Ok(()));
    assert!(observer.log().is_empty());
    assert_eq!(batch.next(), None);
}

#[test]
fn batch_is_consumed_fully_in_iteration_order() {
    let mut observer: RecordingObserver<u64, String> = RecordingObserver::new();
    let mut batch = UpdateStream::new(vec![1u64, 2, 3]);
    assert_eq!(observer.on_updates(&mut batch), Ok(()));
    assert_eq!(
        observer.log(),
        &vec![Event::Update(1), Event::Update(2), Event::Update(3)],
    );
    assert_eq!(batch.next(), None);
}

#[test]
fn clone_mutation_is_visible_through_the_original_handle() {
    let original: SharedObserver<RecordingObserver<u64, String>> =
        SharedObserver::new(RecordingObserver::new());
    let mut clone = original.clone();
    assert_eq!(clone.on_start(), Ok(()));
    assert_eq!(original.snapshot().log(), &vec![Event::Start]);
}

#[test]
fn start_failure_is_propagated_unchanged() {
    let mut shared = SharedObserver::new(FailingObserver);
    assert_eq!(shared.on_start(), Err(String::from("cannot prepare")));
}

#[test]
fn every_fallible_failure_is_propagated_unchanged() {
    let mut shared = SharedObserver::new(FailingObserver);
    let mut batch = UpdateStream::new(vec![7u64]);
    assert_eq!(shared.on_updates(&mut batch), Err(String::from("cannot digest")));
    assert_eq!(shared.on_commit(), Err(String::from("cannot flush")));
    assert_eq!(shared.on_completed(), Err(String::from("cannot clean up")));
}

#[test]
fn on_error_forwards_and_cannot_steer_the_caller() {
    let mut shared = SharedObserver::new(ErrorCounting { errors_seen: Cell::new(0) });
    let awkward = Unfixable {
        details: vec![String::from("disk gone"), String::from("backup gone too")],
    };
    // `on_error` hands back no value at all, so the caller has nothing to
    // branch on; the session can go on exactly as before.
    shared.on_error(awkward);
    assert_eq!(shared.snapshot().errors_seen.get(), 1);
    assert_eq!(shared.on_start(), Ok(()));
}

#[test]
fn interleaved_handles_build_one_serial_log() {
    let shared: SharedObserver<RecordingObserver<u64, String>> =
        SharedObserver::new(RecordingObserver::new());
    let mut first = shared.clone();
    let mut second = shared.clone();
    let mut third = shared.clone();

    assert_eq!(first.on_start(), Ok(()));
    let mut early = UpdateStream::new(vec![1u64, 2, 3]);
    assert_eq!(second.on_updates(&mut early), Ok(()));
    let mut late = UpdateStream::new(vec![4u64]);
    assert_eq!(third.on_updates(&mut late), Ok(()));
    assert_eq!(first.on_commit(), Ok(()));
    assert_eq!(second.on_completed(), Ok(()));

    let log = shared.snapshot();
    assert_eq!(
        log.log(),
        &vec![
            Event::Start,
            Event::Update(1),
            Event::Update(2),
            Event::Update(3),
            Event::Update(4),
            Event::Commit,
            Event::Completed,
        ],
    );
    // One start, one commit, one completion; each batch kept whole, with no
    // items of one batch interleaved into the other.
    let starts = log.log().iter().filter(|e| **e == Event::Start).count();
    let commits = log.log().iter().filter(|e| **e == Event::Commit).count();
    let completions = log.log().iter().filter(|e| **e == Event::Completed).count();
    assert_eq!((starts, commits, completions), (1, 1, 1));
}
