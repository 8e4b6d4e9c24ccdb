use std::cell::{Cell, RefCell};

use dropbox_sdk::auth::RateLimitReason;
use dropbox_sdk::file_helpers::{list_directory, ListBackend, ListEntry, ListPage};
use dropbox_sdk::{Error, MiscError};

/// A unit error type standing in for a route's listing error.
#[derive(Debug, PartialEq)]
struct NoListError;

/// A backend that serves a fixed sequence of pages, optionally failing a
/// scripted number of times before each success.
struct FakeBackend {
    pages: RefCell<Vec<ListPage>>,
    failures: RefCell<Vec<Error<NoListError>>>,
    sleeps: Cell<u64>,
    started_with: RefCell<Option<String>>,
}

fn page(prefix: &str, count: usize, has_more: bool, cursor: &str) -> ListPage {
    ListPage {
        entries: (0..count).map(|i| ListEntry::File(format!("{prefix}{i}"))).collect(),
        cursor: cursor.to_owned(),
        has_more,
    }
}

impl ListBackend<NoListError> for FakeBackend {
    fn list_start(&mut self, path: &str, _recursive: bool) -> Result<ListPage, Error<NoListError>> {
        *self.started_with.borrow_mut() = Some(path.to_owned());
        self.serve()
    }

    fn list_continue(&mut self, _cursor: &str) -> Result<ListPage, Error<NoListError>> {
        self.serve()
    }

    fn backoff(&self, seconds: u64) {
        self.sleeps.set(self.sleeps.get() + seconds);
    }
}

impl FakeBackend {
    fn serve(&self) -> Result<ListPage, Error<NoListError>> {
        if let Some(e) = self.failures.borrow_mut().pop() {
            return Err(e);
        }
        Ok(self.pages.borrow_mut().remove(0))
    }
}

#[test]
fn three_pages_yield_all_entries_in_page_order() {
    let mut backend = FakeBackend {
        pages: RefCell::new(vec![
            page("a", 10, true, "c1"),
            page("b", 10, true, "c2"),
            page("c", 5, false, ""),
        ]),
        failures: RefCell::new(Vec::new()),
        sleeps: Cell::new(0),
        started_with: RefCell::new(None),
    };
    let mut it = list_directory(&mut backend, "/", true).unwrap();
    // The root folder is requested as the empty string.
    assert_eq!(Some(String::new()), *backend.started_with.borrow());
    let mut seen = Vec::new();
    while let Some(r) = it.next(&mut backend) {
        match r.unwrap() {
            ListEntry::File(p) => seen.push(p),
            other => panic!("unexpected entry {:?}", other),
        }
    }
    assert_eq!(25, seen.len());
    let expected: Vec<String> = (0..10)
        .map(|i| format!("a{i}"))
        .chain((0..10).map(|i| format!("b{i}")))
        .chain((0..5).map(|i| format!("c{i}")))
        .collect();
    assert_eq!(expected, seen);
}

#[test]
fn rate_limiting_is_waited_out_not_surfaced() {
    let mut backend = FakeBackend {
        pages: RefCell::new(vec![page("x", 2, false, "")]),
        failures: RefCell::new(vec![Error::Other(MiscError::RateLimited {
            reason: RateLimitReason::TooManyRequests,
            retry_after_seconds: 0,
        })]),
        sleeps: Cell::new(0),
        started_with: RefCell::new(None),
    };
    let mut it = list_directory(&mut backend, "/stuff", false).unwrap();
    let mut count = 0;
    while let Some(r) = it.next(&mut backend) {
        r.unwrap();
        count += 1;
    }
    assert_eq!(2, count);
}

#[test]
fn other_errors_surface_after_three_attempts() {
    let transport_error = || Error::Other(MiscError::HttpClient("down".to_owned()));
    let mut backend = FakeBackend {
        pages: RefCell::new(vec![]),
        failures: RefCell::new(vec![transport_error(), transport_error(), transport_error()]),
        sleeps: Cell::new(0),
        started_with: RefCell::new(None),
    };
    let r = list_directory(&mut backend, "/stuff", false);
    assert!(matches!(r, Err(Error::Other(MiscError::HttpClient(ref m))) if m == "down"));
}

#[test]
fn two_failures_then_success_is_retried_through() {
    let transport_error = || Error::Other(MiscError::HttpClient("down".to_owned()));
    let mut backend = FakeBackend {
        pages: RefCell::new(vec![page("x", 1, false, "")]),
        failures: RefCell::new(vec![transport_error(), transport_error()]),
        sleeps: Cell::new(0),
        started_with: RefCell::new(None),
    };
    let mut it = list_directory(&mut backend, "/stuff", false).unwrap();
    assert!(matches!(it.next(&mut backend), Some(Ok(ListEntry::File(_)))));
    assert!(it.next(&mut backend).is_none());
}

#[test]
fn a_deleted_entry_ends_the_iteration_with_an_error() {
    let mut backend = FakeBackend {
        pages: RefCell::new(vec![ListPage {
            entries: vec![
                ListEntry::File("/a".to_owned()),
                ListEntry::Deleted("/b".to_owned()),
                ListEntry::File("/c".to_owned()),
            ],
            cursor: String::new(),
            has_more: false,
        }]),
        failures: RefCell::new(Vec::new()),
        sleeps: Cell::new(0),
        started_with: RefCell::new(None),
    };
    let mut it = list_directory(&mut backend, "/", true).unwrap();
    assert!(matches!(it.next(&mut backend), Some(Ok(ListEntry::File(_)))));
    match it.next(&mut backend) {
        Some(Err(Error::Other(MiscError::UnexpectedResponse(_)))) => {},
        other => panic!("unexpected outcome: {:?}", other.is_some()),
    }
    // The error is terminal.
    assert!(it.next(&mut backend).is_none());
}
