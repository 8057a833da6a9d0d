//! The tracking state machine: one `last seen application` text,
//! advanced once per tick by the outcome of a foreground-window query.

use vstd::prelude::*;
use crate::event::WindowSample;
use crate::event::WindowSampleView;
use crate::event::WindowPosition;

verus! {

/// Change notification published when the owning application of the
/// foreground window differs from the last successfully observed one.
#[derive(Clone, Debug)]
pub struct WindowChange {
    pub app_name: String,
    pub window_title: String,
    pub timestamp: u64,
    pub position: WindowPosition,
}

/// Mathematical image of a [`WindowChange`].
pub ghost struct WindowChangeView {
    pub app_name: Seq<char>,
    pub window_title: Seq<char>,
    pub timestamp: u64,
    pub position: WindowPosition,
}

impl View for WindowChange {
    type V = WindowChangeView;

    open spec fn view(&self) -> WindowChangeView {
        WindowChangeView {
            app_name: self.app_name@,
            window_title: self.window_title@,
            timestamp: self.timestamp,
            position: self.position,
        }
    }
}

/// A tick's query outcome as the tracker sees it: `None` when the
/// operating system could not report a foreground window, `Some` with
/// the sample when it could.
pub open spec fn query_view(query: Option<WindowSample>) -> Option<WindowSampleView> {
    match query {
        Some(sample) => Some(sample@),
        None => None,
    }
}

/// Whether a tick publishes an event: only a successful query whose
/// application name differs from the last observed one does.
pub open spec fn tick_emits(last_app: Seq<char>, query: Option<WindowSampleView>) -> bool {
    match query {
        Some(sample) => sample.app_name != last_app,
        None => false,
    }
}

/// The last-seen application name after a tick: a successful query
/// replaces it with the sample's name, a failed one leaves it alone.
pub open spec fn tick_last_app(last_app: Seq<char>, query: Option<WindowSampleView>) -> Seq<char> {
    match query {
        Some(sample) => sample.app_name,
        None => last_app,
    }
}

/// The event a tick publishes, if any: the freshly queried name, title
/// and geometry, stamped with the tick's timestamp.
pub open spec fn tick_event(
    last_app: Seq<char>,
    query: Option<WindowSampleView>,
    timestamp: u64,
) -> Option<WindowChangeView> {
    match query {
        Some(sample) => if sample.app_name != last_app {
            Some(WindowChangeView {
                app_name: sample.app_name,
                window_title: sample.window_title,
                timestamp: timestamp,
                position: sample.position,
            })
        } else {
            None
        },
        None => None,
    }
}

/// State of one tracking loop. Each loop owns exactly one tracker;
/// independent loops own independent trackers. The view is the last
/// successfully observed application name, empty before the first
/// successful observation.
pub struct Tracker {
    last_app: String,
}

impl View for Tracker {
    type V = Seq<char>;

    closed spec fn view(&self) -> Seq<char> {
        self.last_app@
    }
}

impl Tracker {
    /// A fresh tracker: nothing observed yet, encoded as the empty
    /// name.
    pub fn new() -> (tracker: Tracker)
        ensures
            tracker@ == Seq::<char>::empty(),
    {
        Tracker { last_app: String::new() }
    }

    /// The last successfully observed application name, empty before
    /// the first successful observation.
    pub fn last_app(&self) -> (name: &String)
        ensures
            name@ == self@,
    {
        &self.last_app
    }

    /// One tick of the tracking loop. `query` is the outcome of the
    /// foreground-window query, `timestamp` the milliseconds since the
    /// Unix epoch sampled at this tick. Publishes an event exactly when
    /// the query succeeded with an application name different from the
    /// last observed one; a failed query changes nothing and emits
    /// nothing.
    pub fn tick(&mut self, query: Option<WindowSample>, timestamp: u64) -> (event: Option<
        WindowChange,
    >)
        ensures
            final(self)@ == tick_last_app(old(self)@, query_view(query)),
            event is Some <==> tick_emits(old(self)@, query_view(query)),
            match event {
                Some(change) => Some(change@) == tick_event(
                    old(self)@,
                    query_view(query),
                    timestamp,
                ),
                None => tick_event(old(self)@, query_view(query), timestamp) is None,
            },
    {
        match query {
            None => None,
            Some(sample) => {
                if sample.app_name != self.last_app {
                    let change = WindowChange {
                        app_name: sample.app_name.clone(),
                        window_title: sample.window_title,
                        timestamp: timestamp,
                        position: sample.position,
                    };
                    self.last_app = sample.app_name;
                    Some(change)
                } else {
                    None
                }
            },
        }
    }
}

} // verus!
