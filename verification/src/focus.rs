//! Focus status and its short-lived cache.

use crate::types::{InjectionConfig, InjectionError};
use vstd::prelude::*;

verus! {

/// What the focused element is.
#[derive(Debug, Clone, Copy, PartialEq, Eq, Structural)]
pub enum FocusStatus {
    EditableText,
    NonEditable,
    Unknown,
}

/// The focus status a backend answer stands for: a failed query counts as unknown.
pub open spec fn status_of_query(q: Result<FocusStatus, InjectionError>) -> FocusStatus {
    match q {
        Ok(s) => s,
        Err(_) => FocusStatus::Unknown,
    }
}

/// Caches the last focus reading for a configured duration.
pub struct FocusTracker {
    config: InjectionConfig,
    cached_status: Option<FocusStatus>,
    has_checked: bool,
    cache_duration_ms: u64,
}

impl FocusTracker {
    pub closed spec fn spec_cached(&self) -> Option<FocusStatus> {
        if self.has_checked { self.cached_status } else { None }
    }

    pub closed spec fn spec_cache_duration_ms(&self) -> u64 {
        self.cache_duration_ms
    }

    pub closed spec fn spec_config(&self) -> InjectionConfig {
        self.config
    }

    /// A tracker with nothing cached.
    pub fn new(config: InjectionConfig) -> (t: Self)
        ensures
            t.spec_cached() is None,
            t.spec_cache_duration_ms() == config.focus_cache_duration_ms,
            t.spec_config() == config,
    {
        let cache_duration_ms = config.focus_cache_duration_ms;
        FocusTracker { config, cached_status: None, has_checked: false, cache_duration_ms }
    }

    /// The cached status when one is stored and younger than the cache
    /// duration (`since_check_ms` is the age of the last reading).
    pub fn cached_status(&self, since_check_ms: u64) -> (r: Option<FocusStatus>)
        ensures
            r == (if self.spec_cached() is Some && since_check_ms < self.spec_cache_duration_ms() {
                self.spec_cached()
            } else {
                None
            }),
    {
        if self.has_checked {
            if let Some(status) = self.cached_status {
                if since_check_ms < self.cache_duration_ms {
                    return Some(status);
                }
            }
        }
        None
    }

    /// Stores a fresh backend answer and returns the status it stands for.
    pub fn record_query(&mut self, query: Result<FocusStatus, InjectionError>) -> (s: FocusStatus)
        ensures
            s == status_of_query(query),
            final(self).spec_cached() == Some(s),
            final(self).spec_cache_duration_ms() == old(self).spec_cache_duration_ms(),
            final(self).spec_config() == old(self).spec_config(),
    {
        let status = match query {
            Ok(s) => s,
            Err(_) => FocusStatus::Unknown,
        };
        self.has_checked = true;
        self.cached_status = Some(status);
        status
    }

    /// The configuration the tracker was built with.
    pub fn config(&self) -> (c: &InjectionConfig)
        ensures
            *c == self.spec_config(),
    {
        &self.config
    }
}


/// What the accessibility bus answered about the focused element.
#[derive(Debug, Clone, Copy, PartialEq, Eq, Structural)]
pub enum FocusQueryAnswer {
    /// The bus, or one of its queries, could not be reached.
    Unreachable,
    /// No element has the focus.
    NoFocusedElement,
    /// The focused element, and whether it offers editable text.
    Focused { editable: bool },
}

/// Determines the focus status from the accessibility bus.
#[derive(Debug, Clone, Copy, Default)]
pub struct SystemFocusAdapter;

impl SystemFocusAdapter {
    /// The focus status that an answer means: editable or not for a
    /// focused element, unknown otherwise.
    pub fn status_from_answer(&self, answer: FocusQueryAnswer) -> (s: FocusStatus)
        ensures
            s == match answer {
                FocusQueryAnswer::Focused { editable } => if editable {
                    FocusStatus::EditableText
                } else {
                    FocusStatus::NonEditable
                },
                _ => FocusStatus::Unknown,
            },
    {
        match answer {
            FocusQueryAnswer::Focused { editable } => if editable {
                FocusStatus::EditableText
            } else {
                FocusStatus::NonEditable
            },
            _ => FocusStatus::Unknown,
        }
    }
}

} // verus!
