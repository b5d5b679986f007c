//! A task as the orchestrator reports it: every field may be missing.

use crate::time::Timestamp;
use vstd::prelude::*;

verus! {

/// A tag as the orchestrator reports it.
#[derive(Debug, PartialEq, Eq)]
pub struct RawTag {
    pub key: Option<String>,
    pub value: Option<String>,
}

/// A [`RawTag`] with its text as sequences of characters.
pub struct RawTagView {
    pub key: Option<Seq<char>>,
    pub value: Option<Seq<char>>,
}

/// A container of a task as the orchestrator reports it.
#[derive(Debug, PartialEq, Eq)]
pub struct RawContainer {
    pub image: Option<String>,
}

/// A [`RawContainer`] with its text as a sequence of characters.
pub struct RawContainerView {
    pub image: Option<Seq<char>>,
}

/// A task as the orchestrator reports it.
#[derive(Debug, PartialEq, Eq)]
pub struct RawTask {
    pub task_arn: Option<String>,
    pub last_status: Option<String>,
    pub created_at: Option<Timestamp>,
    /// The id of the task definition that the task was started from.
    pub task_definition_arn: Option<String>,
    pub containers: Vec<RawContainer>,
    pub tags: Vec<RawTag>,
}

/// A [`RawTask`] with its text as sequences of characters and its time in
/// nanoseconds since the epoch.
pub struct RawTaskView {
    pub task_arn: Option<Seq<char>>,
    pub last_status: Option<Seq<char>>,
    pub created_at: Option<int>,
    pub task_definition_arn: Option<Seq<char>>,
    pub containers: Seq<RawContainerView>,
    pub tags: Seq<RawTagView>,
}

impl View for RawTag {
    type V = RawTagView;

    open spec fn view(&self) -> RawTagView {
        RawTagView { key: self.key.deep_view(), value: self.value.deep_view() }
    }
}

impl DeepView for RawTag {
    type V = RawTagView;

    open spec fn deep_view(&self) -> RawTagView {
        self@
    }
}

impl View for RawContainer {
    type V = RawContainerView;

    open spec fn view(&self) -> RawContainerView {
        RawContainerView { image: self.image.deep_view() }
    }
}

impl DeepView for RawContainer {
    type V = RawContainerView;

    open spec fn deep_view(&self) -> RawContainerView {
        self@
    }
}

impl View for RawTask {
    type V = RawTaskView;

    open spec fn view(&self) -> RawTaskView {
        RawTaskView {
            task_arn: self.task_arn.deep_view(),
            last_status: self.last_status.deep_view(),
            created_at: match self.created_at {
                Some(at) => Some(at@),
                None => None,
            },
            task_definition_arn: self.task_definition_arn.deep_view(),
            containers: self.containers.deep_view(),
            tags: self.tags.deep_view(),
        }
    }
}

impl DeepView for RawTask {
    type V = RawTaskView;

    open spec fn deep_view(&self) -> RawTaskView {
        self@
    }
}

} // verus!
