//! From the orchestrator's record of a task to the service's: missing fields
//! become defaults, and the task's age is measured against a reading of the
//! clock.

use crate::ecs::models::{EcsTag, EcsTagView, TaskInfo, TaskInfoView};
use crate::ecs::raw::{RawContainer, RawContainerView, RawTag, RawTagView, RawTask, RawTaskView};
use crate::time::{elapsed_between, Elapsed, Timestamp};
use crate::view::text_or_empty;
use vstd::prelude::*;
use vstd::string::StringExecFns;

verus! {

/// A reported tag as the service reports it: a missing key or value is
/// empty.
pub open spec fn normalize_tag(tag: RawTagView) -> EcsTagView {
    EcsTagView { key: text_or_empty(tag.key), value: text_or_empty(tag.value) }
}

/// The reported tags as the service reports them, one for one and in the
/// same order.
pub open spec fn normalize_tags(tags: Seq<RawTagView>) -> Seq<EcsTagView> {
    tags.map_values(|tag: RawTagView| normalize_tag(tag))
}

/// The images of a task's containers, one after the other without anything
/// between them; a container without an image adds nothing.
pub open spec fn concat_images(containers: Seq<RawContainerView>) -> Seq<char>
    decreases containers.len(),
{
    if containers.len() == 0 {
        Seq::empty()
    } else {
        concat_images(containers.drop_last()) + text_or_empty(containers.last().image)
    }
}

/// The service's record of a reported task, made at the instant `now`.
///
/// A reported time of creation is kept as it is, before the epoch or
/// after, and the task's age is the time from then to `now`, zero where the
/// clock stands before the creation. Without a reported time the record is
/// dated `now` and has no age.
pub open spec fn normalize(task: RawTaskView, now: int) -> TaskInfoView {
    TaskInfoView {
        task_arn: text_or_empty(task.task_arn),
        status: text_or_empty(task.last_status),
        created_at: match task.created_at {
            Some(at) => at,
            None => now,
        },
        running_duration: match task.created_at {
            Some(at) => Some(elapsed_between(at, now)),
            None => None,
        },
        image: concat_images(task.containers),
        cpu_usage: None,
        memory_usage: None,
        tags: normalize_tags(task.tags),
    }
}

/// A copy of an optional text, empty where there is none.
fn owned_or_empty(text: &Option<String>) -> (owned: String)
    ensures
        owned@ == text_or_empty(text.deep_view()),
{
    match text {
        Some(text) => text.clone(),
        None => String::new(),
    }
}

/// The images of the containers, joined.
fn join_images(containers: &Vec<RawContainer>) -> (image: String)
    ensures
        image@ == concat_images(containers.deep_view()),
{
    let mut image = String::new();
    let mut i: usize = 0;
    while i < containers.len()
        invariant
            i <= containers.len(),
            image@ == concat_images(containers.deep_view().take(i as int)),
        decreases containers.len() - i,
    {
        match &containers[i].image {
            Some(part) => {
                image.append(part.as_str());
            },
            None => {},
        }
        proof {
            let upto = containers.deep_view().take(i + 1);
            assert(upto.drop_last() =~= containers.deep_view().take(i as int));
        }
        i += 1;
    }
    assert(containers.deep_view().take(i as int) =~= containers.deep_view());
    image
}

/// The tags as the service reports them.
fn tags_of(tags: &Vec<RawTag>) -> (normalized: Vec<EcsTag>)
    ensures
        normalized.deep_view() == normalize_tags(tags.deep_view()),
{
    let mut normalized: Vec<EcsTag> = Vec::new();
    let mut i: usize = 0;
    while i < tags.len()
        invariant
            i <= tags.len(),
            normalized.deep_view() == normalize_tags(tags.deep_view().take(i as int)),
        decreases tags.len() - i,
    {
        let ghost before = normalized.deep_view();
        let tag = EcsTag {
            key: owned_or_empty(&tags[i].key),
            value: owned_or_empty(&tags[i].value),
        };
        normalized.push(tag);
        assert(normalized.deep_view() =~= before.push(normalize_tag(tags[i as int]@)));
        i += 1;
    }
    normalized
}

impl TaskInfo {
    /// The record of a reported task, made at the instant `now`.
    pub fn from_at(task: &RawTask, now: Timestamp) -> (info: TaskInfo)
        ensures
            info@ == normalize(task@, now@),
    {
        let created_at: Timestamp = match &task.created_at {
            Some(at) => *at,
            None => now,
        };
        let running_duration: Option<Elapsed> = match &task.created_at {
            Some(_) => Some(created_at.elapsed_until(&now)),
            None => None,
        };
        TaskInfo {
            task_arn: owned_or_empty(&task.task_arn),
            status: owned_or_empty(&task.last_status),
            created_at,
            running_duration,
            image: join_images(&task.containers),
            cpu_usage: None,
            memory_usage: None,
            tags: tags_of(&task.tags),
        }
    }

    /// The record of a reported task, made now by the system clock. The
    /// clock is read once.
    pub fn from(task: &RawTask) -> (info: TaskInfo)
        ensures
            exists|now: int| 0 <= now && info@ == #[trigger] normalize(task@, now),
    {
        let now = Timestamp::now();
        TaskInfo::from_at(task, now)
    }
}

} // verus!
