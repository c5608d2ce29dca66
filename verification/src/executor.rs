//! Carrying out a rename plan, one answer of the file system at a time.
//!
//! The executor never touches the disk. It says what is to be done next, is
//! told how that went, and keeps the names of the subtitles handled so far.
//! Entries are taken strictly in plan order, and what was renamed before a
//! failure stays renamed.

use vstd::prelude::*;
use crate::rename::{
    first_missing, has_separator, is_full_path, pairs, plan, PlanError, RenamePlanEntry,
};
use crate::text::{append_decimal, append_text, decimal, to_text};
use crate::types::{RenameRequest, RenameResponse};

verus! {

/// How carrying out a plan ended.
#[derive(Clone, Debug, PartialEq, Eq)]
pub struct RenameOutcome {
    /// Whether every entry was handled.
    pub applied: bool,
    /// The new names of the entries handled, in plan order.
    pub renamed_names: Vec<String>,
    /// What broke the run off, if anything did.
    pub failure: Option<PlanError>,
}

/// What the caller is to do next.
#[derive(Clone, Debug, PartialEq, Eq)]
pub enum RenameAction {
    /// Look in the directory of `source` for a file called `target_name`.
    Probe { source: String, target_name: String },
    /// Rename the file at `source` to `target_name`, in its own directory.
    Rename { source: String, target_name: String },
    /// Nothing is left to do.
    Finish(RenameOutcome),
}

/// What the file system answered.
#[derive(Clone, Debug, PartialEq, Eq)]
pub enum RenameEvent {
    /// The source path has no directory part, so nothing can be looked for.
    NoDirectory,
    /// A file of the new name is already there.
    TargetPresent,
    /// No file of the new name is there.
    TargetAbsent,
    /// The file was renamed.
    Renamed,
    /// The rename failed, for the reason given.
    RenameFailed(String),
}

/// The characters of each string of `names`.
pub open spec fn texts(names: Seq<String>) -> Seq<Seq<char>> {
    names.map_values(|s: String| s@)
}

/// Whether entry `i` is only previewed: its subtitle's path is a bare name.
pub open spec fn is_preview(entries: Seq<RenamePlanEntry>, i: int) -> bool {
    !is_full_path(entries[i].subtitle.path@)
}

/// The first entry at or behind `from` that is not a preview, or the number
/// of entries where there is none.
pub open spec fn next_full(entries: Seq<RenamePlanEntry>, from: int) -> int
    decreases entries.len() - from,
{
    if 0 <= from < entries.len() && is_preview(entries, from) {
        next_full(entries, from + 1)
    } else {
        from
    }
}

/// The new names of the previews that stand between `from` and
/// `next_full(entries, from)`.
pub open spec fn preview_names(entries: Seq<RenamePlanEntry>, from: int) -> Seq<Seq<char>>
    decreases entries.len() - from,
{
    if 0 <= from < entries.len() && is_preview(entries, from) {
        seq![entries[from].target_name@] + preview_names(entries, from + 1)
    } else {
        Seq::empty()
    }
}

/// A plan that is being carried out.
pub struct Executor {
    /// The plan.
    pub entries: Vec<RenamePlanEntry>,
    /// The entry that is being handled; every entry before it is done with.
    pub next: usize,
    /// Whether the new name of entry `next` was found free, so that its
    /// rename is due.
    pub probed: bool,
    /// The new names of the entries handled so far.
    pub renamed: Vec<String>,
    /// What broke the run off.
    pub failure: Option<PlanError>,
    /// For each name in `renamed`, the entry that it belongs to.
    pub origins: Ghost<Seq<int>>,
}

impl Executor {
    /// Whether nothing is left to do.
    pub open spec fn finished(&self) -> bool {
        self.failure is Some || self.next == self.entries.len()
    }

    /// What holds of every executor: it rests on an entry with a full path
    /// or is finished, and each name in `renamed` is the new name of an entry
    /// before `next`, in plan order.
    pub open spec fn well_formed(&self) -> bool {
        &&& self.next <= self.entries.len()
        &&& !self.finished() ==> !is_preview(self.entries@, self.next as int)
        &&& self.probed ==> !self.finished()
        &&& self.origins@.len() == self.renamed.len()
        &&& forall|k: int|
            0 <= k < self.renamed.len() ==> {
                &&& 0 <= #[trigger] self.origins@[k] < self.next
                &&& self.renamed[k]@ == self.entries[self.origins@[k]].target_name@
            }
        &&& forall|j: int, k: int|
            0 <= j < k < self.renamed.len() ==> self.origins@[j] < self.origins@[k]
    }
}

/// The state that `pre` passes into when entry `pre.next` is done with:
/// `name`, where the entry left one, joins the names, and so do those of
/// the previews that follow.
pub open spec fn moved_on(pre: Executor, name: Option<Seq<char>>, post: Executor) -> bool {
    let recorded = match name {
        Some(n) => seq![n],
        None => Seq::empty(),
    };
    &&& post.entries == pre.entries
    &&& post.next == next_full(pre.entries@, pre.next + 1)
    &&& !post.probed
    &&& post.failure is None
    &&& texts(post.renamed@) == texts(pre.renamed@) + recorded + preview_names(
        pre.entries@,
        pre.next + 1,
    )
}

/// The state that `pre` passes into when the run is broken off.
pub open spec fn broken_off(pre: Executor, post: Executor) -> bool {
    &&& post.entries == pre.entries
    &&& post.next == pre.next
    &&& post.renamed == pre.renamed
    &&& post.failure is Some
}

/// Whether `post` is what `pre` becomes on `event`.
pub open spec fn observed(pre: Executor, event: RenameEvent, post: Executor) -> bool {
    let entry = pre.entries[pre.next as int];
    if pre.finished() {
        post == pre
    } else if !pre.probed {
        match event {
            RenameEvent::NoDirectory => moved_on(pre, None, post),
            RenameEvent::TargetPresent => {
                &&& broken_off(pre, post)
                &&& post.failure matches Some(PlanError::TargetExists(name))
                &&& name == entry.target_name
            },
            RenameEvent::TargetAbsent => {
                &&& post.entries == pre.entries
                &&& post.next == pre.next
                &&& post.renamed == pre.renamed
                &&& post.failure is None
                &&& post.probed
            },
            _ => post == pre,
        }
    } else {
        match event {
            RenameEvent::Renamed => moved_on(pre, Some(entry.target_name@), post),
            RenameEvent::RenameFailed(cause) => {
                &&& broken_off(pre, post)
                &&& post.failure matches Some(PlanError::FilesystemError(name, why))
                &&& name == entry.subtitle.name
                &&& why == cause
            },
            _ => post == pre,
        }
    }
}

/// Whether `action` is what `state` asks for.
pub open spec fn asks(state: Executor, action: RenameAction) -> bool {
    let entry = state.entries[state.next as int];
    match action {
        RenameAction::Finish(outcome) => {
            &&& state.finished()
            &&& outcome.applied == (state.failure is None)
            &&& outcome.failure == state.failure
            &&& texts(outcome.renamed_names@) == texts(state.renamed@)
        },
        RenameAction::Probe { source, target_name } => {
            &&& !state.finished()
            &&& !state.probed
            &&& source == entry.subtitle.path
            &&& target_name == entry.target_name
        },
        RenameAction::Rename { source, target_name } => {
            &&& !state.finished()
            &&& state.probed
            &&& source == entry.subtitle.path
            &&& target_name == entry.target_name
        },
    }
}

/// A copy of `names`.
fn copy_names(names: &Vec<String>) -> (copy: Vec<String>)
    ensures
        texts(copy@) == texts(names@),
{
    let mut copy: Vec<String> = Vec::new();
    let mut i: usize = 0;
    while i < names.len()
        invariant
            i <= names.len(),
            copy.len() == i,
            forall|k: int| 0 <= k < i ==> copy[k]@ == names[k]@,
        decreases names.len() - i,
    {
        copy.push(names[i].clone());
        i += 1;
    }
    assert(texts(copy@) =~= texts(names@));
    copy
}

/// A copy of `error`.
fn copy_error(error: &PlanError) -> (copy: PlanError)
    ensures
        copy == *error,
{
    match error {
        PlanError::CountMismatch(videos, subtitles) => PlanError::CountMismatch(
            *videos,
            *subtitles,
        ),
        PlanError::SourceMissing(name) => PlanError::SourceMissing(name.clone()),
        PlanError::TargetExists(name) => PlanError::TargetExists(name.clone()),
        PlanError::FilesystemError(name, why) => PlanError::FilesystemError(
            name.clone(),
            why.clone(),
        ),
    }
}

impl Executor {
    /// Passes over the previews at `self.next`, taking down their new names.
    fn pass_previews(&mut self)
        requires
            old(self).next <= old(self).entries.len(),
            old(self).origins@.len() == old(self).renamed.len(),
            forall|k: int|
                0 <= k < old(self).renamed.len() ==> {
                    &&& 0 <= #[trigger] old(self).origins@[k] < old(self).next
                    &&& old(self).renamed[k]@ == old(self).entries[old(
                        self,
                    ).origins@[k]].target_name@
                },
            forall|j: int, k: int|
                0 <= j < k < old(self).renamed.len() ==> old(self).origins@[j] < old(
                    self,
                ).origins@[k],
            old(self).failure is None,
            !old(self).probed,
        ensures
            final(self).well_formed(),
            final(self).entries == old(self).entries,
            final(self).next == next_full(old(self).entries@, old(self).next as int),
            !final(self).probed,
            final(self).failure is None,
            texts(final(self).renamed@) == texts(old(self).renamed@) + preview_names(
                old(self).entries@,
                old(self).next as int,
            ),
    {
        let ghost start = self.next as int;
        let ghost before = texts(self.renamed@);
        assert(before + Seq::<Seq<char>>::empty() =~= before);
        while self.next < self.entries.len() && !has_separator(
            self.entries[self.next].subtitle.path.as_str(),
        )
            invariant
                self.entries == old(self).entries,
                start <= self.next <= self.entries.len(),
                self.failure is None,
                !self.probed,
                self.origins@.len() == self.renamed.len(),
                forall|k: int|
                    0 <= k < self.renamed.len() ==> {
                        &&& 0 <= #[trigger] self.origins@[k] < self.next
                        &&& self.renamed[k]@ == self.entries[self.origins@[k]].target_name@
                    },
                forall|j: int, k: int|
                    0 <= j < k < self.renamed.len() ==> self.origins@[j] < self.origins@[k],
                next_full(self.entries@, start) == next_full(self.entries@, self.next as int),
                before + preview_names(self.entries@, start) == texts(self.renamed@)
                    + preview_names(self.entries@, self.next as int),
            decreases self.entries.len() - self.next,
        {
            let ghost names = texts(self.renamed@);
            let ghost at = self.next as int;
            let name = self.entries[self.next].target_name.clone();
            self.renamed.push(name);
            proof {
                self.origins@ = self.origins@.push(at);
                assert(texts(self.renamed@) =~= names.push(self.entries[at].target_name@));
                assert(names + preview_names(self.entries@, at) =~= names.push(
                    self.entries[at].target_name@,
                ) + preview_names(self.entries@, at + 1));
            }
            self.next = self.next + 1;
        }
        assert(preview_names(self.entries@, self.next as int) =~= Seq::<Seq<char>>::empty());
        assert(texts(self.renamed@) + Seq::<Seq<char>>::empty() =~= texts(self.renamed@));
    }

    /// Takes up `entries`. Previews at the front are done with at once.
    pub fn new(entries: Vec<RenamePlanEntry>) -> (state: Executor)
        ensures
            state.well_formed(),
            state.entries == entries,
            state.next == next_full(entries@, 0),
            !state.probed,
            state.failure is None,
            texts(state.renamed@) == preview_names(entries@, 0),
    {
        let mut state = Executor {
            entries,
            next: 0,
            probed: false,
            renamed: Vec::new(),
            failure: None,
            origins: Ghost(Seq::empty()),
        };
        assert(texts(state.renamed@) =~= Seq::<Seq<char>>::empty());
        state.pass_previews();
        assert(Seq::<Seq<char>>::empty() + preview_names(entries@, 0) =~= preview_names(
            entries@,
            0,
        ));
        state
    }

    /// What is to be done next. Asking changes nothing, and a finished
    /// executor goes on answering with its outcome.
    pub fn pending(&self) -> (action: RenameAction)
        requires
            self.well_formed(),
        ensures
            asks(*self, action),
    {
        if self.failure.is_some() || self.next == self.entries.len() {
            let failure = match &self.failure {
                Some(error) => Some(copy_error(error)),
                None => None,
            };
            RenameAction::Finish(
                RenameOutcome {
                    applied: self.failure.is_none(),
                    renamed_names: copy_names(&self.renamed),
                    failure,
                },
            )
        } else if !self.probed {
            RenameAction::Probe {
                source: self.entries[self.next].subtitle.path.clone(),
                target_name: self.entries[self.next].target_name.clone(),
            }
        } else {
            RenameAction::Rename {
                source: self.entries[self.next].subtitle.path.clone(),
                target_name: self.entries[self.next].target_name.clone(),
            }
        }
    }

    /// Takes down `name` for entry `self.next` and goes on to the next entry
    /// that is not a preview.
    fn move_on(&mut self, name: Option<String>)
        requires
            old(self).well_formed(),
            !old(self).finished(),
            name matches Some(n) ==> n@ == old(self).entries[old(self).next as int].target_name@,
        ensures
            final(self).well_formed(),
            moved_on(
                *old(self),
                match name {
                    Some(n) => Some(n@),
                    None => None,
                },
                *final(self),
            ),
    {
        let ghost names = texts(self.renamed@);
        let ghost at = self.next as int;
        match name {
            Some(n) => {
                self.renamed.push(n);
                proof {
                    self.origins@ = self.origins@.push(at);
                    assert(texts(self.renamed@) =~= names + seq![n@]);
                }
            },
            None => {
                assert(names + Seq::<Seq<char>>::empty() =~= names);
            },
        }
        self.probed = false;
        self.next = self.next + 1;
        self.pass_previews();
    }

    /// Takes in what the file system answered to the pending action.
    ///
    /// A target that is already there, or a rename that failed, breaks the
    /// run off and leaves the names taken down as they are. An answer that
    /// the pending action did not ask for changes nothing, nor does any
    /// answer once the executor has finished.
    pub fn observe(&mut self, event: RenameEvent)
        requires
            old(self).well_formed(),
        ensures
            final(self).well_formed(),
            observed(*old(self), event, *final(self)),
    {
        if self.failure.is_some() || self.next == self.entries.len() {
            return ;
        }
        if !self.probed {
            match event {
                RenameEvent::NoDirectory => {
                    self.move_on(None);
                },
                RenameEvent::TargetPresent => {
                    self.failure = Some(
                        PlanError::TargetExists(self.entries[self.next].target_name.clone()),
                    );
                },
                RenameEvent::TargetAbsent => {
                    self.probed = true;
                },
                _ => {},
            }
        } else {
            match event {
                RenameEvent::Renamed => {
                    let name = self.entries[self.next].target_name.clone();
                    self.move_on(Some(name));
                },
                RenameEvent::RenameFailed(cause) => {
                    self.failure = Some(
                        PlanError::FilesystemError(
                            self.entries[self.next].subtitle.name.clone(),
                            cause,
                        ),
                    );
                    self.probed = false;
                },
                _ => {},
            }
        }
    }
}

/// In every state each name taken down belongs to an entry that was handled
/// before the one the executor rests on, and the names stand in plan order.
pub proof fn lemma_renamed_in_plan_order(state: Executor)
    requires
        state.well_formed(),
    ensures
        state.renamed.len() <= state.next,
        forall|k: int|
            0 <= k < state.renamed.len() ==> exists|i: int|
                k <= i < state.next && #[trigger] state.renamed[k]@
                    == state.entries[i].target_name@,
{
    lemma_origins_climb(state.origins@, state.renamed.len() as int);
    assert forall|k: int| 0 <= k < state.renamed.len() implies exists|i: int|
        k <= i < state.next && #[trigger] state.renamed[k]@ == state.entries[i].target_name@ by {
        lemma_origins_climb(state.origins@, k + 1);
        let i = state.origins@[k];
        assert(k <= i < state.next && state.renamed[k]@ == state.entries[i].target_name@);
    }
    if state.renamed.len() > 0 {
        assert(state.origins@[state.renamed.len() - 1] < state.next);
    }
}

/// In a rising sequence of indices that are not negative, index `k` holds
/// at least `k`.
proof fn lemma_origins_climb(origins: Seq<int>, n: int)
    requires
        0 <= n <= origins.len(),
        forall|k: int| 0 <= k < origins.len() ==> 0 <= #[trigger] origins[k],
        forall|j: int, k: int| 0 <= j < k < origins.len() ==> origins[j] < origins[k],
    ensures
        forall|k: int| 0 <= k < n ==> k <= #[trigger] origins[k],
    decreases n,
{
    if n > 0 {
        lemma_origins_climb(origins, n - 1);
        if n > 1 {
            assert(origins[n - 2] < origins[n - 1]);
        }
    }
}

/// A plan of previews only is done with as soon as it is taken up: every
/// new name is taken down, in plan order, and nothing is asked of the disk.
pub proof fn lemma_previews_need_no_disk(entries: Seq<RenamePlanEntry>, from: int)
    requires
        0 <= from <= entries.len(),
        forall|i: int| from <= i < entries.len() ==> is_preview(entries, i),
    ensures
        next_full(entries, from) == entries.len(),
        preview_names(entries, from) == Seq::new(
            (entries.len() - from) as nat,
            |k: int| entries[from + k].target_name@,
        ),
    decreases entries.len() - from,
{
    if from < entries.len() {
        lemma_previews_need_no_disk(entries, from + 1);
        assert(preview_names(entries, from) =~= Seq::new(
            (entries.len() - from) as nat,
            |k: int| entries[from + k].target_name@,
        ));
    } else {
        assert(preview_names(entries, from) =~= Seq::new(
            (entries.len() - from) as nat,
            |k: int| entries[from + k].target_name@,
        ));
    }
}

/// What the user is told about `error`.
pub open spec fn failure_message(error: PlanError) -> Seq<char> {
    match error {
        PlanError::CountMismatch(videos, subtitles) => "视频文件数量("@ + decimal(videos as nat)
            + ")与字幕文件数量("@ + decimal(subtitles as nat) + ")不匹配"@,
        PlanError::SourceMissing(name) => "字幕文件不存在: "@ + name@,
        PlanError::TargetExists(name) => "目标文件 "@ + name@ + " 已存在"@,
        PlanError::FilesystemError(name, why) => "重命名文件失败: "@ + name@ + " - "@ + why@,
    }
}

/// What the user is told when `count` files were renamed.
pub open spec fn success_message(count: nat) -> Seq<char> {
    "成功重命名"@ + decimal(count) + "个文件"@
}

/// The message that tells of `error`.
pub fn describe_failure(error: &PlanError) -> (message: String)
    ensures
        message@ == failure_message(*error),
{
    let mut out: Vec<char> = Vec::new();
    match error {
        PlanError::CountMismatch(videos, subtitles) => {
            append_text(&mut out, "视频文件数量(");
            append_decimal(&mut out, *videos as u64);
            append_text(&mut out, ")与字幕文件数量(");
            append_decimal(&mut out, *subtitles as u64);
            append_text(&mut out, ")不匹配");
        },
        PlanError::SourceMissing(name) => {
            append_text(&mut out, "字幕文件不存在: ");
            append_text(&mut out, name.as_str());
        },
        PlanError::TargetExists(name) => {
            append_text(&mut out, "目标文件 ");
            append_text(&mut out, name.as_str());
            append_text(&mut out, " 已存在");
        },
        PlanError::FilesystemError(name, why) => {
            append_text(&mut out, "重命名文件失败: ");
            append_text(&mut out, name.as_str());
            append_text(&mut out, " - ");
            append_text(&mut out, why.as_str());
        },
    }
    assert(out@ =~= failure_message(*error));
    to_text(out.as_slice())
}

/// The response for a request that was turned down before anything was
/// renamed.
pub fn refuse(error: &PlanError) -> (response: RenameResponse)
    ensures
        !response.success,
        response.message@ == failure_message(*error),
        response.renamed_files@.len() == 0,
{
    RenameResponse { success: false, message: describe_failure(error), renamed_files: Vec::new() }
}

/// The response that reports `outcome`: the names handled, whether all of
/// the plan was, and either what went wrong or how many files were renamed.
pub fn respond(outcome: RenameOutcome) -> (response: RenameResponse)
    ensures
        response.success == outcome.applied,
        response.renamed_files == outcome.renamed_names,
        response.message@ == match outcome.failure {
            Some(error) => failure_message(error),
            None => success_message(outcome.renamed_names.len() as nat),
        },
{
    let message = match &outcome.failure {
        Some(error) => describe_failure(error),
        None => {
            let mut out: Vec<char> = Vec::new();
            append_text(&mut out, "成功重命名");
            append_decimal(&mut out, outcome.renamed_names.len() as u64);
            append_text(&mut out, "个文件");
            assert(out@ =~= success_message(outcome.renamed_names.len() as nat));
            to_text(out.as_slice())
        },
    };
    RenameResponse {
        success: outcome.applied,
        message,
        renamed_files: outcome.renamed_names,
    }
}

/// Takes up a rename request: plans it, and either stands ready to carry
/// the plan out or answers why there is none.
///
/// `on_disk[i]` says whether something was found at the path of subtitle
/// `i`; see [`plan`].
pub fn start(request: &RenameRequest, on_disk: &Vec<bool>) -> (r: Result<Executor, RenameResponse>)
    ensures
        match r {
            Ok(state) => {
                &&& request.video_files.len() == request.subtitle_files.len()
                &&& first_missing(request.subtitle_files@, on_disk@, 0) is None
                &&& state.well_formed()
                &&& state.entries.len() == request.video_files.len()
                &&& forall|i: int|
                    0 <= i < state.entries.len() ==> pairs(
                        #[trigger] state.entries[i],
                        request.video_files[i],
                        request.subtitle_files[i],
                        request.suffix@,
                    )
                &&& state.next == next_full(state.entries@, 0)
                &&& !state.probed
                &&& state.failure is None
                &&& texts(state.renamed@) == preview_names(state.entries@, 0)
            },
            Err(response) => {
                &&& !response.success
                &&& response.renamed_files@.len() == 0
                &&& if request.video_files.len() != request.subtitle_files.len() {
                    response.message@ == failure_message(
                        PlanError::CountMismatch(
                            request.video_files.len(),
                            request.subtitle_files.len(),
                        ),
                    )
                } else {
                    &&& first_missing(request.subtitle_files@, on_disk@, 0) matches Some(i)
                    &&& response.message@ == failure_message(
                        PlanError::SourceMissing(request.subtitle_files[i].name),
                    )
                }
            },
        },
{
    match plan(&request.video_files, &request.subtitle_files, request.suffix.as_str(), on_disk) {
        Ok(entries) => Ok(Executor::new(entries)),
        Err(error) => Err(refuse(&error)),
    }
}

} // verus!
