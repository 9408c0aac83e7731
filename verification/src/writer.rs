//! The write pass as a state machine. The pass walks the components in
//! order; for each it asks for the generated texts, then for its four files
//! to be written. The caller performs what is asked and reports back; the
//! first failure ends the pass.

use crate::config::{views_of_components, Component, ComponentView};
use crate::error::{Error, ErrorView};
use crate::layout::{component_files, files_of, views_of_files, FileWrite, FileWriteView};
use crate::{BindingsView, KotlinMultiplatformBindings};
use vstd::prelude::*;

verus! {

/// Where a write pass stands.
#[derive(Debug)]
pub enum PassState {
    /// The texts of the component at this index are awaited.
    Generating(usize),
    /// The files of the component at this index are being written.
    Writing(usize),
    /// Every component is written.
    Finished,
    /// The pass was given up with this error.
    Failed(Error),
}

/// What a [`PassState`] holds, as plain mathematical values.
pub enum PassView {
    Generating(usize),
    Writing(usize),
    Finished,
    Failed(ErrorView),
}

impl View for PassState {
    type V = PassView;

    open spec fn view(&self) -> PassView {
        match self {
            PassState::Generating(index) => PassView::Generating(*index),
            PassState::Writing(index) => PassView::Writing(*index),
            PassState::Finished => PassView::Finished,
            PassState::Failed(error) => PassView::Failed(error@),
        }
    }
}

/// What the caller reports to the pass.
#[derive(Debug)]
pub enum WriteEvent {
    /// The pass begins.
    Begin,
    /// The texts asked for were generated.
    Generated(KotlinMultiplatformBindings),
    /// The texts asked for could not be generated.
    GenerationFailed(String),
    /// The files handed out were written.
    Written,
    /// A directory could not be created or a file not written.
    WriteFailed(String),
}

/// What a [`WriteEvent`] holds, as plain mathematical values.
pub enum EventView {
    Begin,
    Generated(BindingsView),
    GenerationFailed(Seq<char>),
    Written,
    WriteFailed(Seq<char>),
}

impl View for WriteEvent {
    type V = EventView;

    open spec fn view(&self) -> EventView {
        match self {
            WriteEvent::Begin => EventView::Begin,
            WriteEvent::Generated(bindings) => EventView::Generated(bindings@),
            WriteEvent::GenerationFailed(message) => EventView::GenerationFailed(message@),
            WriteEvent::Written => EventView::Written,
            WriteEvent::WriteFailed(message) => EventView::WriteFailed(message@),
        }
    }
}

/// What the pass asks of the caller.
#[derive(Debug)]
pub enum WriteAction {
    /// Generate the texts of the component at this index.
    Generate(usize),
    /// Write these files, in this order.
    Write(Vec<FileWrite>),
    /// Nothing is left to do: the pass succeeded.
    Finish,
    /// Stop: the pass failed with this error.
    Abort(Error),
}

/// What a [`WriteAction`] holds, as plain mathematical values.
pub enum ActionView {
    Generate(usize),
    Write(Seq<FileWriteView>),
    Finish,
    Abort(ErrorView),
}

impl View for WriteAction {
    type V = ActionView;

    open spec fn view(&self) -> ActionView {
        match self {
            WriteAction::Generate(index) => ActionView::Generate(*index),
            WriteAction::Write(files) => ActionView::Write(views_of_files(files@)),
            WriteAction::Finish => ActionView::Finish,
            WriteAction::Abort(error) => ActionView::Abort(error@),
        }
    }
}

/// The state and the request with which the pass turns to the component at
/// `index`, or ends where there is none.
pub open spec fn turn_to(count: nat, index: nat) -> (PassView, ActionView) {
    if index < count {
        (PassView::Generating(index as usize), ActionView::Generate(index as usize))
    } else {
        (PassView::Finished, ActionView::Finish)
    }
}

/// The state and the request with which the pass ends in failure.
pub open spec fn give_up(error: ErrorView) -> (PassView, ActionView) {
    (PassView::Failed(error), ActionView::Abort(error))
}

/// One step of the pass: the state after `event` and what is asked next.
///
/// A finished or failed pass stays as it is, and so does one whose position
/// lies past the last component, which counts as finished. A failure that
/// is reported ends the pass, whatever it was doing. Generated texts lead to
/// the files of the current component; their being written leads to the
/// next component, and after the last one to the end. `Begin`, and `Written`
/// while no files were handed out, ask for the current component's texts.
pub open spec fn step_of(
    components: Seq<ComponentView>,
    out_dir: Seq<char>,
    state: PassView,
    event: EventView,
) -> (PassView, ActionView) {
    match state {
        PassView::Finished => (PassView::Finished, ActionView::Finish),
        PassView::Failed(error) => give_up(error),
        PassView::Generating(index) | PassView::Writing(index) => if index >= components.len() {
            (PassView::Finished, ActionView::Finish)
        } else {
            match event {
                EventView::GenerationFailed(message) => give_up(ErrorView::Generation(message)),
                EventView::WriteFailed(message) => give_up(ErrorView::FileSystem(message)),
                EventView::Generated(texts) => (
                    PassView::Writing(index),
                    ActionView::Write(
                        files_of(
                            components[index as int],
                            out_dir,
                            texts.common,
                            texts.jvm,
                            texts.native,
                            texts.header,
                        ),
                    ),
                ),
                EventView::Begin => turn_to(components.len(), index as nat),
                EventView::Written => match state {
                    PassView::Writing(_) => turn_to(components.len(), index as nat + 1),
                    _ => turn_to(components.len(), index as nat),
                },
            }
        },
    }
}

impl PassState {
    /// The state in which a pass begins: at the first component.
    pub fn new() -> (state: PassState)
        ensures
            state@ == PassView::Generating(0),
    {
        PassState::Generating(0)
    }
}

/// Takes one step of the write pass over `components`, writing under
/// `out_dir`.
pub fn step(components: &Vec<Component>, out_dir: &str, state: PassState, event: WriteEvent) -> (next:
    (PassState, WriteAction))
    ensures
        (next.0@, next.1@) == step_of(
            views_of_components(components@),
            out_dir@,
            state@,
            event@,
        ),
{
    let (index, writing) = match state {
        PassState::Finished => { return (PassState::Finished, WriteAction::Finish); },
        PassState::Failed(error) => {
            let report = error.clone();
            return (PassState::Failed(error), WriteAction::Abort(report));
        },
        PassState::Generating(index) => (index, false),
        PassState::Writing(index) => (index, true),
    };
    if index >= components.len() {
        return (PassState::Finished, WriteAction::Finish);
    }
    match event {
        WriteEvent::GenerationFailed(message) => {
            let report = Error::Generation(message.clone());
            (PassState::Failed(Error::Generation(message)), WriteAction::Abort(report))
        },
        WriteEvent::WriteFailed(message) => {
            let report = Error::FileSystem(message.clone());
            (PassState::Failed(Error::FileSystem(message)), WriteAction::Abort(report))
        },
        WriteEvent::Generated(bindings) => {
            let files = component_files(&components[index], out_dir, bindings);
            (PassState::Writing(index), WriteAction::Write(files))
        },
        WriteEvent::Begin => (PassState::Generating(index), WriteAction::Generate(index)),
        WriteEvent::Written => {
            if !writing {
                (PassState::Generating(index), WriteAction::Generate(index))
            } else if index + 1 < components.len() {
                (PassState::Generating(index + 1), WriteAction::Generate(index + 1))
            } else {
                (PassState::Finished, WriteAction::Finish)
            }
        },
    }
}

/// The state of the pass after a series of events, from `state`.
pub open spec fn state_after(
    components: Seq<ComponentView>,
    out_dir: Seq<char>,
    state: PassView,
    events: Seq<EventView>,
) -> PassView
    decreases events.len(),
{
    if events.len() == 0 {
        state
    } else {
        step_of(
            components,
            out_dir,
            state_after(components, out_dir, state, events.drop_last()),
            events.last(),
        ).0
    }
}

/// A failure is final: once the pass has failed, whatever is reported to it
/// afterwards, it stays failed with the same error, and what it asks is to
/// stop. So after a failure no component is generated and no file handed
/// out.
pub proof fn law_failure_is_final(
    components: Seq<ComponentView>,
    out_dir: Seq<char>,
    error: ErrorView,
    events: Seq<EventView>,
    event: EventView,
)
    ensures
        state_after(components, out_dir, PassView::Failed(error), events) == PassView::Failed(
            error,
        ),
        step_of(
            components,
            out_dir,
            state_after(components, out_dir, PassView::Failed(error), events),
            event,
        ) == give_up(error),
    decreases events.len(),
{
    if events.len() > 0 {
        law_failure_is_final(components, out_dir, error, events.drop_last(), events.last());
    }
}

/// A failure that is reported while the pass is under way makes it fail,
/// with the message reported: as a generation error where the texts could
/// not be generated, as a file system error where a file could not be
/// written.
pub proof fn law_reported_failure_fails_pass(
    components: Seq<ComponentView>,
    out_dir: Seq<char>,
    state: PassView,
    message: Seq<char>,
)
    requires
        match state {
            PassView::Generating(index) | PassView::Writing(index) => index < components.len(),
            _ => false,
        },
    ensures
        step_of(components, out_dir, state, EventView::GenerationFailed(message)) == give_up(
            ErrorView::Generation(message),
        ),
        step_of(components, out_dir, state, EventView::WriteFailed(message)) == give_up(
            ErrorView::FileSystem(message),
        ),
{
}

/// The content of every file after `writes` were carried out in order, over
/// the files that were there: each write replaces the whole content of its
/// path.
pub open spec fn files_after(
    files: Map<Seq<char>, Seq<char>>,
    writes: Seq<FileWriteView>,
) -> Map<Seq<char>, Seq<char>>
    decreases writes.len(),
{
    if writes.len() == 0 {
        files
    } else {
        files_after(files, writes.drop_last()).insert(writes.last().path, writes.last().content)
    }
}

/// Carrying out writes over some files gives what carrying them out over no
/// files gives, laid over the files that were there.
pub proof fn lemma_files_after_overlay(
    files: Map<Seq<char>, Seq<char>>,
    writes: Seq<FileWriteView>,
)
    ensures
        files_after(files, writes) == files.union_prefer_right(files_after(Map::empty(), writes)),
    decreases writes.len(),
{
    if writes.len() > 0 {
        lemma_files_after_overlay(files, writes.drop_last());
    }
    assert(files_after(files, writes) =~= files.union_prefer_right(
        files_after(Map::empty(), writes),
    ));
}

/// Writing the same files a second time changes nothing: no content of the
/// first time is left beside, or appended to, that of the second.
pub proof fn law_rewrite_changes_nothing(
    files: Map<Seq<char>, Seq<char>>,
    writes: Seq<FileWriteView>,
)
    ensures
        files_after(files_after(files, writes), writes) == files_after(files, writes),
{
    let once = files_after(files, writes);
    lemma_files_after_overlay(files, writes);
    lemma_files_after_overlay(once, writes);
    assert(files_after(once, writes) =~= once);
}

/// After a write, the path written holds the content written, whatever it
/// held before.
pub proof fn law_write_replaces_content(
    files: Map<Seq<char>, Seq<char>>,
    writes: Seq<FileWriteView>,
)
    requires
        writes.len() > 0,
    ensures
        files_after(files, writes).contains_key(writes.last().path),
        files_after(files, writes)[writes.last().path] == writes.last().content,
{
}

} // verus!
