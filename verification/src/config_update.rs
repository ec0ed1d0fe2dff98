//! Applying a new runtime configuration from the desktop: the runtime takes
//! it first, then it is saved to the configuration file, then it becomes the
//! in-memory configuration. When saving fails, the runtime is rolled back to
//! the previous configuration, so that the runtime and the stored
//! configuration do not drift apart.
//!
//! `ConfigUpdate` decides the steps; the caller performs each effect and
//! reports the result of the one the update waits for.
use vstd::prelude::*;
use vstd::string::*;

verus! {

/// Which of the two configurations an effect is about.
#[derive(Debug, Clone, Copy, PartialEq, Eq, Structural)]
pub enum Which {
    /// The configuration in force before the update.
    Previous,
    /// The requested configuration.
    Next,
}

/// Work the update asks its caller to do.
#[derive(Debug, PartialEq, Eq)]
pub enum UpdateEffect {
    /// Hand the configuration to the runtime; report the result.
    ApplyToRuntime(Which),
    /// Write the configuration to the file; report the result. A write that
    /// fails must leave the file as it was (write a new file, then rename it
    /// over the old one).
    SaveToFile(Which),
    /// Make the configuration the in-memory one; report the result.
    SetInMemory(Which),
    /// The update is over, with this outcome.
    Finish(Result<(), String>),
}

/// The abstract effect.
pub enum EffectModel {
    ApplyToRuntime(Which),
    SaveToFile(Which),
    SetInMemory(Which),
    Finish(Result<(), Seq<char>>),
}

/// The view of a result carrying an error text.
pub open spec fn result_text(r: Result<(), String>) -> Result<(), Seq<char>> {
    match r {
        Ok(_) => Ok(()),
        Err(e) => Err(e@),
    }
}

impl View for UpdateEffect {
    type V = EffectModel;

    open spec fn view(&self) -> EffectModel {
        match self {
            UpdateEffect::ApplyToRuntime(w) => EffectModel::ApplyToRuntime(*w),
            UpdateEffect::SaveToFile(w) => EffectModel::SaveToFile(*w),
            UpdateEffect::SetInMemory(w) => EffectModel::SetInMemory(*w),
            UpdateEffect::Finish(r) => EffectModel::Finish(result_text(*r)),
        }
    }
}

/// Where the update is.
#[derive(Debug, Clone, PartialEq, Eq)]
pub enum UpdateStage {
    /// Waiting for the runtime to take the new configuration.
    ApplyingNext,
    /// Waiting for the file to be written.
    SavingNext,
    /// Waiting for the in-memory configuration to be replaced.
    SettingMemory,
    /// Saving failed with this error; waiting for the runtime to take the
    /// previous configuration back.
    RollingBack(String),
    /// Rolled back after this save error; waiting for the in-memory
    /// configuration to be restored.
    RestoringMemory(String),
    /// Over.
    Done,
}

/// The abstract stage.
pub enum StageModel {
    ApplyingNext,
    SavingNext,
    SettingMemory,
    RollingBack(Seq<char>),
    RestoringMemory(Seq<char>),
    Done,
}

impl View for UpdateStage {
    type V = StageModel;

    open spec fn view(&self) -> StageModel {
        match self {
            UpdateStage::ApplyingNext => StageModel::ApplyingNext,
            UpdateStage::SavingNext => StageModel::SavingNext,
            UpdateStage::SettingMemory => StageModel::SettingMemory,
            UpdateStage::RollingBack(e) => StageModel::RollingBack(e@),
            UpdateStage::RestoringMemory(e) => StageModel::RestoringMemory(e@),
            UpdateStage::Done => StageModel::Done,
        }
    }
}

/// The message when saving failed: the save error, and the rollback error
/// when the rollback failed too.
pub open spec fn persist_failure_text(save_error: Seq<char>, rollback: Result<(), Seq<char>>) -> Seq<
    char,
> {
    match rollback {
        Ok(_) => "failed to persist runtime config. "@ + save_error,
        Err(e) => "failed to persist runtime config. "@ + save_error
            + ". runtime rollback also failed: "@ + e,
    }
}

/// The next stage and effects after the result of the awaited step.
pub open spec fn stage_step(s: StageModel, result: Result<(), Seq<char>>) -> (StageModel, Seq<
    EffectModel,
>) {
    match s {
        StageModel::ApplyingNext => match result {
            Ok(_) => (StageModel::SavingNext, seq![EffectModel::SaveToFile(Which::Next)]),
            Err(e) => (StageModel::Done, seq![EffectModel::Finish(Err(e))]),
        },
        StageModel::SavingNext => match result {
            Ok(_) => (StageModel::SettingMemory, seq![EffectModel::SetInMemory(Which::Next)]),
            Err(e) => (StageModel::RollingBack(e), seq![EffectModel::ApplyToRuntime(Which::Previous)]),
        },
        StageModel::SettingMemory => match result {
            Ok(_) => (StageModel::Done, seq![EffectModel::Finish(Ok(()))]),
            Err(e) => (StageModel::Done, seq![EffectModel::Finish(Err(e))]),
        },
        StageModel::RollingBack(save_error) => match result {
            Ok(_) => (
                StageModel::RestoringMemory(save_error),
                seq![EffectModel::SetInMemory(Which::Previous)],
            ),
            Err(r) => (
                StageModel::Done,
                seq![EffectModel::Finish(Err(persist_failure_text(save_error, Err(r))))],
            ),
        },
        StageModel::RestoringMemory(save_error) => (
            StageModel::Done,
            seq![EffectModel::Finish(Err(persist_failure_text(save_error, Ok(()))))],
        ),
        StageModel::Done => (StageModel::Done, Seq::empty()),
    }
}

/// The steps of one configuration update.
#[derive(Debug)]
pub struct ConfigUpdate {
    stage: UpdateStage,
}

impl View for ConfigUpdate {
    type V = StageModel;

    closed spec fn view(&self) -> StageModel {
        self.stage@
    }
}

impl ConfigUpdate {
    /// Starts an update: the runtime is asked to take the new configuration.
    pub fn begin() -> (r: (Self, UpdateEffect))
        ensures
            r.0@ == StageModel::ApplyingNext,
            r.1 == UpdateEffect::ApplyToRuntime(Which::Next),
    {
        (ConfigUpdate { stage: UpdateStage::ApplyingNext }, UpdateEffect::ApplyToRuntime(Which::Next))
    }

    /// Whether the update is over.
    pub fn is_done(&self) -> (b: bool)
        ensures
            b == (self@ is Done),
    {
        matches!(self.stage, UpdateStage::Done)
    }

    /// Takes the result of the awaited step and returns what to do next.
    pub fn on_result(&mut self, result: Result<(), String>) -> (effects: Vec<UpdateEffect>)
        ensures
            final(self)@ == stage_step(old(self)@, result_text(result)).0,
            effects@.map_values(|e: UpdateEffect| e@) == stage_step(
                old(self)@,
                result_text(result),
            ).1,
    {
        let ghost before = self.stage@;
        let mut effects: Vec<UpdateEffect> = Vec::new();
        let mut stage = UpdateStage::Done;
        std::mem::swap(&mut stage, &mut self.stage);
        match stage {
            UpdateStage::ApplyingNext => match result {
                Ok(()) => {
                    self.stage = UpdateStage::SavingNext;
                    effects.push(UpdateEffect::SaveToFile(Which::Next));
                },
                Err(e) => {
                    effects.push(UpdateEffect::Finish(Err(e)));
                },
            },
            UpdateStage::SavingNext => match result {
                Ok(()) => {
                    self.stage = UpdateStage::SettingMemory;
                    effects.push(UpdateEffect::SetInMemory(Which::Next));
                },
                Err(e) => {
                    self.stage = UpdateStage::RollingBack(e);
                    effects.push(UpdateEffect::ApplyToRuntime(Which::Previous));
                },
            },
            UpdateStage::SettingMemory => match result {
                Ok(()) => {
                    effects.push(UpdateEffect::Finish(Ok(())));
                },
                Err(e) => {
                    effects.push(UpdateEffect::Finish(Err(e)));
                },
            },
            UpdateStage::RollingBack(save_error) => match result {
                Ok(()) => {
                    self.stage = UpdateStage::RestoringMemory(save_error);
                    effects.push(UpdateEffect::SetInMemory(Which::Previous));
                },
                Err(r) => {
                    let message = String::from_str("failed to persist runtime config. ").concat(
                        save_error.as_str(),
                    ).concat(". runtime rollback also failed: ").concat(r.as_str());
                    effects.push(UpdateEffect::Finish(Err(message)));
                },
            },
            UpdateStage::RestoringMemory(save_error) => {
                let message = String::from_str("failed to persist runtime config. ").concat(
                    save_error.as_str(),
                );
                effects.push(UpdateEffect::Finish(Err(message)));
            },
            UpdateStage::Done => {},
        }
        proof {
            assert(effects@.map_values(|e: UpdateEffect| e@) =~= stage_step(
                before,
                result_text(result),
            ).1);
        }
        effects
    }
}

/// Which configuration the runtime, the file and the memory hold, as far as
/// the reported results show (a failed save leaves the file as it was),
/// and whether a rollback failed.
pub struct Holdings {
    pub runtime: Which,
    pub file: Which,
    pub memory: Which,
    pub rollback_failed: bool,
}

/// What a reported result tells about the holdings.
pub open spec fn holdings_step(h: Holdings, s: StageModel, result: Result<(), Seq<char>>) -> Holdings {
    match s {
        StageModel::ApplyingNext => if result is Ok {
            Holdings { runtime: Which::Next, ..h }
        } else {
            h
        },
        StageModel::SavingNext => if result is Ok {
            Holdings { file: Which::Next, ..h }
        } else {
            h
        },
        StageModel::SettingMemory => if result is Ok {
            Holdings { memory: Which::Next, ..h }
        } else {
            h
        },
        StageModel::RollingBack(_) => if result is Ok {
            Holdings { runtime: Which::Previous, ..h }
        } else {
            Holdings { rollback_failed: true, ..h }
        },
        StageModel::RestoringMemory(_) => if result is Ok {
            Holdings { memory: Which::Previous, ..h }
        } else {
            h
        },
        StageModel::Done => h,
    }
}

/// The holdings and stage before the update begins: everything holds the
/// previous configuration.
pub open spec fn initial_holdings() -> Holdings {
    Holdings {
        runtime: Which::Previous,
        file: Which::Previous,
        memory: Which::Previous,
        rollback_failed: false,
    }
}

/// The stage and holdings after a sequence of reported results.
pub open spec fn run_update(results: Seq<Result<(), Seq<char>>>) -> (StageModel, Holdings)
    decreases results.len(),
{
    if results.len() == 0 {
        (StageModel::ApplyingNext, initial_holdings())
    } else {
        let prev = run_update(results.drop_last());
        (
            stage_step(prev.0, results.last()).0,
            holdings_step(prev.1, prev.0, results.last()),
        )
    }
}

/// What holds at each stage of an update.
pub open spec fn update_invariant(s: StageModel, h: Holdings) -> bool {
    match s {
        StageModel::ApplyingNext => h == initial_holdings(),
        StageModel::SavingNext => h == Holdings { runtime: Which::Next, ..initial_holdings() },
        StageModel::SettingMemory => h == Holdings {
            runtime: Which::Next,
            file: Which::Next,
            ..initial_holdings()
        },
        StageModel::RollingBack(_) => h == Holdings { runtime: Which::Next, ..initial_holdings() },
        StageModel::RestoringMemory(_) => h == initial_holdings(),
        StageModel::Done => {
            &&& h.runtime == Which::Next ==> (h.file == Which::Next || h.rollback_failed)
            &&& h.rollback_failed ==> h.file == Which::Previous
            &&& h.file == Which::Previous && !h.rollback_failed ==> h.runtime == Which::Previous && h.memory
                == Which::Previous
            &&& h.memory == Which::Next ==> h.runtime == Which::Next && h.file == Which::Next
        },
    }
}

/// An update never leaves the runtime and the stored configuration apart
/// without saying so: at every stage the invariant holds, and once over,
/// the memory holds the new configuration only with the runtime and the file
/// holding it too, and a runtime that took the new configuration either had
/// it saved or failed to roll back; a failed save with a successful rollback
/// leaves the runtime, the file and the memory on the previous configuration.
pub proof fn lemma_update_consistent(results: Seq<Result<(), Seq<char>>>)
    ensures
        update_invariant(run_update(results).0, run_update(results).1),
    decreases results.len(),
{
    if results.len() > 0 {
        lemma_update_consistent(results.drop_last());
    }
}

/// The update succeeds only when the runtime took the new configuration, it
/// was saved, and it became the in-memory configuration.
pub proof fn lemma_update_success_means_all_updated(results: Seq<Result<(), Seq<char>>>)
    requires
        results.len() > 0,
        stage_step(run_update(results.drop_last()).0, results.last()).1 == seq![
            EffectModel::Finish(Ok(())),
        ],
    ensures
        run_update(results).1 == (Holdings {
            runtime: Which::Next,
            file: Which::Next,
            memory: Which::Next,
            rollback_failed: false,
        }),
{
    lemma_update_consistent(results.drop_last());
    let prev = run_update(results.drop_last());
    match prev.0 {
        StageModel::ApplyingNext => {
            assert(stage_step(prev.0, results.last()).1[0] != EffectModel::Finish(Ok(())));
        },
        StageModel::SavingNext => {},
        StageModel::SettingMemory => {},
        StageModel::RollingBack(e) => {
            assert(stage_step(prev.0, results.last()).1[0] != EffectModel::Finish(Ok(())));
        },
        StageModel::RestoringMemory(e) => {
            assert(stage_step(prev.0, results.last()).1[0] != EffectModel::Finish(Ok(())));
        },
        StageModel::Done => {
            assert(stage_step(prev.0, results.last()).1.len() == 0);
        },
    }
}

/// A failed save is rolled back: when the runtime took the new
/// configuration, saving failed with `e`, and the runtime and the memory
/// took the previous configuration back, the runtime, the file and the
/// memory all hold the previous configuration, and the update reports the
/// save error.
pub proof fn lemma_failed_save_rolls_back(e: Seq<char>)
    ensures
        ({
            let results = seq![
                Ok::<(), Seq<char>>(()),
                Err::<(), Seq<char>>(e),
                Ok::<(), Seq<char>>(()),
                Ok::<(), Seq<char>>(()),
            ];
            &&& run_update(results) == (StageModel::Done, initial_holdings())
            &&& stage_step(run_update(results.drop_last()).0, results.last()).1 == seq![
                EffectModel::Finish(Err(persist_failure_text(e, Ok(())))),
            ]
        }),
{
    let results = seq![
        Ok::<(), Seq<char>>(()),
        Err::<(), Seq<char>>(e),
        Ok::<(), Seq<char>>(()),
        Ok::<(), Seq<char>>(()),
    ];
    assert(results.drop_last().drop_last().drop_last().drop_last() =~= Seq::<Result<(), Seq<char>>>::empty());
    assert(results.drop_last().drop_last().drop_last() =~= seq![Ok::<(), Seq<char>>(())]);
    assert(results.drop_last().drop_last() =~= seq![Ok::<(), Seq<char>>(()), Err::<(), Seq<char>>(e)]);
    let r0 = run_update(results.drop_last().drop_last().drop_last().drop_last());
    assert(r0 == (StageModel::ApplyingNext, initial_holdings()));
    assert(seq![Ok::<(), Seq<char>>(())].drop_last() =~= Seq::<Result<(), Seq<char>>>::empty());
    let r1 = run_update(results.drop_last().drop_last().drop_last());
    assert(r1 == (StageModel::SavingNext, Holdings { runtime: Which::Next, ..initial_holdings() }));
    assert(results.drop_last().drop_last().drop_last().last() == Ok::<(), Seq<char>>(()));
    let r2 = run_update(results.drop_last().drop_last());
    assert(r2 == (StageModel::RollingBack(e), Holdings { runtime: Which::Next, ..initial_holdings() }));
    let r3 = run_update(results.drop_last());
    assert(r3 == (StageModel::RestoringMemory(e), initial_holdings()));
}

} // verus!
