//! The destructive file steps around a conversion, as state machines: the
//! caller asks for the next step, performs it, and reports whether it
//! succeeded. Each step is ordered so that a failure never loses data.

use vstd::prelude::*;

verus! {

/// How far an encode has got.
#[derive(Debug, Clone, Copy, PartialEq, Eq, Structural)]
pub enum EncodeStage {
    /// The container's fields are computed; nothing is written yet.
    Start,
    BackedUp,
    Staged,
    SourceRemoved,
    Converted,
}

/// What an encode asks its caller to do next.
#[derive(Debug, Clone, Copy, PartialEq, Eq, Structural)]
pub enum EncodeStep {
    /// Copy the source to its backup name.
    CopyToBackup,
    /// Write the container under its staging name.
    WriteStaging,
    /// Delete the source file.
    RemoveSource,
    /// Rename the staged container to its final name.
    PromoteStaging,
    /// The source is converted.
    Done,
    /// A step failed: stop, touching nothing more.
    Stop,
}

/// Which of an encode's files stand on disk.
#[derive(Debug, Clone, Copy, PartialEq, Eq, Structural)]
pub struct EncodeFiles {
    pub source: bool,
    pub backup: bool,
    pub staged: bool,
    pub container: bool,
}

/// An encode in progress.
#[derive(Debug, Clone, Copy, PartialEq, Eq, Structural)]
pub struct EncodeRun {
    pub stage: EncodeStage,
    /// Whether a backup is made.
    pub backup: bool,
    /// Whether a step failed.
    pub failed: bool,
}

/// What a step that succeeds does to the files.
pub open spec fn encode_effect(f: EncodeFiles, step: EncodeStep) -> EncodeFiles {
    match step {
        EncodeStep::CopyToBackup => EncodeFiles { backup: true, ..f },
        EncodeStep::WriteStaging => EncodeFiles { staged: true, ..f },
        EncodeStep::RemoveSource => EncodeFiles { source: false, ..f },
        EncodeStep::PromoteStaging => EncodeFiles { staged: false, container: true, ..f },
        _ => f,
    }
}

/// Some whole copy of the data is on disk: the source, or the container,
/// staged or in place.
pub open spec fn encode_keeps_copy(f: EncodeFiles) -> bool {
    f.source || f.staged || f.container
}

impl EncodeRun {
    pub open spec fn wf(&self) -> bool {
        self.stage is BackedUp ==> self.backup
    }

    /// The files on disk at this stage.
    pub open spec fn files(&self) -> EncodeFiles {
        match self.stage {
            EncodeStage::Start => EncodeFiles {
                source: true,
                backup: false,
                staged: false,
                container: false,
            },
            EncodeStage::BackedUp => EncodeFiles {
                source: true,
                backup: true,
                staged: false,
                container: false,
            },
            EncodeStage::Staged => EncodeFiles {
                source: true,
                backup: self.backup,
                staged: true,
                container: false,
            },
            EncodeStage::SourceRemoved => EncodeFiles {
                source: false,
                backup: self.backup,
                staged: true,
                container: false,
            },
            EncodeStage::Converted => EncodeFiles {
                source: false,
                backup: self.backup,
                staged: false,
                container: true,
            },
        }
    }

    pub open spec fn step_spec(&self) -> EncodeStep {
        if self.failed {
            EncodeStep::Stop
        } else {
            match self.stage {
                EncodeStage::Start => if self.backup {
                    EncodeStep::CopyToBackup
                } else {
                    EncodeStep::WriteStaging
                },
                EncodeStage::BackedUp => EncodeStep::WriteStaging,
                EncodeStage::Staged => EncodeStep::RemoveSource,
                EncodeStage::SourceRemoved => EncodeStep::PromoteStaging,
                EncodeStage::Converted => EncodeStep::Done,
            }
        }
    }

    /// The run after its next step was performed, with the given outcome.
    pub open spec fn after(&self, ok: bool) -> EncodeRun {
        match self.step_spec() {
            EncodeStep::Done | EncodeStep::Stop => *self,
            step => if !ok {
                EncodeRun { failed: true, ..*self }
            } else {
                EncodeRun {
                    stage: match step {
                        EncodeStep::CopyToBackup => EncodeStage::BackedUp,
                        EncodeStep::WriteStaging => EncodeStage::Staged,
                        EncodeStep::RemoveSource => EncodeStage::SourceRemoved,
                        _ => EncodeStage::Converted,
                    },
                    ..*self
                }
            },
        }
    }

    /// A run that has written nothing yet.
    pub fn new(backup: bool) -> (r: EncodeRun)
        ensures
            r.wf(),
            r.stage == EncodeStage::Start,
            r.backup == backup,
            !r.failed,
    {
        EncodeRun { stage: EncodeStage::Start, backup, failed: false }
    }

    /// The step to perform next.
    pub fn next_step(&self) -> (r: EncodeStep)
        ensures
            r == self.step_spec(),
    {
        if self.failed {
            return EncodeStep::Stop;
        }
        match self.stage {
            EncodeStage::Start => if self.backup {
                EncodeStep::CopyToBackup
            } else {
                EncodeStep::WriteStaging
            },
            EncodeStage::BackedUp => EncodeStep::WriteStaging,
            EncodeStage::Staged => EncodeStep::RemoveSource,
            EncodeStage::SourceRemoved => EncodeStep::PromoteStaging,
            EncodeStage::Converted => EncodeStep::Done,
        }
    }

    /// Records the outcome of the step that `next_step` gave. A success
    /// moves the files on as the step does; a failure leaves them and stops.
    pub fn record(&mut self, ok: bool)
        requires
            old(self).wf(),
        ensures
            *final(self) == old(self).after(ok),
            final(self).wf(),
            ok ==> final(self).files() == encode_effect(old(self).files(), old(self).step_spec()),
            !ok ==> final(self).files() == old(self).files(),
            !ok && old(self).step_spec() != EncodeStep::Done ==> final(self).step_spec()
                == EncodeStep::Stop,
    {
        let step = self.next_step();
        match step {
            EncodeStep::Done | EncodeStep::Stop => {},
            _ => {
                if !ok {
                    self.failed = true;
                } else {
                    self.stage =
                    match step {
                        EncodeStep::CopyToBackup => EncodeStage::BackedUp,
                        EncodeStep::WriteStaging => EncodeStage::Staged,
                        EncodeStep::RemoveSource => EncodeStage::SourceRemoved,
                        _ => EncodeStage::Converted,
                    };
                }
            },
        }
    }
}

/// At every stage of an encode, and after whatever its next step does, a
/// whole copy of the data is on disk: the source is deleted only once the
/// container is fully staged.
pub proof fn lemma_encode_keeps_copy(run: EncodeRun)
    requires
        run.wf(),
    ensures
        encode_keeps_copy(run.files()),
        encode_keeps_copy(encode_effect(run.files(), run.step_spec())),
        run.step_spec() == EncodeStep::RemoveSource ==> run.files().staged,
{
}

/// Where copying to the backup fails, the source stays on disk, and the run
/// stops: no later step deletes or rewrites it.
pub proof fn lemma_backup_failure_keeps_source(run: EncodeRun)
    requires
        run.wf(),
        run.step_spec() == EncodeStep::CopyToBackup,
    ensures
        run.after(false).files().source,
        run.after(false).files() == run.files(),
        run.after(false).step_spec() == EncodeStep::Stop,
        run.after(false).after(true) == run.after(false),
{
}

/// How far a decode has got.
#[derive(Debug, Clone, Copy, PartialEq, Eq, Structural)]
pub enum DecodeStage {
    /// The restored bytes are computed; nothing is written yet.
    Start,
    Written,
    ContainerRemoved,
    Cleaned,
}

/// What a decode asks its caller to do next.
#[derive(Debug, Clone, Copy, PartialEq, Eq, Structural)]
pub enum DecodeStep {
    /// Write the restored file.
    WriteRestored,
    /// Delete the container, if it is still there.
    RemoveContainer,
    /// Delete the restored file's backup, if there is one.
    RemoveBackup,
    /// The container is restored.
    Done,
    /// A step failed: stop, touching nothing more.
    Stop,
}

/// Which of a decode's files stand on disk, and whether it removed the backup.
#[derive(Debug, Clone, Copy, PartialEq, Eq, Structural)]
pub struct DecodeFiles {
    pub container: bool,
    pub restored: bool,
    pub backup_removed: bool,
}

/// A decode in progress.
#[derive(Debug, Clone, Copy, PartialEq, Eq, Structural)]
pub struct DecodeRun {
    pub stage: DecodeStage,
    /// Whether the backup is deleted at the end.
    pub cleanup: bool,
    /// Whether a step failed.
    pub failed: bool,
}

/// What a step that succeeds does to the files.
pub open spec fn decode_effect(f: DecodeFiles, step: DecodeStep) -> DecodeFiles {
    match step {
        DecodeStep::WriteRestored => DecodeFiles { restored: true, ..f },
        DecodeStep::RemoveContainer => DecodeFiles { container: false, ..f },
        DecodeStep::RemoveBackup => DecodeFiles { backup_removed: true, ..f },
        _ => f,
    }
}

impl DecodeRun {
    pub open spec fn wf(&self) -> bool {
        self.stage is Cleaned ==> self.cleanup
    }

    /// The files on disk at this stage.
    pub open spec fn files(&self) -> DecodeFiles {
        match self.stage {
            DecodeStage::Start => DecodeFiles {
                container: true,
                restored: false,
                backup_removed: false,
            },
            DecodeStage::Written => DecodeFiles {
                container: true,
                restored: true,
                backup_removed: false,
            },
            DecodeStage::ContainerRemoved => DecodeFiles {
                container: false,
                restored: true,
                backup_removed: false,
            },
            DecodeStage::Cleaned => DecodeFiles {
                container: false,
                restored: true,
                backup_removed: true,
            },
        }
    }

    pub open spec fn step_spec(&self) -> DecodeStep {
        if self.failed {
            DecodeStep::Stop
        } else {
            match self.stage {
                DecodeStage::Start => DecodeStep::WriteRestored,
                DecodeStage::Written => DecodeStep::RemoveContainer,
                DecodeStage::ContainerRemoved => if self.cleanup {
                    DecodeStep::RemoveBackup
                } else {
                    DecodeStep::Done
                },
                DecodeStage::Cleaned => DecodeStep::Done,
            }
        }
    }

    /// The run after its next step was performed, with the given outcome.
    pub open spec fn after(&self, ok: bool) -> DecodeRun {
        match self.step_spec() {
            DecodeStep::Done | DecodeStep::Stop => *self,
            step => if !ok {
                DecodeRun { failed: true, ..*self }
            } else {
                DecodeRun {
                    stage: match step {
                        DecodeStep::WriteRestored => DecodeStage::Written,
                        DecodeStep::RemoveContainer => DecodeStage::ContainerRemoved,
                        _ => DecodeStage::Cleaned,
                    },
                    ..*self
                }
            },
        }
    }

    /// A run that has written nothing yet.
    pub fn new(cleanup: bool) -> (r: DecodeRun)
        ensures
            r.wf(),
            r.stage == DecodeStage::Start,
            r.cleanup == cleanup,
            !r.failed,
    {
        DecodeRun { stage: DecodeStage::Start, cleanup, failed: false }
    }

    /// The step to perform next.
    pub fn next_step(&self) -> (r: DecodeStep)
        ensures
            r == self.step_spec(),
    {
        if self.failed {
            return DecodeStep::Stop;
        }
        match self.stage {
            DecodeStage::Start => DecodeStep::WriteRestored,
            DecodeStage::Written => DecodeStep::RemoveContainer,
            DecodeStage::ContainerRemoved => if self.cleanup {
                DecodeStep::RemoveBackup
            } else {
                DecodeStep::Done
            },
            DecodeStage::Cleaned => DecodeStep::Done,
        }
    }

    /// Records the outcome of the step that `next_step` gave. A success
    /// moves the files on as the step does; a failure leaves them and stops.
    pub fn record(&mut self, ok: bool)
        requires
            old(self).wf(),
        ensures
            *final(self) == old(self).after(ok),
            final(self).wf(),
            ok ==> final(self).files() == decode_effect(old(self).files(), old(self).step_spec()),
            !ok ==> final(self).files() == old(self).files(),
            !ok && old(self).step_spec() != DecodeStep::Done ==> final(self).step_spec()
                == DecodeStep::Stop,
    {
        let step = self.next_step();
        match step {
            DecodeStep::Done | DecodeStep::Stop => {},
            _ => {
                if !ok {
                    self.failed = true;
                } else {
                    self.stage =
                    match step {
                        DecodeStep::WriteRestored => DecodeStage::Written,
                        DecodeStep::RemoveContainer => DecodeStage::ContainerRemoved,
                        _ => DecodeStage::Cleaned,
                    };
                }
            },
        }
    }
}

/// At every stage of a decode, and after whatever its next step does, the
/// container or the restored file is on disk: the container is deleted only
/// once the restored file is written.
pub proof fn lemma_decode_keeps_copy(run: DecodeRun)
    requires
        run.wf(),
    ensures
        run.files().container || run.files().restored,
        decode_effect(run.files(), run.step_spec()).container || decode_effect(
            run.files(),
            run.step_spec(),
        ).restored,
        run.step_spec() == DecodeStep::RemoveContainer ==> run.files().restored,
{
}

/// A decode without cleanup never removes the backup: no step it asks for
/// deletes it, in any outcome.
pub proof fn lemma_no_cleanup_keeps_backup(run: DecodeRun, ok: bool)
    requires
        run.wf(),
        !run.cleanup,
    ensures
        run.step_spec() != DecodeStep::RemoveBackup,
        !run.files().backup_removed,
        !run.after(ok).files().backup_removed,
        run.after(ok).wf(),
        !run.after(ok).cleanup,
{
}

} // verus!
