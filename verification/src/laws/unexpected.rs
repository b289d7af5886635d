//! What the workflows do with events that they do not expect.
use vstd::prelude::*;
use crate::build::command::{
    CommandEvent, CommandFlow, CommandPhase, CommandStep, VmFlow, VmPhase, VmStep,
};
use crate::build::convert::{
    ConvertEvent, ConvertStep, ExtractFlow, ExtractPhase, ToExt4Flow, ToExt4Phase, ToSquashfsFlow,
    ToSquashfsPhase,
};
use crate::build::copy::{CopyEvent, CopyFlow, CopyPhase, CopyStep};
use crate::build::engine::{BuildEvent, BuildFlow, BuildPhase, BuildStep};
use crate::build::finalize::{FinalizeEvent, FinalizeFlow, FinalizePhase, FinalizeStep};
use crate::build::guard::{ReleaseEvent, ReleaseFlow, ReleasePhase, ReleaseStep};
use crate::build::layer::{
    ExecuteEvent, ExecuteFlow, ExecutePhase, ExecuteStep, RunEvent, RunFlow, RunPhase, RunStep,
};
use crate::build::measure::{MeasureEvent, MeasureFlow, MeasurePhase, MeasureStep};
use crate::build::signing::{KeyEvent, KeyFlow, KeyPhase, KeyStep};
use crate::cgroups::{CgroupInit, InitAction, InitEvent, InitPhase};
use crate::cow::{
    AttachEvent, AttachFlow, AttachPhase, AttachStep, CowAction, CowEvent, CowFlow, CowPhase,
    DetachEvent, DetachFlow, DetachPhase, DetachStep, StorageError,
};
use crate::flow::Step;
use crate::privdrop::{DropEvent, DropFlow, DropPhase, DropStep};

verus! {

/// What a VM that runs a command does not expect changes nothing, and once it is over it
/// expects nothing.
pub proof fn vm_of_a_command_ignores_the_unexpected(
    pre: CommandFlow,
    event: CommandEvent,
    post: CommandFlow,
    step: CommandStep,
)
    requires
        CommandFlow::transition(pre, event, post, step),
    ensures
        step is Unexpected ==> post == pre,
        pre.phase == CommandPhase::Finished ==> step is Unexpected,
        step is Return ==> post.phase == CommandPhase::Finished,
{
}

/// What a VM with a read-only root file system does not expect changes nothing, and once it is over it
/// expects nothing.
pub proof fn readonly_vm_ignores_the_unexpected(
    pre: VmFlow,
    event: CommandEvent,
    post: VmFlow,
    step: VmStep,
)
    requires
        VmFlow::transition(pre, event, post, step),
    ensures
        step is Unexpected ==> post == pre,
        pre.phase == VmPhase::Finished ==> step is Unexpected,
        step is Return ==> post.phase == VmPhase::Finished,
{
}

/// What an extraction does not expect changes nothing, and once it is over it
/// expects nothing.
pub proof fn extraction_ignores_the_unexpected(
    pre: ExtractFlow,
    event: ConvertEvent,
    post: ExtractFlow,
    step: ConvertStep<()>,
)
    requires
        ExtractFlow::transition(pre, event, post, step),
    ensures
        step is Unexpected ==> post == pre,
        pre.phase == ExtractPhase::Finished ==> step is Unexpected,
        step is Return ==> post.phase == ExtractPhase::Finished,
{
}

/// What a conversion to ext4 does not expect changes nothing, and once it is over it
/// expects nothing.
pub proof fn conversion_to_ext4_ignores_the_unexpected(
    pre: ToExt4Flow,
    event: ConvertEvent,
    post: ToExt4Flow,
    step: ConvertStep<()>,
)
    requires
        ToExt4Flow::transition(pre, event, post, step),
    ensures
        step is Unexpected ==> post == pre,
        pre.phase == ToExt4Phase::Finished ==> step is Unexpected,
        step is Return ==> post.phase == ToExt4Phase::Finished,
{
}

/// What a conversion to squashfs does not expect changes nothing, and once it is over it
/// expects nothing.
pub proof fn conversion_to_squashfs_ignores_the_unexpected(
    pre: ToSquashfsFlow,
    event: ConvertEvent,
    post: ToSquashfsFlow,
    step: ConvertStep<()>,
)
    requires
        ToSquashfsFlow::transition(pre, event, post, step),
    ensures
        step is Unexpected ==> post == pre,
        pre.phase == ToSquashfsPhase::Finished ==> step is Unexpected,
        step is Return ==> post.phase == ToSquashfsPhase::Finished,
{
}

/// What a copy does not expect changes nothing, and once it is over it
/// expects nothing.
pub proof fn copy_ignores_the_unexpected(
    pre: CopyFlow,
    event: CopyEvent,
    post: CopyFlow,
    step: CopyStep,
)
    requires
        CopyFlow::transition(pre, event, post, step),
    ensures
        step is Unexpected ==> post == pre,
        pre.phase == CopyPhase::Finished ==> step is Unexpected,
        step is Return ==> post.phase == CopyPhase::Finished,
{
}

/// What a build does not expect changes nothing, and once it is over it
/// expects nothing.
pub proof fn whole_build_ignores_the_unexpected(
    pre: BuildFlow,
    event: BuildEvent,
    post: BuildFlow,
    step: BuildStep,
)
    requires
        BuildFlow::transition(pre, event, post, step),
    ensures
        step is Unexpected ==> post == pre,
        pre.phase == BuildPhase::Finished ==> step is Unexpected,
        step is Return ==> post.phase == BuildPhase::Finished,
{
}

/// What the making of an image does not expect changes nothing, and once it is over it
/// expects nothing.
pub proof fn making_of_an_image_ignores_the_unexpected<K>(
    pre: FinalizeFlow,
    event: FinalizeEvent<K>,
    post: FinalizeFlow,
    step: FinalizeStep<K>,
)
    requires
        FinalizeFlow::transition(pre, event, post, step),
    ensures
        step is Unexpected ==> post == pre,
        pre.phase == FinalizePhase::Finished ==> step is Unexpected,
        step is Return ==> post.phase == FinalizePhase::Finished,
{
}

/// What a release does not expect changes nothing, and once it is over it
/// expects nothing.
pub proof fn release_ignores_the_unexpected<H>(
    pre: ReleaseFlow<H>,
    event: ReleaseEvent,
    post: ReleaseFlow<H>,
    step: ReleaseStep<H>,
)
    requires
        ReleaseFlow::transition(pre, event, post, step),
    ensures
        step is Unexpected ==> post == pre,
        pre.phase == ReleasePhase::Finished ==> step is Unexpected,
        step is Return ==> post.phase == ReleasePhase::Finished,
{
}

/// What a `RUN` instruction does not expect changes nothing, and once it is over it
/// expects nothing.
pub proof fn run_ignores_the_unexpected(pre: RunFlow, event: RunEvent, post: RunFlow, step: RunStep)
    requires
        RunFlow::transition(pre, event, post, step),
    ensures
        step is Unexpected ==> post == pre,
        pre.phase == RunPhase::Finished ==> step is Unexpected,
        step is Return ==> post.phase == RunPhase::Finished,
{
}

/// What the execution of a command does not expect changes nothing, and once it is over it
/// expects nothing.
pub proof fn execution_ignores_the_unexpected<H>(
    pre: ExecuteFlow<H>,
    event: ExecuteEvent<H>,
    post: ExecuteFlow<H>,
    step: ExecuteStep<H>,
)
    requires
        ExecuteFlow::transition(pre, event, post, step),
    ensures
        step is Unexpected ==> post == pre,
        pre.phase == ExecutePhase::Finished ==> step is Unexpected,
        step is Return ==> post.phase == ExecutePhase::Finished,
{
}

/// What a measurement does not expect changes nothing, and once it is over it
/// expects nothing.
pub proof fn measurement_ignores_the_unexpected(
    pre: MeasureFlow,
    event: MeasureEvent,
    post: MeasureFlow,
    step: MeasureStep,
)
    requires
        MeasureFlow::transition(pre, event, post, step),
    ensures
        step is Unexpected ==> post == pre,
        pre.phase == MeasurePhase::Finished ==> step is Unexpected,
        step is Return ==> post.phase == MeasurePhase::Finished,
{
}

/// What the search for a key does not expect changes nothing, and once it is over it
/// expects nothing.
pub proof fn search_for_a_key_ignores_the_unexpected<K>(
    pre: KeyFlow<K>,
    event: KeyEvent<K>,
    post: KeyFlow<K>,
    step: KeyStep<K>,
)
    requires
        KeyFlow::transition(pre, event, post, step),
    ensures
        step is Unexpected ==> post == pre,
        pre.phase == KeyPhase::Finished ==> step is Unexpected,
        step is Return ==> post.phase == KeyPhase::Finished,
{
}

/// What an attachment does not expect changes nothing, and once it is over it
/// expects nothing.
pub proof fn attachment_ignores_the_unexpected<H>(
    pre: AttachFlow,
    event: AttachEvent<H>,
    post: AttachFlow,
    step: AttachStep<H>,
)
    requires
        AttachFlow::transition(pre, event, post, step),
    ensures
        step is Unexpected ==> post == pre,
        pre.phase == AttachPhase::Finished ==> step is Unexpected,
        step is Return ==> post.phase == AttachPhase::Finished,
{
}

/// What a detachment does not expect changes nothing, and once it is over it
/// expects nothing.
pub proof fn detachment_ignores_the_unexpected(
    pre: DetachFlow,
    event: DetachEvent,
    post: DetachFlow,
    step: DetachStep,
)
    requires
        DetachFlow::transition(pre, event, post, step),
    ensures
        step is Unexpected ==> post == pre,
        pre.phase == DetachPhase::Finished ==> step is Unexpected,
        step is Return ==> post.phase == DetachPhase::Finished,
{
}

/// What a drop of privileges does not expect changes nothing, and once it is over it
/// expects nothing.
pub proof fn drop_ignores_the_unexpected(
    pre: DropFlow,
    event: DropEvent,
    post: DropFlow,
    step: DropStep,
)
    requires
        DropFlow::transition(pre, event, post, step),
    ensures
        step is Unexpected ==> post == pre,
        pre.phase == DropPhase::Finished ==> step is Unexpected,
        step is Return ==> post.phase == DropPhase::Finished,
{
}

/// What the making of the slice does not expect changes nothing, and once it is over it
/// expects nothing.
pub proof fn making_of_the_slice_ignores_the_unexpected(
    pre: CgroupInit,
    event: InitEvent,
    post: CgroupInit,
    step: Step<InitAction, (), String>,
)
    requires
        CgroupInit::transition(pre, event, post, step),
    ensures
        step is Unexpected ==> post == pre,
        pre.phase == InitPhase::Finished ==> step is Unexpected,
        step is Return ==> post.phase == InitPhase::Finished,
{
}

/// What the creation of a copy-on-write file does not expect changes nothing, and once it is over it
/// expects nothing.
pub proof fn creation_of_a_cow_file_ignores_the_unexpected(
    pre: CowFlow,
    event: CowEvent,
    post: CowFlow,
    step: Step<CowAction, (), StorageError>,
)
    requires
        CowFlow::transition(pre, event, post, step),
    ensures
        step is Unexpected ==> post == pre,
        pre.phase == CowPhase::Finished ==> step is Unexpected,
        step is Return ==> post.phase == CowPhase::Finished,
{
}

} // verus!
