//! What making an image does.
use vstd::prelude::*;
use std::collections::HashMap;
use crate::build::finalize::{
    finalize_next, manifest_of, manifests_say_what_was_found, BuildResult, FinalizeAction,
    FinalizeEvent, FinalizeFlow, FinalizePhase, FinalizeStep, Manifest,
};
use crate::flow::{is_run, Step};
use crate::image::{text_view, OciImageConfig};
use crate::laws::ends::{execution_error, io_error};
use crate::path::joined_path;
use crate::text::texts;

verus! {

/// The two lists of strings hold the same texts, or neither is there.
pub open spec fn same_list(a: Option<Vec<String>>, b: Option<Vec<String>>) -> bool {
    match (a, b) {
        (Some(x), Some(y)) => texts(x) == texts(y),
        (None, None) => true,
        _ => false,
    }
}

/// The two configurations say the same, field by field.
pub open spec fn same_config(a: OciImageConfig, b: OciImageConfig) -> bool {
    &&& same_list(a.entrypoint, b.entrypoint)
    &&& same_list(a.cmd, b.cmd)
    &&& same_list(a.env, b.env)
    &&& text_view(a.working_dir) == text_view(b.working_dir)
    &&& same_list(a.exposed_ports, b.exposed_ports)
    &&& text_view(a.user) == text_view(b.user)
}

/// The two policies have the same registers with the same values, or neither is there.
pub open spec fn same_policy(
    a: Option<HashMap<u32, String>>,
    b: Option<HashMap<u32, String>>,
) -> bool {
    match (a, b) {
        (Some(x), Some(y)) => {
            &&& x@.dom() == y@.dom()
            &&& forall|k: u32| x@.dom().contains(k) ==> (#[trigger] x@[k])@ == y@[k]@
        },
        (None, None) => true,
        _ => false,
    }
}

/// The manifest describes an image of this digest, configuration, size and policy.
pub open spec fn tells(
    manifest: Manifest,
    digest: Seq<char>,
    config: OciImageConfig,
    size: u64,
    pcrs: Option<HashMap<u32, String>>,
) -> bool {
    &&& manifest.architecture@ == "amd64"@
    &&& manifest.digest@ == digest
    &&& same_config(manifest.config, config)
    &&& manifest.size == size
    &&& same_policy(manifest.pcr_policy, pcrs)
}

proof fn lemma_same_config(a: OciImageConfig, b: OciImageConfig)
    requires
        a@ == b@,
    ensures
        same_config(a, b),
{
    assert(a@.entrypoint == b@.entrypoint);
    assert(a@.cmd == b@.cmd);
    assert(a@.env == b@.env);
    assert(a@.exposed_ports == b@.exposed_ports);
}

proof fn lemma_same_policy(a: Option<HashMap<u32, String>>, b: Option<HashMap<u32, String>>)
    requires
        crate::build::finalize::policy(a) == crate::build::finalize::policy(b),
    ensures
        same_policy(a, b),
{
    match (a, b) {
        (Some(x), Some(y)) => {
            let f = x@.map_values(|value: String| value@);
            let g = y@.map_values(|value: String| value@);
            assert(f == g);
            assert(f.dom() =~= x@.dom());
            assert(g.dom() =~= y@.dom());
            assert forall|k: u32| x@.dom().contains(k) implies (#[trigger] x@[k])@ == y@[k]@ by {
                assert(f[k] == x@[k]@);
                assert(g[k] == y@[k]@);
            }
        },
        _ => {},
    }
}

/// Every manifest that is encoded or signed for a finished image has the configuration that the image
/// was to be made with, entry by entry, and so has the result.
pub proof fn manifests_carry_the_whole_configuration<K>(
    states: Seq<FinalizeFlow>,
    events: Seq<FinalizeEvent<K>>,
    steps: Seq<FinalizeStep<K>>,
    result: BuildResult,
    at: int,
)
    requires
        is_run(finalize_next::<K>(), states, events, steps),
        states[0].phase == FinalizePhase::Begin,
        states[0].pcrs is None,
        steps.len() > 0,
        steps.last() == FinalizeStep::<K>::Return(Ok(result)),
        0 <= at < steps.len(),
    ensures
        same_config(result.config, states[0].config),
        manifest_of(steps[at]) matches Some(manifest) ==> {
            &&& same_config(manifest.config, states[0].config)
            &&& manifest.architecture@ == "amd64"@
            &&& same_policy(manifest.pcr_policy, result.pcr_policy)
        },
        steps[at] matches Step::Do(FinalizeAction::Encode { manifest }) ==> manifest_of(steps[at])
            == Some(manifest),
        steps[at] matches Step::Do(FinalizeAction::Sign { manifest, .. }) ==> manifest_of(steps[at])
            == Some(manifest),
{
    manifests_say_what_was_found(states, events, steps, result);
    crate::build::finalize::finished_image_is_what_was_asked_for(states, events, steps, result);
    lemma_same_config(result.config, states[0].config);
    match manifest_of(steps[at]) {
        Some(manifest) => {
            assert(states.last().describes(manifest));
            lemma_same_config(manifest.config, states[0].config);
            lemma_same_policy(manifest.pcr_policy, result.pcr_policy);
        },
        None => {},
    }
}

/// The first `n` events of the making of an image where nothing goes wrong, up to the text of the
/// manifest. `pcrs` is what the boot was measured into, if it was.
pub open spec fn making_goes_well<K>(
    events: Seq<FinalizeEvent<K>>,
    hash: Seq<char>,
    pcrs: Option<HashMap<u32, String>>,
    size: u64,
    text: String,
    n: int,
) -> bool {
    let m: int = if pcrs is Some {
        1
    } else {
        0
    };
    &&& n > 0 ==> events[0] == FinalizeEvent::<K>::Start
    &&& n > 1 ==> (events[1] matches FinalizeEvent::Done(Ok(_)))
    &&& n > 2 ==> (events[2] matches FinalizeEvent::Done(Ok(_)))
    &&& n > 3 ==> (events[3] matches FinalizeEvent::Hashed(Ok(h)) && h@ == hash)
    &&& n > 4 && pcrs is Some ==> events[4] == FinalizeEvent::<K>::Measured(Ok(pcrs->0))
    &&& n > 4 + m ==> events[4 + m] == FinalizeEvent::<K>::Sized(Ok(size))
    &&& n > 5 + m ==> events[5 + m] == FinalizeEvent::<K>::Encoded(Ok(text))
    &&& n > 6 + m ==> (events[6 + m] matches FinalizeEvent::Done(Ok(_)))
}

/// An image is made of a root file system: its directory is created, the root file system is copied
/// into it and hashed, the boot is measured if that was asked for, and a manifest with all that was
/// found is written beside it. Then the key is looked for. The first thing that goes wrong ends it with
/// an error that says so.
pub proof fn image_is_made_of_the_rootfs<K>(
    states: Seq<FinalizeFlow>,
    events: Seq<FinalizeEvent<K>>,
    steps: Seq<FinalizeStep<K>>,
    hash: Seq<char>,
    pcrs: Option<HashMap<u32, String>>,
    size: u64,
    text: String,
    n: int,
)
    requires
        is_run(finalize_next::<K>(), states, events, steps),
        states[0].phase == FinalizePhase::Begin,
        states[0].pcrs is None,
        states[0].measured <==> pcrs is Some,
        0 <= n <= steps.len(),
        n <= 8,
        pcrs is None ==> n <= 7,
        making_goes_well(events, hash, pcrs, size, text, n),
    ensures
        ({
            let m: int = if pcrs is Some {
                1
            } else {
                0
            };
            let rootfs = joined_path(states[0].output_dir@, "rootfs.sqfs"@);
            let file = joined_path(states[0].output_dir@, "vyoma.toml"@);
            &&& n > 0 ==> (steps[0] matches Step::Do(FinalizeAction::CreateDir { path }) && path@
                == states[0].output_dir@)
            &&& n > 1 ==> (steps[1] matches Step::Do(FinalizeAction::Copy { from, to }) && from@
                == states[0].source@ && to@ == rootfs)
            &&& n > 2 ==> (steps[2] matches Step::Do(FinalizeAction::Hash { path }) && path@
                == rootfs)
            &&& n > 3 && m == 1 ==> (steps[3] matches Step::Do(FinalizeAction::Measure { rootfs: r })
                && r@ == rootfs)
            &&& n > 3 + m ==> (steps[3 + m] matches Step::Do(FinalizeAction::Size { path }) && path@
                == rootfs)
            &&& n > 4 + m ==> (steps[4 + m] matches Step::Do(FinalizeAction::Encode { manifest })
                && tells(manifest, "sha256:"@ + hash, states[0].config, size, pcrs))
            &&& n > 5 + m ==> (steps[5 + m] matches Step::Do(FinalizeAction::Write { path, content })
                && path@ == file && content == text)
            &&& n > 6 + m ==> (steps[6 + m] matches Step::Do(FinalizeAction::FindKey))
            &&& (n == 1 || n == 2) && n < steps.len() ==> (
            events[n] matches FinalizeEvent::Done(Err(e)) ==> io_error(steps[n], e@))
            &&& n == 3 < steps.len() ==> (events[3] matches FinalizeEvent::Hashed(Err(e))
                ==> execution_error(steps[3], "Failed to compute hash: "@ + e@))
            &&& n == 4 < steps.len() && m == 1 ==> (events[4] matches FinalizeEvent::Measured(Err(e))
                ==> steps[4] == FinalizeStep::<K>::Return(Err(e)))
            &&& n == 4 + m < steps.len() ==> (events[4 + m] matches FinalizeEvent::Sized(Err(e))
                ==> io_error(steps[4 + m], e@))
            &&& n == 5 + m < steps.len() ==> (events[5 + m] matches FinalizeEvent::Encoded(Err(e))
                ==> execution_error(steps[5 + m], e@))
            &&& n == 6 + m < steps.len() ==> (events[6 + m] matches FinalizeEvent::Done(Err(e))
                ==> io_error(steps[6 + m], e@))
        }),
{
    let m: int = if pcrs is Some {
        1
    } else {
        0
    };
    if n > 4 + m {
        match steps[4 + m] {
            Step::Do(FinalizeAction::Encode { manifest }) => {
                lemma_same_config(manifest.config, states[0].config);
                lemma_same_policy(manifest.pcr_policy, pcrs);
            },
            _ => {},
        }
    }
}

/// The image is what was asked for: its name, where its root file system and its manifest are, its
/// configuration and its policy.
pub open spec fn is_image<K>(
    step: FinalizeStep<K>,
    flow: FinalizeFlow,
    pcrs: Option<HashMap<u32, String>>,
    signed: bool,
) -> bool {
    step matches Step::Return(Ok(result)) && result.image_name@ == flow.image_name@
        && result.rootfs_path@ == joined_path(flow.output_dir@, "rootfs.sqfs"@)
        && result.manifest_path@ == joined_path(flow.output_dir@, "vyoma.toml"@) && same_config(
        result.config,
        flow.config,
    ) && same_policy(result.pcr_policy, pcrs) && result.manifest_signed == signed
}

/// With a key the same manifest is signed with it and saved beside the other, and the image is then
/// finished and signed. Without one an image that was to be measured is an error, and another is
/// finished unsigned. Trouble with the key, the signature or its file is an error.
pub proof fn image_is_signed_with_the_key<K>(
    states: Seq<FinalizeFlow>,
    events: Seq<FinalizeEvent<K>>,
    steps: Seq<FinalizeStep<K>>,
    hash: Seq<char>,
    pcrs: Option<HashMap<u32, String>>,
    size: u64,
    text: String,
    k: int,
)
    requires
        is_run(finalize_next::<K>(), states, events, steps),
        states[0].phase == FinalizePhase::Begin,
        states[0].pcrs is None,
        states[0].measured <==> pcrs is Some,
        k == (if pcrs is Some {
            8
        } else {
            7int
        }),
        steps.len() > k,
        making_goes_well(events, hash, pcrs, size, text, k),
    ensures
        events[k] matches FinalizeEvent::Key(Err(e)) ==> steps[k] == FinalizeStep::<K>::Return(
            Err(e),
        ),
        events[k] matches FinalizeEvent::Key(Ok(None)) ==> if pcrs is Some {
            execution_error(steps[k], "Measured build requested but no signing key available"@)
        } else {
            is_image(steps[k], states[0], pcrs, false)
        },
        events[k] matches FinalizeEvent::Key(Ok(Some(key))) ==> {
            &&& steps[k] matches Step::Do(FinalizeAction::Sign { manifest, key: by }) && by == key
                && tells(manifest, "sha256:"@ + hash, states[0].config, size, pcrs)
            &&& steps.len() > k + 1 ==> (events[k + 1] matches FinalizeEvent::Done(Err(e))
                ==> execution_error(steps[k + 1], "Failed to sign manifest: "@ + e@))
            &&& steps.len() > k + 1 ==> (events[k + 1] matches FinalizeEvent::Done(Ok(_)) ==> {
                &&& steps[k + 1] matches Step::Do(FinalizeAction::SaveSigned { path }) && path@
                    == joined_path(states[0].output_dir@, "vyoma.toml.sig"@)
                &&& steps.len() > k + 2 ==> (events[k + 2] matches FinalizeEvent::Done(Err(e))
                    ==> execution_error(steps[k + 2], "Failed to save signed manifest: "@ + e@))
                &&& steps.len() > k + 2 ==> (events[k + 2] matches FinalizeEvent::Done(Ok(_))
                    ==> is_image(steps[k + 2], states[0], pcrs, true))
            })
        },
{
    assert(states[k].phase == FinalizePhase::FindKey);
    assert(states[k].config == states[0].config);
    assert(states[k].pcrs == pcrs);
    assert(states[k].measured == states[0].measured);
    assert(states[k].output_dir == states[0].output_dir);
    assert(states[k].image_name == states[0].image_name);
    assert(states[k].digest@ == "sha256:"@ + hash);
    assert(states[k].size == size);
    assert(finalize_next::<K>()(states[k], events[k], states[k + 1], steps[k]));
    match steps[k] {
        Step::Do(FinalizeAction::Sign { manifest, .. }) => {
            lemma_same_config(manifest.config, states[0].config);
            lemma_same_policy(manifest.pcr_policy, pcrs);
        },
        Step::Return(Ok(result)) => {
            lemma_same_config(result.config, states[0].config);
            lemma_same_policy(result.pcr_policy, pcrs);
        },
        _ => {},
    }
    if steps.len() > k + 2 {
        assert(finalize_next::<K>()(states[k + 1], events[k + 1], states[k + 2], steps[k + 1]));
        assert(finalize_next::<K>()(states[k + 2], events[k + 2], states[k + 3], steps[k + 2]));
        match steps[k + 2] {
            Step::Return(Ok(result)) => {
                lemma_same_config(result.config, states[k].config);
                lemma_same_policy(result.pcr_policy, states[k].pcrs);
            },
            _ => {},
        }
    }
}

} // verus!
