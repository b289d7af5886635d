//! Where the agent and busybox are looked for.
use vstd::prelude::*;
use crate::agent::{busybox_sites, found_agent, search_sites, standard_sites};
use crate::path::{first_present, first_present_is_first, joined_path, path_parent};

verus! {

/// The first of the candidates that is there is the one that is taken.
pub proof fn first_that_is_there_is_taken(candidates: Seq<Seq<char>>, present: Seq<bool>, i: int)
    requires
        candidates.len() == present.len(),
        0 <= i < present.len(),
        present[i],
        forall|j: int| 0 <= j < i ==> !#[trigger] present[j],
    ensures
        first_present(candidates, present) == Some(candidates[i]),
{
    first_present_is_first(candidates, present);
    match first_present(candidates, present) {
        Some(path) => {
            let k = choose|k: int|
                0 <= k < present.len() && present[k] && #[trigger] candidates[k] == path && forall|
                    j: int,
                |
                    0 <= j < k ==> !#[trigger] present[j];
            assert(candidates[k] == path);
            if k < i {
                assert(!present[k]);
            } else if i < k {
                assert(!present[i]);
            }
        },
        None => {},
    }
}

/// None is taken where none is there.
pub proof fn nothing_is_taken_where_nothing_is(candidates: Seq<Seq<char>>, present: Seq<bool>)
    requires
        candidates.len() == present.len(),
        forall|j: int| 0 <= j < present.len() ==> !#[trigger] present[j],
    ensures
        first_present(candidates, present) is None,
{
    first_present_is_first(candidates, present);
}

/// The agent is looked for in the build that the program comes from, beside the program, in the two
/// directories of the system, and in the data directory, in this order.
pub proof fn agent_is_looked_for_near_the_program_first(
    exe: Seq<char>,
    dir: Seq<char>,
    target: Seq<char>,
    data_dir: Seq<char>,
)
    requires
        path_parent(exe) == Some(dir),
        path_parent(dir) == Some(target),
    ensures
        standard_sites(Some(exe), data_dir) == seq![
            joined_path(target, "x86_64-unknown-linux-musl/release/vyoma-agent-vm"@),
            joined_path(dir, "vyoma-agent-vm"@),
            "/usr/bin/vyoma-agent-vm"@,
            "/usr/lib/vyoma/vyoma-agent-vm"@,
            joined_path(joined_path(data_dir, "bin"@), "vyoma-agent-vm"@),
        ],
{
    assert(standard_sites(Some(exe), data_dir) =~= seq![
        joined_path(target, "x86_64-unknown-linux-musl/release/vyoma-agent-vm"@),
        joined_path(dir, "vyoma-agent-vm"@),
        "/usr/bin/vyoma-agent-vm"@,
        "/usr/lib/vyoma/vyoma-agent-vm"@,
        joined_path(joined_path(data_dir, "bin"@), "vyoma-agent-vm"@),
    ]);
}

/// Where the program is not known, or is in no directory, only the other places are left; and where its
/// directory is in none, the build is not looked at.
pub proof fn agent_is_looked_for_in_the_system(exe: Option<Seq<char>>, data_dir: Seq<char>)
    ensures
        ({
            let rest = seq![
                "/usr/bin/vyoma-agent-vm"@,
                "/usr/lib/vyoma/vyoma-agent-vm"@,
                joined_path(joined_path(data_dir, "bin"@), "vyoma-agent-vm"@),
            ];
            &&& exe is None || path_parent(exe->0) is None ==> standard_sites(exe, data_dir) == rest
            &&& exe is Some && path_parent(exe->0) is Some && path_parent(
                path_parent(exe->0)->0,
            ) is None ==> standard_sites(exe, data_dir) == seq![
                joined_path(path_parent(exe->0)->0, "vyoma-agent-vm"@),
            ] + rest
        }),
{
    let rest = seq![
        "/usr/bin/vyoma-agent-vm"@,
        "/usr/lib/vyoma/vyoma-agent-vm"@,
        joined_path(joined_path(data_dir, "bin"@), "vyoma-agent-vm"@),
    ];
    if exe is None || path_parent(exe->0) is None {
        assert(standard_sites(exe, data_dir) =~= rest);
    } else if path_parent(path_parent(exe->0)->0) is None {
        assert(standard_sites(exe, data_dir) =~= seq![
            joined_path(path_parent(exe->0)->0, "vyoma-agent-vm"@),
        ] + rest);
    }
}

/// Along the search path every directory is looked at, in order.
pub proof fn search_path_is_looked_at_in_order(dirs: Seq<Seq<char>>, i: int)
    requires
        0 <= i < dirs.len(),
    ensures
        search_sites(Some(dirs)).len() == dirs.len(),
        search_sites(Some(dirs))[i] == joined_path(dirs[i], "vyoma-agent-vm"@),
        search_sites(None).len() == 0,
{
}

/// The search path decides exactly where no standard place has the agent.
pub proof fn search_path_comes_last(
    standard: Seq<Seq<char>>,
    standard_present: Seq<bool>,
    search: Seq<Seq<char>>,
    search_present: Seq<bool>,
)
    requires
        standard.len() == standard_present.len(),
        search.len() == search_present.len(),
    ensures
        (forall|j: int| 0 <= j < standard_present.len() ==> !#[trigger] standard_present[j])
            ==> found_agent(standard, standard_present, search, search_present) == first_present(
            search,
            search_present,
        ),
        (exists|j: int| 0 <= j < standard_present.len() && #[trigger] standard_present[j])
            ==> found_agent(standard, standard_present, search, search_present) == first_present(
            standard,
            standard_present,
        ),
{
    first_present_is_first(standard, standard_present);
}

/// Busybox is taken from the data of the service before the system.
pub proof fn own_busybox_comes_first(own: bool, system: bool)
    ensures
        first_present(busybox_sites(), seq![own, system]) == (if own {
            Some("/var/lib/vyoma/bin/busybox"@)
        } else if system {
            Some("/usr/bin/busybox"@)
        } else {
            None
        }),
{
    let c = busybox_sites();
    let p = seq![own, system];
    if own {
        first_that_is_there_is_taken(c, p, 0);
    } else if system {
        first_that_is_there_is_taken(c, p, 1);
    } else {
        nothing_is_taken_where_nothing_is(c, p);
    }
}

} // verus!
