//! What the init script of a VM says, and in which order.
use vstd::prelude::*;
use crate::image::ConfigView;
use crate::init_script::{
    export_lines, init_script, SCRIPT_HEAD, SCRIPT_OPTIONS, SCRIPT_ROOT, SCRIPT_TAIL,
};
use crate::shell::{escaped, escaped_words};
use crate::text::{contains_text, lemma_span_unique};

verus! {

/// The line that exports `value` under `key`.
pub open spec fn export_of(key: Seq<char>, value: Seq<char>) -> Seq<char> {
    "export "@ + escaped(key) + "="@ + escaped(value) + "\n"@
}

/// The command of a configuration: its entrypoint, followed by its arguments.
pub open spec fn command_of(config: ConfigView) -> Seq<Seq<char>> {
    (match config.entrypoint {
        Some(program) => program,
        None => Seq::empty(),
    }) + (match config.cmd {
        Some(args) => args,
        None => Seq::empty(),
    })
}

/// An entry of the environment is exported behind those before it, its key and its value each as a word
/// of their own. What has no `=` is not exported.
pub proof fn exports_stand_in_order(
    entries: Seq<Seq<char>>,
    entry: Seq<char>,
    key: Seq<char>,
    value: Seq<char>,
)
    requires
        !key.contains('='),
    ensures
        entry == key + "="@ + value ==> export_lines(entries.push(entry)) == export_lines(entries)
            + export_of(key, value),
        !entry.contains('=') ==> export_lines(entries.push(entry)) == export_lines(entries),
        export_lines(Seq::<Seq<char>>::empty()) == Seq::<char>::empty(),
{
    reveal_strlit("=");
    let all = entries.push(entry);
    assert(all.drop_last() =~= entries);
    if entry == key + "="@ + value {
        let n = key.len();
        let stop = |c: char| c == '=';
        assert(entry[n as int] == '=');
        assert forall|i: int| 0 <= i < n implies !stop(#[trigger] entry[i]) by {
            assert(entry[i] == key[i]);
            assert(key.contains(key[i]));
        }
        lemma_span_unique(entry, stop, n);
        assert(entry.take(n as int) =~= key);
        assert(entry.skip(n as int + 1) =~= value);
    }
    if !entry.contains('=') {
        assert(export_lines(all) =~= export_lines(entries));
    }
}

/// The script begins with its options and the essential file systems, and then gives the network device
/// the address and the default route that were asked for.
pub proof fn network_is_configured_first(
    config: ConfigView,
    ip_address: Seq<char>,
    gateway: Seq<char>,
)
    ensures
        (SCRIPT_OPTIONS@ + SCRIPT_HEAD@ + "/bin/busybox ip addr add "@ + ip_address
            + "/24 dev eth0 2>/dev/null || true\n"@
            + "/bin/busybox ip link set eth0 up 2>/dev/null || true\n"@
            + "/bin/busybox ip route add default via "@ + gateway
            + " 2>/dev/null || true\n"@).is_prefix_of(init_script(config, ip_address, gateway)),
{
    let net = "/bin/busybox ip addr add "@ + ip_address + "/24 dev eth0 2>/dev/null || true\n"@
        + "/bin/busybox ip link set eth0 up 2>/dev/null || true\n"@
        + "/bin/busybox ip route add default via "@ + gateway + " 2>/dev/null || true\n"@;
    let top = SCRIPT_OPTIONS@ + SCRIPT_HEAD@;
    let head = SCRIPT_OPTIONS@ + SCRIPT_HEAD@ + "/bin/busybox ip addr add "@ + ip_address
        + "/24 dev eth0 2>/dev/null || true\n"@
        + "/bin/busybox ip link set eth0 up 2>/dev/null || true\n"@
        + "/bin/busybox ip route add default via "@ + gateway + " 2>/dev/null || true\n"@;
    assert(head =~= top + net);
    let script = init_script(config, ip_address, gateway);
    assert(head =~= script.subrange(0, head.len() as int));
}

/// What the script does once the root file system is mounted: it enters the working directory, if there
/// is one, runs the command as escaped words, or a shell if there is none, keeps the agent alive, and
/// switches to the new root last of all.
pub open spec fn in_the_new_root(config: ConfigView) -> Seq<char> {
    SCRIPT_ROOT@ + (match config.working_dir {
        Some(dir) => "cd "@ + escaped(dir) + "\n"@,
        None => Seq::empty(),
    }) + (if command_of(config).len() > 0 {
        "(exec "@ + escaped_words(command_of(config)) + ")\n"@
    } else {
        "/bin/busybox sh\n"@
    }) + SCRIPT_TAIL@
}

/// Whatever the configuration, the script ends with what it does in the new root, and the switch to that
/// is its last line.
pub proof fn script_ends_in_the_new_root(
    config: ConfigView,
    ip_address: Seq<char>,
    gateway: Seq<char>,
)
    ensures
        ({
            let script = init_script(config, ip_address, gateway);
            let end = in_the_new_root(config);
            &&& end.len() <= script.len()
            &&& script.skip(script.len() - end.len()) == end
            &&& SCRIPT_TAIL@.len() <= script.len()
            &&& script.skip(script.len() - SCRIPT_TAIL@.len()) == SCRIPT_TAIL@
        }),
{
    let script = init_script(config, ip_address, gateway);
    let end = in_the_new_root(config);
    assert(command_of(config) =~= config.command());
    assert(script.skip(script.len() - end.len()) =~= end);
    assert(script.skip(script.len() - SCRIPT_TAIL@.len()) =~= SCRIPT_TAIL@);
}

proof fn lemma_one_export(
    entries: Seq<Seq<char>>,
    i: int,
    key: Seq<char>,
    value: Seq<char>,
) -> (r: (Seq<char>, Seq<char>))
    requires
        0 <= i < entries.len(),
        !key.contains('='),
        entries[i] == key + "="@ + value,
    ensures
        export_lines(entries) == r.0 + export_of(key, value) + r.1,
        r.0 == export_lines(entries.take(i)),
    decreases entries.len(),
{
    let init = entries.drop_last();
    assert(init.push(entries.last()) =~= entries);
    if i == entries.len() - 1 {
        exports_stand_in_order(init, entries.last(), key, value);
        assert(entries.take(i) =~= init);
        let none = Seq::<char>::empty();
        assert(export_lines(entries) =~= export_lines(init) + export_of(key, value) + none);
        (export_lines(init), none)
    } else {
        let (a, c) = lemma_one_export(init, i, key, value);
        assert(init.take(i) =~= entries.take(i));
        let last = crate::init_script::export_line(entries.last());
        assert(export_lines(entries) =~= a + export_of(key, value) + (c + last));
        (a, c + last)
    }
}

/// Every entry `KEY=value` of the environment is exported by a line of its own, and before the root file
/// system is mounted: what stands behind that line holds the mount and everything that is done in the
/// new root, so the command has the variable. The line stands behind those of the entries before it.
pub proof fn variable_is_exported_before_the_switch(
    config: ConfigView,
    ip_address: Seq<char>,
    gateway: Seq<char>,
    i: int,
    key: Seq<char>,
    value: Seq<char>,
)
    requires
        config.env is Some,
        0 <= i < config.env->0.len(),
        !key.contains('='),
        config.env->0[i] == key + "="@ + value,
    ensures
        exists|a: Seq<char>, c: Seq<char>|
            {
                &&& init_script(config, ip_address, gateway) == #[trigger] (a + export_of(key, value)
                    + c)
                &&& contains_text(c, SCRIPT_ROOT@)
                &&& in_the_new_root(config).len() <= c.len()
                &&& c.skip(c.len() - in_the_new_root(config).len()) == in_the_new_root(config)
                &&& (SCRIPT_OPTIONS@ + SCRIPT_HEAD@).is_prefix_of(a)
                &&& export_lines(config.env->0.take(i)).len() <= a.len()
                &&& a.skip(a.len() - export_lines(config.env->0.take(i)).len()) == export_lines(
                    config.env->0.take(i),
                )
            },
{
    let entries = config.env->0;
    let (x, y) = lemma_one_export(entries, i, key, value);
    let line = export_of(key, value);
    let script = init_script(config, ip_address, gateway);
    let top = SCRIPT_OPTIONS@ + SCRIPT_HEAD@;
    let net = crate::init_script::network_lines(ip_address, gateway);
    let dir = crate::init_script::workdir_export(config.working_dir);
    let end = in_the_new_root(config);
    assert(command_of(config) =~= config.command());
    let cd = crate::init_script::workdir_entry(config.working_dir);
    let run = crate::init_script::command_line(config.command());
    assert(end =~= SCRIPT_ROOT@ + (cd + run + SCRIPT_TAIL@));
    let lines = export_lines(entries);
    let a = top + net + x;
    let c = y + dir + end;
    lemma_regroup(top, net, lines, dir, SCRIPT_ROOT@, cd, run, SCRIPT_TAIL@);
    assert(script == top + net + lines + dir + end);
    assert(top + net + (x + line + y) + dir + end =~= a + line + c);
    assert(script == a + line + c);
    let m = (y + dir).len() as int;
    assert(c.subrange(m, m + SCRIPT_ROOT@.len()) =~= SCRIPT_ROOT@);
    assert(c.skip(c.len() - end.len()) =~= end);
    assert(top =~= a.subrange(0, top.len() as int));
    assert(a.skip(a.len() - x.len()) =~= x);
}

proof fn lemma_regroup(
    top: Seq<char>,
    net: Seq<char>,
    lines: Seq<char>,
    dir: Seq<char>,
    root: Seq<char>,
    cd: Seq<char>,
    run: Seq<char>,
    tail: Seq<char>,
)
    ensures
        top + net + lines + dir + root + cd + run + tail == top + net + lines + dir + (root + cd
            + run + tail),
{
    assert(top + net + lines + dir + root + cd + run + tail =~= top + net + lines + dir + (root + cd
        + run + tail));
}

/// The working directory is exported behind the environment and right before the root file system is
/// mounted.
pub proof fn working_directory_is_exported(
    config: ConfigView,
    ip_address: Seq<char>,
    gateway: Seq<char>,
    dir: Seq<char>,
)
    requires
        config.working_dir == Some(dir),
    ensures
        ({
            let script = init_script(config, ip_address, gateway);
            let end = "export VWORKDIR="@ + escaped(dir) + "\n"@ + in_the_new_root(config);
            &&& end.len() <= script.len()
            &&& script.skip(script.len() - end.len()) == end
        }),
{
    let script = init_script(config, ip_address, gateway);
    assert(command_of(config) =~= config.command());
    let line = "export VWORKDIR="@ + escaped(dir) + "\n"@;
    let end = line + in_the_new_root(config);
    assert(script.skip(script.len() - end.len()) =~= end);
}

/// Without a working directory nothing stands between the environment and the mount of the root file
/// system, and without an environment nothing stands before that but the network.
pub proof fn script_says_no_more(config: ConfigView, ip_address: Seq<char>, gateway: Seq<char>)
    requires
        config.working_dir is None,
        config.env is None,
    ensures
        init_script(config, ip_address, gateway).len() == (SCRIPT_OPTIONS@ + SCRIPT_HEAD@
            + "/bin/busybox ip addr add "@ + ip_address + "/24 dev eth0 2>/dev/null || true\n"@
            + "/bin/busybox ip link set eth0 up 2>/dev/null || true\n"@
            + "/bin/busybox ip route add default via "@ + gateway
            + " 2>/dev/null || true\n"@).len() + in_the_new_root(config).len(),
{
    assert(command_of(config) =~= config.command());
}

/// The command line of a configuration is its entrypoint followed by its arguments.
pub proof fn arguments_follow_the_entrypoint(config: ConfigView)
    ensures
        config.command() == command_of(config),
{
    assert(command_of(config) =~= config.command());
}

} // verus!
