//! The script that runs as the first process inside a VM.
use vstd::prelude::*;
use vstd::string::*;
use crate::image::{ConfigView, OciImageConfig};
use crate::shell::{
    escaped, escaped_words, shell_escape, shell_reads_escaped_words_back, shell_words,
};
use crate::text::{contains_text, join, span, split_once, texts};

verus! {

/// Interpreter line and defensive shell options: stop at an error, treat an unset variable as an
/// error, and power off on an error.
pub const SCRIPT_OPTIONS: &'static str = "#!/bin/sh\nset -e\nset -u\ntrap 'echo Init error at line $LINENO; /bin/busybox poweroff -f' ERR\n\n";

/// The essential file systems, and the wait for the network device.
pub const SCRIPT_HEAD: &'static str = "/bin/busybox mkdir -p /proc /sys /dev\n/bin/busybox mount -t proc proc /proc 2>/dev/null || true\n/bin/busybox mount -t sysfs sys /sys 2>/dev/null || true\n/bin/busybox mount -t devtmpfs dev /dev 2>/dev/null || true\n/bin/busybox ip link set lo up 2>/dev/null || true\n# Wait for eth0 to appear (virtio-net driver might take a moment)\nwhile ! /bin/busybox ip link show eth0 >/dev/null 2>&1; do\n  /bin/busybox sleep 0.1\ndone\n# Configure eth0 manually\n";

/// The root file system, the agent, and the beginning of the script that starts in the new root.
pub const SCRIPT_ROOT: &'static str = "# Mount container rootfs using overlayfs\n/bin/busybox mkdir -p /lower\n# Wait for /dev/vda to appear\nwhile [ ! -b /dev/vda ]; do /bin/busybox sleep 0.1; done\n/bin/busybox mount -r -t squashfs /dev/vda /lower 2>/dev/null || /bin/busybox mount -r /dev/vda /lower 2>/dev/null || /bin/busybox mount -t tmpfs tmpfs /lower\n/bin/busybox mkdir -p /overlay\n/bin/busybox mount -t tmpfs tmpfs /overlay\n/bin/busybox mkdir -p /overlay/upper /overlay/work\n/bin/busybox mkdir -p /sysroot\n/bin/busybox mount -t overlay overlay -o lowerdir=/lower,upperdir=/overlay/upper,workdir=/overlay/work /sysroot\n# Inject agent into container\n/bin/busybox mkdir -p /sysroot/mnt\n/bin/busybox cp /sbin/vyoma-agent-vm /sysroot/mnt/vyoma-agent-vm\n/bin/busybox chmod +x /sysroot/mnt/vyoma-agent-vm\n/bin/busybox mkdir -p /sysroot/bin\n/bin/busybox cp /bin/busybox /sysroot/bin/busybox 2>/dev/null || true\ncat << 'EOF' > /sysroot/mnt/start.sh\n#!/bin/busybox sh\n/bin/busybox mkdir -p /proc /sys /dev\n/bin/busybox mount -t proc proc /proc || true\n/bin/busybox mount -t sysfs sys /sys || true\n/bin/busybox mount -t devtmpfs dev /dev || true\n/bin/busybox --install -s /bin || true\n/mnt/vyoma-agent-vm > /dev/console 2>&1 &\n";

/// The end of the script that starts in the new root, and the switch to it. The loop keeps the
/// agent alive where the command could not be run.
pub const SCRIPT_TAIL: &'static str = "while true; do /bin/busybox sleep 3600; done\nEOF\n/bin/busybox chmod +x /sysroot/mnt/start.sh\nexec /bin/busybox switch_root -- /sysroot /mnt/start.sh\n";

/// The lines that give `eth0` its address and its default route.
pub open spec fn network_lines(ip_address: Seq<char>, gateway: Seq<char>) -> Seq<char> {
    "/bin/busybox ip addr add "@ + ip_address + "/24 dev eth0 2>/dev/null || true\n"@
        + "/bin/busybox ip link set eth0 up 2>/dev/null || true\n"@
        + "/bin/busybox ip route add default via "@ + gateway + " 2>/dev/null || true\n"@
}

/// The line that exports the environment entry `entry`. An entry without `=` has none.
pub open spec fn export_line(entry: Seq<char>) -> Seq<char> {
    if entry.contains('=') {
        let n = span(entry, |c: char| c == '=') as int;
        "export "@ + escaped(entry.take(n)) + "="@ + escaped(entry.skip(n + 1)) + "\n"@
    } else {
        Seq::empty()
    }
}

/// The export lines of all of `entries`.
pub open spec fn export_lines(entries: Seq<Seq<char>>) -> Seq<char>
    decreases entries.len(),
{
    if entries.len() == 0 {
        Seq::empty()
    } else {
        export_lines(entries.drop_last()) + export_line(entries.last())
    }
}

/// The export lines of an optional environment.
pub open spec fn env_lines(env: Option<Seq<Seq<char>>>) -> Seq<char> {
    match env {
        Some(entries) => export_lines(entries),
        None => Seq::empty(),
    }
}

/// The line that exports the working directory.
pub open spec fn workdir_export(dir: Option<Seq<char>>) -> Seq<char> {
    match dir {
        Some(d) => "export VWORKDIR="@ + escaped(d) + "\n"@,
        None => Seq::empty(),
    }
}

/// The line that enters the working directory.
pub open spec fn workdir_entry(dir: Option<Seq<char>>) -> Seq<char> {
    match dir {
        Some(d) => "cd "@ + escaped(d) + "\n"@,
        None => Seq::empty(),
    }
}

/// The line that runs the command in the foreground, in a shell of its own, so that a command
/// that cannot be run does not end the script. Without a command it is an interactive shell.
pub open spec fn command_line(command: Seq<Seq<char>>) -> Seq<char> {
    if command.len() > 0 {
        "(exec "@ + escaped_words(command) + ")\n"@
    } else {
        "/bin/busybox sh\n"@
    }
}

/// The init script for an image configuration and a network address.
pub open spec fn init_script(config: ConfigView, ip_address: Seq<char>, gateway: Seq<char>) -> Seq<
    char,
> {
    SCRIPT_OPTIONS@ + SCRIPT_HEAD@ + network_lines(ip_address, gateway) + env_lines(
        config.env,
    ) + workdir_export(
        config.working_dir,
    ) + SCRIPT_ROOT@ + workdir_entry(config.working_dir) + command_line(config.command())
        + SCRIPT_TAIL@
}

/// Appends the export line of one environment entry.
fn push_export(script: &mut String, entry: &str)
    ensures
        final(script)@ == old(script)@ + export_line(entry@),
{
    let ghost before = script@;
    if let Some((key, value)) = split_once(entry, '=') {
        script.append("export ");
        script.append(shell_escape(key.as_str()).as_str());
        script.append("=");
        script.append(shell_escape(value.as_str()).as_str());
        script.append("\n");
    }
    assert(script@ =~= before + export_line(entry@));
}

/// Appends the export lines of an environment.
fn push_exports(script: &mut String, entries: &Vec<String>)
    ensures
        final(script)@ == old(script)@ + export_lines(texts(*entries)),
{
    let ghost before = script@;
    let ghost all = texts(*entries);
    let mut i: usize = 0;
    assert(script@ =~= before + export_lines(all.take(0)));
    while i < entries.len()
        invariant
            i <= entries@.len(),
            all == texts(*entries),
            script@ == before + export_lines(all.take(i as int)),
        decreases entries@.len() - i,
    {
        push_export(script, entries[i].as_str());
        i = i + 1;
        assert(all.take(i as int).drop_last() =~= all.take(i - 1));
        assert(script@ =~= before + export_lines(all.take(i as int)));
    }
    assert(all.take(i as int) =~= all);
}

/// The words of `command` as shell words.
fn escape_all(command: &Vec<String>) -> (r: Vec<String>)
    ensures
        texts(r) == texts(*command).map_values(|w: Seq<char>| escaped(w)),
{
    let mut r: Vec<String> = Vec::new();
    let mut i: usize = 0;
    let ghost all = texts(*command).map_values(|w: Seq<char>| escaped(w));
    while i < command.len()
        invariant
            i <= command@.len(),
            all == texts(*command).map_values(|w: Seq<char>| escaped(w)),
            texts(r) == all.take(i as int),
        decreases command@.len() - i,
    {
        let ghost before = texts(r);
        let word = shell_escape(command[i].as_str());
        r.push(word);
        assert(texts(r) =~= before.push(word@));
        i = i + 1;
        assert(texts(r) =~= all.take(i as int));
    }
    assert(texts(r) =~= all);
    r
}

/// Generates the init script that runs as the first process inside the VM.
///
/// The script stops at the first error (`set -e`), treats unset variables as errors (`set -u`),
/// and powers the VM off on an error (`trap ... ERR`). Environment, working directory and command
/// of the image are written as escaped shell words.
pub fn generate_init_script(config: &OciImageConfig, ip_address: &str, gateway: &str) -> (r: String)
    ensures
        r@ == init_script(config@, ip_address@, gateway@),
{
    let mut script = String::new();
    script.append(SCRIPT_OPTIONS);
    script.append(SCRIPT_HEAD);
    script.append("/bin/busybox ip addr add ");
    script.append(ip_address);
    script.append("/24 dev eth0 2>/dev/null || true\n");
    script.append("/bin/busybox ip link set eth0 up 2>/dev/null || true\n");
    script.append("/bin/busybox ip route add default via ");
    script.append(gateway);
    script.append(" 2>/dev/null || true\n");
    assert(script@ =~= SCRIPT_OPTIONS@ + SCRIPT_HEAD@ + network_lines(ip_address@, gateway@));
    let ghost s1 = script@;
    if let Some(entries) = &config.env {
        push_exports(&mut script, entries);
    }
    assert(script@ =~= s1 + env_lines(config@.env));
    let ghost s2 = script@;
    if let Some(dir) = &config.working_dir {
        script.append("export VWORKDIR=");
        script.append(shell_escape(dir.as_str()).as_str());
        script.append("\n");
    }
    assert(script@ =~= s2 + workdir_export(config@.working_dir));
    script.append(SCRIPT_ROOT);
    let ghost s3 = script@;
    if let Some(dir) = &config.working_dir {
        script.append("cd ");
        script.append(shell_escape(dir.as_str()).as_str());
        script.append("\n");
    }
    assert(script@ =~= s3 + workdir_entry(config@.working_dir));
    let ghost s4 = script@;
    let command = config.full_command();
    if command.len() > 0 {
        script.append("(exec ");
        script.append(join(&escape_all(&command), " ").as_str());
        script.append(")\n");
    } else {
        script.append("/bin/busybox sh\n");
    }
    assert(script@ =~= s4 + command_line(config@.command()));
    script.append(SCRIPT_TAIL);
    script
}

/// A text between two others stands in the whole.
proof fn lemma_contains_middle(a: Seq<char>, b: Seq<char>, c: Seq<char>)
    ensures
        contains_text(a + b + c, b),
{
    let s = a + b + c;
    assert(s.subrange(a.len() as int, (a.len() + b.len()) as int) =~= b);
}

/// A text that stands in the middle of a middle stands in the whole.
proof fn lemma_contains_nested(
    head: Seq<char>,
    a: Seq<char>,
    b: Seq<char>,
    c: Seq<char>,
    tail: Seq<char>,
)
    ensures
        contains_text(head + (a + b + c) + tail, b),
{
    assert(head + (a + b + c) + tail =~= (head + a) + b + (c + tail));
    lemma_contains_middle(head + a, b, c + tail);
}

/// The first three, the fourth and the last five of nine texts make up the same whole.
proof fn lemma_group(
    a: Seq<char>,
    b: Seq<char>,
    c: Seq<char>,
    d: Seq<char>,
    e: Seq<char>,
    f: Seq<char>,
    g: Seq<char>,
    h: Seq<char>,
    i: Seq<char>,
)
    ensures
        a + b + c + d + e + f + g + h + i == (a + b + c) + d + (e + f + g + h + i),
{
    let head = a + b + c + d;
    assert(head + e + f + g + h + i =~= head + (e + f + g + h + i));
}

proof fn lemma_export_lines_hold(entries: Seq<Seq<char>>, i: int)
    requires
        0 <= i < entries.len(),
    ensures
        exists|a: Seq<char>, c: Seq<char>|
            export_lines(entries) == #[trigger] (a + export_line(entries[i]) + c),
    decreases entries.len(),
{
    let init = entries.drop_last();
    let last = export_line(entries.last());
    if i == entries.len() - 1 {
        assert(export_lines(entries) =~= export_lines(init) + export_line(entries[i]) + Seq::<
            char,
        >::empty());
    } else {
        lemma_export_lines_hold(init, i);
        let (a, c) = choose|a: Seq<char>, c: Seq<char>|
            export_lines(init) == #[trigger] (a + export_line(init[i]) + c);
        assert(export_lines(entries) =~= a + export_line(entries[i]) + (c + last));
    }
}

/// Every environment entry of the form `KEY=value` is exported by a line of its own, and the
/// entry's key and value stand in it as escaped words.
pub proof fn script_exports_every_entry(
    config: ConfigView,
    ip_address: Seq<char>,
    gateway: Seq<char>,
    i: int,
)
    requires
        config.env is Some,
        0 <= i < config.env->0.len(),
    ensures
        contains_text(init_script(config, ip_address, gateway), export_line(config.env->0[i])),
{
    let entries = config.env->0;
    lemma_export_lines_hold(entries, i);
    let line = export_line(entries[i]);
    let (a, c) = choose|a: Seq<char>, c: Seq<char>|
        export_lines(entries) == #[trigger] (a + export_line(entries[i]) + c);
    let head = SCRIPT_OPTIONS@ + SCRIPT_HEAD@ + network_lines(ip_address, gateway);
    let tail = workdir_export(config.working_dir) + SCRIPT_ROOT@ + workdir_entry(config.working_dir)
        + command_line(config.command()) + SCRIPT_TAIL@;
    lemma_group(
        SCRIPT_OPTIONS@,
        SCRIPT_HEAD@,
        network_lines(ip_address, gateway),
        export_lines(entries),
        workdir_export(config.working_dir),
        SCRIPT_ROOT@,
        workdir_entry(config.working_dir),
        command_line(config.command()),
        SCRIPT_TAIL@,
    );
    assert(init_script(config, ip_address, gateway) == head + export_lines(entries) + tail);
    lemma_contains_nested(head, a, line, c, tail);
}

/// The script enters the working directory of the image.
pub proof fn script_enters_working_dir(
    config: ConfigView,
    ip_address: Seq<char>,
    gateway: Seq<char>,
)
    requires
        config.working_dir is Some,
    ensures
        contains_text(
            init_script(config, ip_address, gateway),
            "cd "@ + escaped(config.working_dir->0),
        ),
{
    let entry = "cd "@ + escaped(config.working_dir->0);
    let head = SCRIPT_OPTIONS@ + SCRIPT_HEAD@ + network_lines(ip_address, gateway) + env_lines(config.env)
        + workdir_export(config.working_dir) + SCRIPT_ROOT@;
    let tail = "\n"@ + command_line(config.command()) + SCRIPT_TAIL@;
    assert(init_script(config, ip_address, gateway) =~= head + entry + tail);
    lemma_contains_middle(head, entry, tail);
}

/// The script runs the command of the image, if it has one, as escaped words behind `exec`. A shell
/// reads these words as the command, if none of its words is empty.
pub proof fn script_runs_command(config: ConfigView, ip_address: Seq<char>, gateway: Seq<char>)
    requires
        config.command().len() > 0,
    ensures
        contains_text(
            init_script(config, ip_address, gateway),
            "exec "@ + escaped_words(config.command()),
        ),
        (forall|i: int| 0 <= i < config.command().len() ==> (#[trigger] config.command()[i]).len() > 0)
            ==> shell_words(escaped_words(config.command())) == Some(config.command()),
{
    if forall|i: int| 0 <= i < config.command().len() ==> (#[trigger] config.command()[i]).len() > 0 {
        shell_reads_escaped_words_back(config.command());
    }
    reveal_strlit("(exec ");
    reveal_strlit("exec ");
    let run = "exec "@ + escaped_words(config.command());
    let head = SCRIPT_OPTIONS@ + SCRIPT_HEAD@ + network_lines(ip_address, gateway) + env_lines(config.env)
        + workdir_export(config.working_dir) + SCRIPT_ROOT@ + workdir_entry(config.working_dir)
        + seq!['('];
    let tail = ")\n"@ + SCRIPT_TAIL@;
    assert("(exec "@ =~= seq!['('] + "exec "@);
    assert(init_script(config, ip_address, gateway) =~= head + run + tail);
    lemma_contains_middle(head, run, tail);
}

/// Whatever the configuration, the script begins with the defensive shell options.
pub proof fn script_begins_with_defensive_options(
    config: ConfigView,
    ip_address: Seq<char>,
    gateway: Seq<char>,
)
    ensures
        SCRIPT_OPTIONS@.is_prefix_of(init_script(config, ip_address, gateway)),
{
    let script = init_script(config, ip_address, gateway);
    assert(SCRIPT_OPTIONS@ =~= script.subrange(0, SCRIPT_OPTIONS@.len() as int));
}

} // verus!
