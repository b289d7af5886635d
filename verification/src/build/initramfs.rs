//! The initial RAM file system of a build VM.
use vstd::prelude::*;
use vstd::string::*;
use crate::agent::{busybox_candidates, busybox_sites, InitramfsRequest};
use crate::build::error::{BuildError, ErrorKind};
use crate::build::runner::BuildRunner;
use crate::image::text_view;
use crate::path::{choose_present, first_present, join_path, joined_path};
use crate::text::{concat2, concat3};

verus! {

/// The build script up to the question whether the disk has taken too long to appear.
pub const BUILD_SCRIPT_START: &'static str = "#!/bin/busybox sh\n\n/bin/busybox mount -t proc proc /proc\n/bin/busybox mount -t sysfs sys /sys\n/bin/busybox mount -t devtmpfs dev /dev\n\n# Wait for the target root filesystem to appear (max 50 tries)\ntries=0\nwhile [ ! -b /dev/vda ]; do\n    /bin/busybox sleep 0.1\n    tries=$((tries + 1))\n";

/// What the build script does when the disk does not appear in time, and the end of the attempts.
pub const BUILD_SCRIPT_TIMEOUT: &'static str = "    if [ $tries -ge 50 ]; then\n        echo \"Build VM: Timed out waiting for /dev/vda\"\n        echo \"Build VM: Contents of /dev:\"\n        /bin/busybox ls -la /dev\n        /bin/busybox poweroff -f\n        exit 1\n    fi\ndone\n";

/// The build script from the mounts of the disk up to the command, which is written to a file.
pub const BUILD_SCRIPT_MOUNT: &'static str = "\n/bin/busybox mkdir -p /mnt/root\n/bin/busybox mount /dev/vda /mnt/root\n\n# Mount essential filesystems for chroot\n/bin/busybox mount -t proc proc /mnt/root/proc\n/bin/busybox mount -t sysfs sys /mnt/root/sys\n/bin/busybox mount --bind /dev /mnt/root/dev\n/bin/busybox mount -t devpts pts /mnt/root/dev/pts 2>/dev/null || true\n\necho \"Build VM: Executing command...\"\n\ncat > /mnt/root/vyoma-build.sh << 'VYOMAEOF'\n#!/bin/sh\nset -e\n";

/// The build script behind the command: it runs the file, unmounts everything and powers off.
pub const BUILD_SCRIPT_TAIL: &'static str = "\nVYOMAEOF\nchmod +x /mnt/root/vyoma-build.sh\n\nchroot /mnt/root /vyoma-build.sh\n\n# Capture exit code\nexit_code=$?\necho \"Build VM: Command completed with exit code: $exit_code\"\n\n# Unmount filesystems safely\numount /mnt/root/proc 2>/dev/null || true\numount /mnt/root/sys 2>/dev/null || true\numount /mnt/root/dev 2>/dev/null || true\numount /mnt/root 2>/dev/null || true\nsync\n\n# Power off (this will cause Cloud Hypervisor to exit)\npoweroff -f\n";

/// The init script of a VM that runs `command`.
pub open spec fn build_script(command: Seq<char>) -> Seq<char> {
    BUILD_SCRIPT_START@ + BUILD_SCRIPT_TIMEOUT@ + BUILD_SCRIPT_MOUNT@ + command + BUILD_SCRIPT_TAIL@
}

/// The file that holds the initial RAM file system of build VMs.
pub open spec fn build_initramfs(temp_dir: Seq<char>) -> Seq<char> {
    joined_path(temp_dir, "build-initramfs.cpio.gz"@)
}

/// The init script of a VM that runs `command`.
pub fn generate_build_script(command: &str) -> (r: String)
    ensures
        r@ == build_script(command@),
{
    let mut r = concat3(BUILD_SCRIPT_START, BUILD_SCRIPT_TIMEOUT, BUILD_SCRIPT_MOUNT);
    r.append(command);
    r.append(BUILD_SCRIPT_TAIL);
    r
}

impl BuildRunner {
    /// The initial RAM file system for a VM that runs `command`. `busybox_present` says which of
    /// the candidates for busybox exist.
    pub fn create_build_initramfs(&self, command: &str, busybox_present: &Vec<bool>) -> (r:
        InitramfsRequest)
        ensures
            r.script@ == build_script(command@),
            r.agent is None,
            text_view(r.busybox) == first_present(busybox_sites(), busybox_present@),
            r.path@ == build_initramfs(self.temp_dir@),
    {
        InitramfsRequest {
            script: generate_build_script(command),
            agent: None,
            busybox: choose_present(&busybox_candidates(), busybox_present),
            path: join_path(self.temp_dir.as_str(), "build-initramfs.cpio.gz"),
        }
    }
}

/// The initial RAM file system at `path`, if it has been `created`.
pub fn build_initramfs_result(path: String, created: Result<(), String>) -> (r: Result<
    String,
    BuildError,
>)
    ensures
        match created {
            Ok(_) => r == Ok::<String, BuildError>(path),
            Err(e) => r matches Err(error) && error.says(
                ErrorKind::Vm,
                "Failed to create build initramfs: "@ + e@,
            ),
        },
{
    match created {
        Ok(_) => Ok(path),
        Err(e) => Err(
            BuildError::new(
                ErrorKind::Vm,
                concat2("Failed to create build initramfs: ", e.as_str()),
            ),
        ),
    }
}

/// `part` stands in `s` at `i`.
pub open spec fn stands_at(s: Seq<char>, part: Seq<char>, i: int) -> bool {
    0 <= i && i + part.len() <= s.len() && s.subrange(i, i + part.len()) == part
}

proof fn lemma_letters(s: Seq<char>, i: int)
    requires
        stands_at(s, "poweroff"@, i),
    ensures
        "poweroff"@.len() == 8,
        s[i] == 'p',
        s[i + 1] == 'o',
        s[i + 2] == 'w',
        forall|k: int| i <= k < i + 8 ==> #[trigger] s[k] != '\n',
{
    reveal_strlit("poweroff");
    let found = s.subrange(i, i + 8);
    assert(found[0] == s[i] && found[1] == s[i + 1] && found[2] == s[i + 2]);
    assert forall|k: int| i <= k < i + 8 implies #[trigger] s[k] != '\n' by {
        assert(found[k - i] == s[k]);
        assert("poweroff"@[k - i] != '\n');
    }
}

proof fn lemma_start(i: int)
    ensures
        !stands_at(BUILD_SCRIPT_START@, "poweroff"@, i),
        BUILD_SCRIPT_START@.len() > 0,
        BUILD_SCRIPT_START@.last() == '\n',
{
    reveal_strlit(
        "#!/bin/busybox sh\n\n/bin/busybox mount -t proc proc /proc\n/bin/busybox mount -t sysfs sys /sys\n/bin/busybox mount -t devtmpfs dev /dev\n\n# Wait for the target root filesystem to appear (max 50 tries)\ntries=0\nwhile [ ! -b /dev/vda ]; do\n    /bin/busybox sleep 0.1\n    tries=$((tries + 1))\n",
    );
    let s = BUILD_SCRIPT_START@;
    assert forall|k: int| 0 < k < s.len() && #[trigger] s[k] == 'w' implies s[k - 1] != 'o' by {}
    if stands_at(s, "poweroff"@, i) {
        lemma_letters(s, i);
    }
}

proof fn lemma_timeout()
    ensures
        BUILD_SCRIPT_TIMEOUT@.len() > 0,
        BUILD_SCRIPT_TIMEOUT@.last() == '\n',
{
    reveal_strlit(
        "    if [ $tries -ge 50 ]; then\n        echo \"Build VM: Timed out waiting for /dev/vda\"\n        echo \"Build VM: Contents of /dev:\"\n        /bin/busybox ls -la /dev\n        /bin/busybox poweroff -f\n        exit 1\n    fi\ndone\n",
    );
}

proof fn lemma_mount(i: int)
    ensures
        !stands_at(BUILD_SCRIPT_MOUNT@, "poweroff"@, i),
{
    reveal_strlit(
        "\n/bin/busybox mkdir -p /mnt/root\n/bin/busybox mount /dev/vda /mnt/root\n\n# Mount essential filesystems for chroot\n/bin/busybox mount -t proc proc /mnt/root/proc\n/bin/busybox mount -t sysfs sys /mnt/root/sys\n/bin/busybox mount --bind /dev /mnt/root/dev\n/bin/busybox mount -t devpts pts /mnt/root/dev/pts 2>/dev/null || true\n\necho \"Build VM: Executing command...\"\n\ncat > /mnt/root/vyoma-build.sh << 'VYOMAEOF'\n#!/bin/sh\nset -e\n",
    );
    let s = BUILD_SCRIPT_MOUNT@;
    assert forall|k: int| 0 <= k < s.len() implies #[trigger] s[k] != 'w' by {}
    if stands_at(s, "poweroff"@, i) {
        lemma_letters(s, i);
    }
}

proof fn lemma_tail(i: int)
    requires
        stands_at(BUILD_SCRIPT_TAIL@, "poweroff"@, i),
    ensures
        i == BUILD_SCRIPT_TAIL@.len() - "poweroff -f\n"@.len(),
{
    reveal_strlit("poweroff -f\n");
    reveal_strlit(
        "\nVYOMAEOF\nchmod +x /mnt/root/vyoma-build.sh\n\nchroot /mnt/root /vyoma-build.sh\n\n# Capture exit code\nexit_code=$?\necho \"Build VM: Command completed with exit code: $exit_code\"\n\n# Unmount filesystems safely\numount /mnt/root/proc 2>/dev/null || true\numount /mnt/root/sys 2>/dev/null || true\numount /mnt/root/dev 2>/dev/null || true\numount /mnt/root 2>/dev/null || true\nsync\n\n# Power off (this will cause Cloud Hypervisor to exit)\npoweroff -f\n",
    );
    let s = BUILD_SCRIPT_TAIL@;
    lemma_letters(s, i);
    assert forall|k: int|
        1 < k < s.len() && #[trigger] s[k] == 'w' && s[k - 1] == 'o' && s[k - 2] == 'p' implies k
        == s.len() - 10 by {}
}

proof fn lemma_within(s: Seq<char>, a: Seq<char>, part: Seq<char>, b: Seq<char>, i: int)
    requires
        s == a + part + b,
        stands_at(s, "poweroff"@, i),
        a.len() <= i,
        i + "poweroff"@.len() <= a.len() + part.len(),
    ensures
        stands_at(part, "poweroff"@, i - a.len()),
{
    let n = "poweroff"@.len();
    assert(part.subrange(i - a.len(), i - a.len() + n) =~= s.subrange(i, i + n));
}

/// Before its command the VM powers off only when the disk does not appear in time, and after the
/// command only at the very end of the script: wherever the script says `poweroff`, that stands in
/// the branch for the disk that is missing, or in the command itself, or in the last line.
pub proof fn vm_powers_off_last(command: Seq<char>, i: int)
    requires
        stands_at(build_script(command), "poweroff"@, i),
    ensures
        ({
            let branch = BUILD_SCRIPT_START@.len() as int;
            let mount = branch + BUILD_SCRIPT_TIMEOUT@.len();
            let written = mount + BUILD_SCRIPT_MOUNT@.len();
            ||| branch <= i && i + "poweroff"@.len() <= mount
            ||| written < i + "poweroff"@.len() && i < written + command.len()
            ||| i == build_script(command).len() - "poweroff -f\n"@.len()
        }),
{
    let s = build_script(command);
    let start = BUILD_SCRIPT_START@;
    let timeout = BUILD_SCRIPT_TIMEOUT@;
    let mount = BUILD_SCRIPT_MOUNT@;
    let tail = BUILD_SCRIPT_TAIL@;
    let none = Seq::<char>::empty();
    let a = start.len() as int;
    let b = a + timeout.len();
    let c = b + mount.len();
    lemma_letters(s, i);
    lemma_start(i);
    lemma_timeout();
    lemma_mount(i - b);
    assert(s[a - 1] == start.last());
    assert(s[b - 1] == timeout.last());
    if i + 8 <= a {
        assert(s =~= none + start + (timeout + mount + command + tail));
        lemma_within(s, none, start, timeout + mount + command + tail, i);
    } else if i < a {
        assert(s[a - 1] != '\n');
    } else if i + 8 <= b {
    } else if i < b {
        assert(s[b - 1] != '\n');
    } else if i + 8 <= c {
        assert(s =~= (start + timeout) + mount + (command + tail));
        lemma_within(s, start + timeout, mount, command + tail, i);
    } else if i >= c + command.len() {
        let head = start + timeout + mount + command;
        assert(s =~= head + tail + none);
        lemma_within(s, head, tail, none, i);
        lemma_tail(i - head.len());
    }
}

} // verus!
