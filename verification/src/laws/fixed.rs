//! The fixed parts of scripts and requests, and the fixed places and sizes.
use vstd::prelude::*;
use crate::agent::INITRAMFS_COPY;
use crate::build::initramfs::{
    BUILD_SCRIPT_MOUNT, BUILD_SCRIPT_START, BUILD_SCRIPT_TAIL, BUILD_SCRIPT_TIMEOUT,
};
use crate::build::measure::{VM_BOOT_BODY, VM_BOOT_URL, VM_CREATE_URL};
use crate::build::runner::{SYSTEM_HYPERVISOR, SYSTEM_KERNEL};
use crate::cow::MEBIBYTE;
use crate::init_script::{SCRIPT_HEAD, SCRIPT_OPTIONS, SCRIPT_ROOT, SCRIPT_TAIL};

verus! {

/// What the init script of every VM does besides its network, its environment and its command: it stops
/// at errors, mounts the essential file systems and waits for the network device; it mounts the disk
/// read-only below an overlay, puts the agent and busybox into that and starts the agent there; and it
/// keeps running behind the command and switches to the overlay.
pub proof fn every_init_script_does_this()
    ensures
        SCRIPT_OPTIONS@ == "#!/bin/sh\nset -e\nset -u\ntrap 'echo Init error at line $LINENO; /bin/busybox poweroff -f' ERR\n\n"@,
        SCRIPT_HEAD@ == "/bin/busybox mkdir -p /proc /sys /dev\n/bin/busybox mount -t proc proc /proc 2>/dev/null || true\n/bin/busybox mount -t sysfs sys /sys 2>/dev/null || true\n/bin/busybox mount -t devtmpfs dev /dev 2>/dev/null || true\n/bin/busybox ip link set lo up 2>/dev/null || true\n# Wait for eth0 to appear (virtio-net driver might take a moment)\nwhile ! /bin/busybox ip link show eth0 >/dev/null 2>&1; do\n  /bin/busybox sleep 0.1\ndone\n# Configure eth0 manually\n"@,
        SCRIPT_ROOT@ == "# Mount container rootfs using overlayfs\n/bin/busybox mkdir -p /lower\n# Wait for /dev/vda to appear\nwhile [ ! -b /dev/vda ]; do /bin/busybox sleep 0.1; done\n/bin/busybox mount -r -t squashfs /dev/vda /lower 2>/dev/null || /bin/busybox mount -r /dev/vda /lower 2>/dev/null || /bin/busybox mount -t tmpfs tmpfs /lower\n/bin/busybox mkdir -p /overlay\n/bin/busybox mount -t tmpfs tmpfs /overlay\n/bin/busybox mkdir -p /overlay/upper /overlay/work\n/bin/busybox mkdir -p /sysroot\n/bin/busybox mount -t overlay overlay -o lowerdir=/lower,upperdir=/overlay/upper,workdir=/overlay/work /sysroot\n# Inject agent into container\n/bin/busybox mkdir -p /sysroot/mnt\n/bin/busybox cp /sbin/vyoma-agent-vm /sysroot/mnt/vyoma-agent-vm\n/bin/busybox chmod +x /sysroot/mnt/vyoma-agent-vm\n/bin/busybox mkdir -p /sysroot/bin\n/bin/busybox cp /bin/busybox /sysroot/bin/busybox 2>/dev/null || true\ncat << 'EOF' > /sysroot/mnt/start.sh\n#!/bin/busybox sh\n/bin/busybox mkdir -p /proc /sys /dev\n/bin/busybox mount -t proc proc /proc || true\n/bin/busybox mount -t sysfs sys /sys || true\n/bin/busybox mount -t devtmpfs dev /dev || true\n/bin/busybox --install -s /bin || true\n/mnt/vyoma-agent-vm > /dev/console 2>&1 &\n"@,
        SCRIPT_TAIL@ == "while true; do /bin/busybox sleep 3600; done\nEOF\n/bin/busybox chmod +x /sysroot/mnt/start.sh\nexec /bin/busybox switch_root -- /sysroot /mnt/start.sh\n"@,
{
}

/// What the script of every build VM does besides its command: it waits for the disk, for fifty tries at
/// most, mounts it, writes the command to a file that stops at errors, runs that file inside the disk,
/// unmounts everything and powers off.
pub proof fn every_build_script_does_this()
    ensures
        BUILD_SCRIPT_START@ == "#!/bin/busybox sh\n\n/bin/busybox mount -t proc proc /proc\n/bin/busybox mount -t sysfs sys /sys\n/bin/busybox mount -t devtmpfs dev /dev\n\n# Wait for the target root filesystem to appear (max 50 tries)\ntries=0\nwhile [ ! -b /dev/vda ]; do\n    /bin/busybox sleep 0.1\n    tries=$((tries + 1))\n"@,
        BUILD_SCRIPT_TIMEOUT@ == "    if [ $tries -ge 50 ]; then\n        echo \"Build VM: Timed out waiting for /dev/vda\"\n        echo \"Build VM: Contents of /dev:\"\n        /bin/busybox ls -la /dev\n        /bin/busybox poweroff -f\n        exit 1\n    fi\ndone\n"@,
        BUILD_SCRIPT_MOUNT@ == "\n/bin/busybox mkdir -p /mnt/root\n/bin/busybox mount /dev/vda /mnt/root\n\n# Mount essential filesystems for chroot\n/bin/busybox mount -t proc proc /mnt/root/proc\n/bin/busybox mount -t sysfs sys /mnt/root/sys\n/bin/busybox mount --bind /dev /mnt/root/dev\n/bin/busybox mount -t devpts pts /mnt/root/dev/pts 2>/dev/null || true\n\necho \"Build VM: Executing command...\"\n\ncat > /mnt/root/vyoma-build.sh << 'VYOMAEOF'\n#!/bin/sh\nset -e\n"@,
        BUILD_SCRIPT_TAIL@ == "\nVYOMAEOF\nchmod +x /mnt/root/vyoma-build.sh\n\nchroot /mnt/root /vyoma-build.sh\n\n# Capture exit code\nexit_code=$?\necho \"Build VM: Command completed with exit code: $exit_code\"\n\n# Unmount filesystems safely\numount /mnt/root/proc 2>/dev/null || true\numount /mnt/root/sys 2>/dev/null || true\numount /mnt/root/dev 2>/dev/null || true\numount /mnt/root 2>/dev/null || true\nsync\n\n# Power off (this will cause Cloud Hypervisor to exit)\npoweroff -f\n"@,
{
}

/// Where the tools of the system are, how the hypervisor is asked to create and to boot a VM, and how
/// large a mebibyte is.
pub proof fn places_and_sizes()
    ensures
        SYSTEM_KERNEL@ == "/usr/lib/vyoma/vmlinux"@,
        SYSTEM_HYPERVISOR@ == "/usr/bin/cloud-hypervisor"@,
        INITRAMFS_COPY@ == "/tmp/initramfs.cpio.gz"@,
        VM_CREATE_URL@ == "http://localhost/api/v1/vm.create"@,
        VM_BOOT_URL@ == "http://localhost/api/v1/vm.boot"@,
        VM_BOOT_BODY@ == "{}"@,
        MEBIBYTE == 1024 * 1024,
{
}

} // verus!
