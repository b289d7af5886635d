//! The build engine and what it knows of its directories and tools.
use vstd::prelude::*;
use vstd::string::*;
use std::sync::Arc;
use crate::build::cache::Ext4Cache;
use crate::build::error::{BuildError, ErrorKind};
use crate::cgroups::CgroupManager;
use crate::path::{debug_path, flat_name, flatten_name, join_path, joined_path, path_debug};
use crate::text::{concat3, owned, texts};

verus! {

/// The kernel of the system.
pub const SYSTEM_KERNEL: &'static str = "/usr/lib/vyoma/vmlinux";

/// The hypervisor of the system.
pub const SYSTEM_HYPERVISOR: &'static str = "/usr/bin/cloud-hypervisor";

/// Build engine that runs the instructions of a build in isolated VMs.
pub struct BuildRunner {
    pub work_dir: String,
    pub temp_dir: String,
    /// Whether to measure the boot of the image, to record the measurement and to sign the manifest.
    pub measured: bool,
    /// Directory of the key that signs the manifest.
    pub signing_key_path: Option<String>,
    /// Base images that have been converted already.
    pub ext4_cache: Ext4Cache,
    /// Limits the resources of build VMs.
    pub cgroups: Option<Arc<CgroupManager>>,
}

/// The directory of an image.
pub open spec fn image_dir(work_dir: Seq<char>, name: Seq<char>) -> Seq<char> {
    joined_path(joined_path(joined_path(work_dir, ".vyoma"@), "images"@), flat_name(name))
}

/// The root file system of an image.
pub open spec fn image_rootfs(work_dir: Seq<char>, name: Seq<char>) -> Seq<char> {
    joined_path(image_dir(work_dir, name), "rootfs.sqfs"@)
}

/// A tool that comes with the working directory.
pub open spec fn local_tool(work_dir: Seq<char>, name: Seq<char>) -> Seq<char> {
    joined_path(joined_path(work_dir, "bin"@), name)
}

/// The arguments of the hypervisor for a VM with a read-only root file system.
pub open spec fn readonly_vm_args(
    rootfs: Seq<char>,
    kernel: Seq<char>,
    initramfs: Seq<char>,
    socket: Seq<char>,
) -> Seq<Seq<char>> {
    seq![
        "--kernel"@,
        kernel,
        "--initramfs"@,
        initramfs,
        "--disk"@,
        "path="@ + rootfs + ",readonly=on"@,
        "--console"@,
        "off"@,
        "--serial"@,
        "tty"@,
        "--api-socket"@,
        socket,
        "--cpus"@,
        "boot=1"@,
        "--memory"@,
        "size=512M"@,
        "--rng"@,
        "src=/dev/urandom"@,
    ]
}

impl BuildRunner {
    /// The invariant of a build engine.
    pub open spec fn wf(self) -> bool {
        self.ext4_cache.wf()
    }

    /// A build engine that works below `work_dir`.
    pub fn new(work_dir: String) -> (r: BuildRunner)
        ensures
            r.wf(),
            r.work_dir == work_dir,
            r.temp_dir@ == joined_path(work_dir@, "temp"@),
            !r.measured,
            r.signing_key_path is None,
            r.ext4_cache@ == Map::<Seq<char>, Seq<char>>::empty(),
            r.cgroups is None,
    {
        let temp_dir = join_path(work_dir.as_str(), "temp");
        BuildRunner {
            work_dir,
            temp_dir,
            measured: false,
            signing_key_path: None,
            ext4_cache: Ext4Cache::new(),
            cgroups: None,
        }
    }

    /// The same engine, with or without measurement, and with the directory of a signing key.
    pub fn with_measured(self, measured: bool, signing_key_path: Option<String>) -> (r: BuildRunner)
        ensures
            r == (BuildRunner { measured, signing_key_path, ..self }),
    {
        let mut r = self;
        r.measured = measured;
        r.signing_key_path = signing_key_path;
        r
    }

    /// The same engine, with limits on the resources of build VMs.
    pub fn with_cgroups(self, cgroups: Arc<CgroupManager>) -> (r: BuildRunner)
        ensures
            r == (BuildRunner { cgroups: Some(cgroups), ..self }),
    {
        let mut r = self;
        r.cgroups = Some(cgroups);
        r
    }

    /// The directory of an image.
    pub fn image_directory(&self, name: &str) -> (r: String)
        ensures
            r@ == image_dir(self.work_dir@, name@),
    {
        let images = join_path(join_path(self.work_dir.as_str(), ".vyoma").as_str(), "images");
        join_path(images.as_str(), flatten_name(name).as_str())
    }

    /// The root file system of an image.
    pub fn image_rootfs_path(&self, name: &str) -> (r: String)
        ensures
            r@ == image_rootfs(self.work_dir@, name@),
    {
        join_path(self.image_directory(name).as_str(), "rootfs.sqfs")
    }

    /// The root file system of a base image, which has to be `present`.
    pub fn handle_from(&self, image: &str, present: bool) -> (r: Result<String, BuildError>)
        ensures
            if present {
                r matches Ok(path) && path@ == image_rootfs(self.work_dir@, image@)
            } else {
                r matches Err(e) && e.says(
                    ErrorKind::Execution,
                    "Base image "@ + image@ + " not found at "@ + path_debug(
                        image_rootfs(self.work_dir@, image@),
                    ),
                )
            },
    {
        let path = self.image_rootfs_path(image);
        if present {
            Ok(path)
        } else {
            let mut text = concat3("Base image ", image, " not found at ");
            text.append(debug_path(path.as_str()).as_str());
            Err(BuildError::new(ErrorKind::Execution, text))
        }
    }

    /// The kernel beside the working directory.
    pub fn local_kernel(&self) -> (r: String)
        ensures
            r@ == local_tool(self.work_dir@, "vmlinux"@),
    {
        join_path(join_path(self.work_dir.as_str(), "bin").as_str(), "vmlinux")
    }

    /// The kernel of build VMs: the one beside the working directory, or else that of the system.
    /// The arguments say which of them exist.
    pub fn find_kernel_path(&self, local_present: bool, system_present: bool) -> (r: Result<
        String,
        BuildError,
    >)
        ensures
            if local_present {
                r matches Ok(path) && path@ == local_tool(self.work_dir@, "vmlinux"@)
            } else if system_present {
                r matches Ok(path) && path@ == SYSTEM_KERNEL@
            } else {
                r matches Err(e) && e.says(
                    ErrorKind::Vm,
                    "Kernel not found at /usr/lib/vyoma/vmlinux or local bin"@,
                )
            },
    {
        if local_present {
            Ok(self.local_kernel())
        } else if system_present {
            Ok(owned(SYSTEM_KERNEL))
        } else {
            Err(
                BuildError::new(
                    ErrorKind::Vm,
                    owned("Kernel not found at /usr/lib/vyoma/vmlinux or local bin"),
                ),
            )
        }
    }

    /// The hypervisor beside the working directory.
    pub fn local_hypervisor(&self) -> (r: String)
        ensures
            r@ == local_tool(self.work_dir@, "cloud-hypervisor"@),
    {
        join_path(join_path(self.work_dir.as_str(), "bin").as_str(), "cloud-hypervisor")
    }

    /// The hypervisor: the one beside the working directory, or else that of the system, or else
    /// whatever the search path has. The arguments say which of the first two exist.
    pub fn find_ch_path(&self, local_present: bool, system_present: bool) -> (r: Result<
        String,
        BuildError,
    >)
        ensures
            r matches Ok(path) && path@ == (if local_present {
                local_tool(self.work_dir@, "cloud-hypervisor"@)
            } else if system_present {
                SYSTEM_HYPERVISOR@
            } else {
                "cloud-hypervisor"@
            }),
    {
        if local_present {
            Ok(self.local_hypervisor())
        } else if system_present {
            Ok(owned(SYSTEM_HYPERVISOR))
        } else {
            Ok(owned("cloud-hypervisor"))
        }
    }

    /// The arguments of the hypervisor for a VM with a read-only root file system.
    pub fn build_ch_args(
        &self,
        rootfs_path: &str,
        kernel_path: &str,
        initramfs_path: &str,
        socket_path: &str,
    ) -> (r: Vec<String>)
        ensures
            texts(r) == readonly_vm_args(rootfs_path@, kernel_path@, initramfs_path@, socket_path@),
    {
        let r: Vec<String> = vec![
            owned("--kernel"),
            owned(kernel_path),
            owned("--initramfs"),
            owned(initramfs_path),
            owned("--disk"),
            concat3("path=", rootfs_path, ",readonly=on"),
            owned("--console"),
            owned("off"),
            owned("--serial"),
            owned("tty"),
            owned("--api-socket"),
            owned(socket_path),
            owned("--cpus"),
            owned("boot=1"),
            owned("--memory"),
            owned("size=512M"),
            owned("--rng"),
            owned("src=/dev/urandom"),
        ];
        assert(texts(r) =~= readonly_vm_args(
            rootfs_path@,
            kernel_path@,
            initramfs_path@,
            socket_path@,
        ));
        r
    }
}

impl Default for BuildRunner {
    fn default() -> (r: BuildRunner)
        ensures
            r.wf(),
            r.work_dir@ == "/tmp/vyoma-build"@,
            r.temp_dir@ == joined_path("/tmp/vyoma-build"@, "temp"@),
            !r.measured,
            r.signing_key_path is None,
            r.ext4_cache@ == Map::<Seq<char>, Seq<char>>::empty(),
            r.cgroups is None,
    {
        BuildRunner::new(owned("/tmp/vyoma-build"))
    }
}

} // verus!
