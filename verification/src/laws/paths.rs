//! What paths and names look like.
use vstd::prelude::*;
use crate::build::convert::{cache_dir, cache_file};
use crate::build::initramfs::build_initramfs;
use crate::build::layer::snapshot_name;
use crate::build::runner::{image_dir, image_rootfs, local_tool};
use crate::build::signing::{public_file, secret_file};
use crate::cgroups::{vm_dir, vm_file};
use crate::number::decimal;
use crate::path::{flat_key, flat_name, joined_path};
use crate::text::{replaced, texts};

verus! {

/// A relative path below another one stands behind it, with exactly one slash in between.
pub proof fn relative_path_stands_behind_its_base(base: Seq<char>, relative: Seq<char>)
    requires
        base.len() > 0,
        relative.len() == 0 || relative[0] != '/',
    ensures
        base.last() != '/' ==> joined_path(base, relative) == base + "/"@ + relative,
        base.last() == '/' ==> joined_path(base, relative) == base + relative,
{
    reveal_strlit("/");
    assert(base.push('/') =~= base + "/"@);
}

/// An absolute path below another one is itself, and so is any path below the empty one.
pub proof fn absolute_path_is_itself(base: Seq<char>, path: Seq<char>)
    requires
        base.len() == 0 || (path.len() > 0 && path[0] == '/'),
    ensures
        joined_path(base, path) == path,
{
    if base.len() == 0 {
        assert(base + path =~= path);
    }
}

/// Joining three paths is the same in whatever order it is done, as long as nothing is empty.
pub proof fn joining_paths_is_associative(a: Seq<char>, b: Seq<char>, c: Seq<char>)
    requires
        b.len() > 0,
    ensures
        joined_path(joined_path(a, b), c) == joined_path(a, joined_path(b, c)),
{
    assert(joined_path(joined_path(a, b), c) =~= joined_path(a, joined_path(b, c)));
}

/// A flattened name keeps every character but `/` and `:`, and has `_` in their places.
pub proof fn flat_name_keeps_the_rest(name: Seq<char>, i: int)
    requires
        0 <= i < name.len(),
    ensures
        flat_name(name).len() == name.len(),
        name[i] == '/' || name[i] == ':' ==> flat_name(name)[i] == '_',
        name[i] != '/' && name[i] != ':' ==> flat_name(name)[i] == name[i],
{
}

/// A flattened key keeps every character but `/`, `:` and `\`, and has `_` in their places.
pub proof fn flat_key_keeps_the_rest(key: Seq<char>, i: int)
    requires
        0 <= i < key.len(),
    ensures
        flat_key(key).len() == key.len(),
        key[i] == '/' || key[i] == ':' || key[i] == '\\' ==> flat_key(key)[i] == '_',
        key[i] != '/' && key[i] != ':' && key[i] != '\\' ==> flat_key(key)[i] == key[i],
{
}

/// Replacing a character changes the places that have it and no others.
pub proof fn replacing_changes_one_character(s: Seq<char>, from: char, to: char, i: int)
    requires
        0 <= i < s.len(),
    ensures
        replaced(s, from, to).len() == s.len(),
        replaced(s, from, to)[i] == (if s[i] == from {
            to
        } else {
            s[i]
        }),
{
}

/// The texts of a list are those of its strings, in order.
pub proof fn texts_are_those_of_the_strings(list: Vec<String>)
    ensures
        texts(list).len() == list@.len(),
        forall|i: int| 0 <= i < list@.len() ==> #[trigger] texts(list)[i] == list@[i]@,
{
}

/// The image of a name lies below the working directory, in a directory of its flattened name.
pub proof fn image_lies_below_the_working_directory(work_dir: Seq<char>, name: Seq<char>)
    requires
        work_dir.len() > 0,
        work_dir.last() != '/',
        name.len() > 0,
    ensures
        image_dir(work_dir, name) == work_dir + "/.vyoma/images/"@ + flat_name(name),
        image_rootfs(work_dir, name) == work_dir + "/.vyoma/images/"@ + flat_name(name)
            + "/rootfs.sqfs"@,
{
    reveal_strlit(".vyoma");
    reveal_strlit("images");
    reveal_strlit("/.vyoma/images/");
    reveal_strlit("rootfs.sqfs");
    reveal_strlit("/rootfs.sqfs");
    flat_name_keeps_the_rest(name, 0);
    flat_name_keeps_the_rest(name, name.len() - 1);
    let dir = work_dir + "/.vyoma/images/"@ + flat_name(name);
    assert(image_dir(work_dir, name) =~= dir);
    assert(image_rootfs(work_dir, name) =~= dir + "/rootfs.sqfs"@);
}

/// The tools, the cache and the files of a key lie below their directory under their own names.
pub proof fn files_lie_below_their_directory(dir: Seq<char>, name: Seq<char>)
    requires
        dir.len() > 0,
        dir.last() != '/',
        name.len() > 0,
        name[0] != '/',
    ensures
        local_tool(dir, name) == dir + "/bin/"@ + name,
        cache_dir(dir) == dir + "/ext4-cache"@,
        cache_file(dir, name) == dir + "/ext4-cache/"@ + flat_key(name) + ".ext4"@,
        secret_file(dir) == dir + "/build_signing_key"@,
        public_file(dir) == dir + "/build_signing_key.pub"@,
        build_initramfs(dir) == dir + "/build-initramfs.cpio.gz"@,
{
    reveal_strlit("bin");
    reveal_strlit("/bin/");
    reveal_strlit("ext4-cache");
    reveal_strlit("/ext4-cache");
    reveal_strlit("/ext4-cache/");
    reveal_strlit(".ext4");
    reveal_strlit("build_signing_key");
    reveal_strlit("/build_signing_key");
    reveal_strlit("build_signing_key.pub");
    reveal_strlit("/build_signing_key.pub");
    reveal_strlit("build-initramfs.cpio.gz");
    reveal_strlit("/build-initramfs.cpio.gz");
    flat_key_keeps_the_rest(name, 0);
    assert(local_tool(dir, name) =~= dir + "/bin/"@ + name);
    assert(cache_dir(dir) =~= dir + "/ext4-cache"@);
    assert(cache_file(dir, name) =~= dir + "/ext4-cache/"@ + flat_key(name) + ".ext4"@);
    assert(secret_file(dir) =~= dir + "/build_signing_key"@);
    assert(public_file(dir) =~= dir + "/build_signing_key.pub"@);
    assert(build_initramfs(dir) =~= dir + "/build-initramfs.cpio.gz"@);
}

/// The control group of a VM lies below the slice under the id of the VM, and its files below it.
pub proof fn control_group_lies_below_the_slice(root: Seq<char>, id: Seq<char>, name: Seq<char>)
    requires
        root.len() > 0,
        root.last() != '/',
        id.len() == 0 || id.last() != '/',
        name.len() == 0 || name[0] != '/',
    ensures
        vm_dir(root, id) == root + "/vyoma-"@ + id,
        vm_file(root, id, name) == root + "/vyoma-"@ + id + "/"@ + name,
{
    reveal_strlit("vyoma-");
    reveal_strlit("/vyoma-");
    reveal_strlit("/");
    let dir = root + "/vyoma-"@ + id;
    assert(vm_dir(root, id) =~= dir);
    assert(dir.last() != '/');
    assert(vm_file(root, id, name) =~= dir + "/"@ + name);
}

/// The snapshot of a build process carries its number.
pub proof fn snapshot_carries_the_process(pid: u32)
    ensures
        snapshot_name(pid) == "vyoma-build-"@ + decimal(pid as nat),
{
}

} // verus!
