//! Virtual filesystem: the mount table.

use vstd::prelude::*;

verus! {

/// Filesystem kinds a mount can carry.
#[derive(Clone, Copy, Debug, PartialEq, Eq, Structural)]
pub enum FilesystemType {
    /// The native encrypted filesystem
    SurakshaFS,
    /// ext4, for compatibility
    Ext4,
    /// FAT32, for the boot partition
    Fat32,
}

/// Mount flags.
#[derive(Clone, Copy, Debug, PartialEq, Eq, Structural)]
pub struct MountFlags {
    /// Read-only
    pub read_only: bool,
    /// No execution from this mount
    pub no_exec: bool,
    /// No device files on this mount
    pub no_dev: bool,
}

/// One mounted filesystem.
#[derive(Debug)]
pub struct MountPoint {
    /// Filesystem kind
    pub fs_type: FilesystemType,
    /// Source device path
    pub device: String,
    /// Target path
    pub target: String,
    /// Mount flags
    pub flags: MountFlags,
}

/// The mount table.
#[derive(Debug)]
pub struct MountTable {
    /// Mounts, in mount order
    mounts: Vec<MountPoint>,
}

impl MountTable {
    /// The mounts as a sequence.
    pub closed spec fn spec_mounts(&self) -> Seq<MountPoint> {
        self.mounts@
    }

    /// An empty mount table.
    pub fn new() -> (r: Self)
        ensures
            r.spec_mounts().len() == 0,
    {
        MountTable { mounts: Vec::new() }
    }

    /// Record a mount of `source` at `target`. Attaching the filesystem
    /// driver belongs to the platform layer.
    pub fn mount(
        &mut self,
        source: &str,
        target: &str,
        fs_type: FilesystemType,
        flags: MountFlags,
    ) -> (r: Result<(), ()>)
        ensures
            r is Ok,
            final(self).spec_mounts().len() == old(self).spec_mounts().len() + 1,
            final(self).spec_mounts().last().fs_type == fs_type,
            final(self).spec_mounts().last().device@ == source@,
            final(self).spec_mounts().last().target@ == target@,
            final(self).spec_mounts().last().flags == flags,
    {
        self.mounts.push(
            MountPoint {
                fs_type,
                device: source.to_string(),
                target: target.to_string(),
                flags,
            },
        );
        Ok(())
    }

    /// Remove every mount at `target`, keeping the others in order.
    pub fn unmount(&mut self, target: &str) -> (r: Result<(), ()>)
        ensures
            r is Ok,
            final(self).spec_mounts().len() <= old(self).spec_mounts().len(),
            forall|i: int|
                0 <= i < final(self).spec_mounts().len() ==> (#[trigger] final(self).spec_mounts()[i]).target@ != target@,
    {
        let key: String = target.to_string();
        let mut kept: Vec<MountPoint> = Vec::new();
        let n = self.mounts.len();
        let mut i: usize = 0;
        while i < n
            invariant
                i <= n,
                n == self.spec_mounts().len(),
                kept@.len() <= i,
                key@ == target@,
                forall|k: int|
                    0 <= k < kept@.len() ==> (#[trigger] kept@[k]).target@ != target@,
            decreases n - i,
        {
            let keep = !(self.mounts[i].target == key);
            if keep {
                let ghost kept_pre = kept@;
                let m = MountPoint {
                    fs_type: self.mounts[i].fs_type,
                    device: self.mounts[i].device.clone(),
                    target: self.mounts[i].target.clone(),
                    flags: self.mounts[i].flags,
                };
                kept.push(m);
                proof {
                    assert forall|k: int|
                        0 <= k < kept@.len() implies (#[trigger] kept@[k]).target@ != target@ by {
                        if k < kept@.len() - 1 {
                            assert(kept@[k] == kept_pre[k]);
                        } else {
                            assert(kept@[k] == m);
                        }
                    }
                }
            }
            i = i + 1;
        }
        self.mounts = kept;
        Ok(())
    }
}

} // verus!
