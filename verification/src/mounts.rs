//! Filesystem mount declarations and their default-deny permission bits.

use vstd::prelude::*;
use crate::errors::ConfigError;

verus! {

/// Permission bits for files under a mount.  Absence of an explicit grant
/// gives nothing.
#[derive(Debug, Clone, Copy, PartialEq, Eq, Structural)]
pub struct FilePerms {
    pub read: bool,
    pub write: bool,
}

/// Permission bits for directories under a mount.
#[derive(Debug, Clone, Copy, PartialEq, Eq, Structural)]
pub struct DirPerms {
    pub read: bool,
    pub mutate: bool,
}

/// The file permissions an omitted value falls back to: nothing.
pub open spec fn spec_default_file_perms() -> FilePerms {
    FilePerms { read: false, write: false }
}

/// The directory permissions an omitted value falls back to: nothing.
pub open spec fn spec_default_dir_perms() -> DirPerms {
    DirPerms { read: false, mutate: false }
}

/// A supplied file-permission value, or the default-deny fallback.
pub fn extract_file_perms(value: Option<FilePerms>) -> (r: FilePerms)
    ensures
        r == (match value {
            Some(p) => p,
            None => spec_default_file_perms(),
        }),
{
    match value {
        Some(p) => p,
        None => FilePerms { read: false, write: false },
    }
}

/// A supplied directory-permission value, or the default-deny fallback.
pub fn extract_dir_perms(value: Option<DirPerms>) -> (r: DirPerms)
    ensures
        r == (match value {
            Some(p) => p,
            None => spec_default_dir_perms(),
        }),
{
    match value {
        Some(p) => p,
        None => DirPerms { read: false, mutate: false },
    }
}

/// One declared exposure of a host path inside the sandbox.
#[derive(Debug, Clone, PartialEq, Eq)]
pub struct PluginMount {
    pub host_path: String,
    pub guest_path: String,
    pub file_perms: FilePerms,
    pub dir_perms: DirPerms,
}

/// The mathematical model of a mount declaration.
pub struct MountV {
    pub host_path: Seq<char>,
    pub guest_path: Seq<char>,
    pub file_perms: FilePerms,
    pub dir_perms: DirPerms,
}

impl View for PluginMount {
    type V = MountV;

    open spec fn view(&self) -> MountV {
        MountV {
            host_path: self.host_path@,
            guest_path: self.guest_path@,
            file_perms: self.file_perms,
            dir_perms: self.dir_perms,
        }
    }
}

impl DeepView for PluginMount {
    type V = MountV;

    open spec fn deep_view(&self) -> MountV {
        self.view()
    }
}

/// A well-formed mount declaration: both paths are non-empty.  The
/// permission bits are free: all-false is a valid, if useless, grant.
pub open spec fn spec_mount_wf(m: MountV) -> bool {
    m.host_path.len() > 0 && m.guest_path.len() > 0
}

/// A sequence of mount declarations, every one of them well-formed.
pub open spec fn spec_mounts_wf(ms: Seq<MountV>) -> bool {
    forall|k: int| 0 <= k < ms.len() ==> spec_mount_wf(#[trigger] ms[k])
}

/// The mount a declaration denotes: the two paths with the supplied
/// permissions, each falling back to default-deny when omitted.
pub open spec fn spec_mount_of(
    host_path: Seq<char>,
    guest_path: Seq<char>,
    file_perms: Option<FilePerms>,
    dir_perms: Option<DirPerms>,
) -> MountV {
    MountV {
        host_path: host_path,
        guest_path: guest_path,
        file_perms: (match file_perms {
            Some(p) => p,
            None => spec_default_file_perms(),
        }),
        dir_perms: (match dir_perms {
            Some(p) => p,
            None => spec_default_dir_perms(),
        }),
    }
}

/// Builds one mount declaration.  Both paths are required to be non-empty;
/// omitted permissions grant nothing.
pub fn parse_mount(
    host_path: String,
    guest_path: String,
    file_perms: Option<FilePerms>,
    dir_perms: Option<DirPerms>,
) -> (r: Result<PluginMount, ConfigError>)
    ensures
        if host_path@.len() == 0 || guest_path@.len() == 0 {
            r == Err::<PluginMount, _>(ConfigError::MountInterpretation)
        } else {
            r matches Ok(m) && m@ == spec_mount_of(host_path@, guest_path@, file_perms, dir_perms)
        },
{
    if host_path.as_str().is_empty() || guest_path.as_str().is_empty() {
        return Err(ConfigError::MountInterpretation);
    }
    Ok(
        PluginMount {
            host_path,
            guest_path,
            file_perms: extract_file_perms(file_perms),
            dir_perms: extract_dir_perms(dir_perms),
        },
    )
}

/// Makes an equal copy of a mount declaration.
pub fn clone_mount(m: &PluginMount) -> (r: PluginMount)
    ensures
        r == *m,
{
    PluginMount {
        host_path: m.host_path.clone(),
        guest_path: m.guest_path.clone(),
        file_perms: m.file_perms,
        dir_perms: m.dir_perms,
    }
}

} // verus!
