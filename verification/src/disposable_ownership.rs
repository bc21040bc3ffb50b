//! Ownership of the backing file of a disposable loop device.

use vstd::prelude::*;

use crate::paths;
use crate::paths::{same_path, valid_loop_path};

verus! {

/// What a loop device and its backing file were when the harness took them over.
#[derive(Debug, PartialEq, Eq)]
pub struct DisposableLoopOwnershipProof {
    pub loop_device: String,
    pub backing_file: String,
    pub backing_dev: u64,
    pub backing_ino: u64,
    pub owned_root: String,
}

impl Clone for DisposableLoopOwnershipProof {
    fn clone(&self) -> (copy: Self)
        ensures
            copy == *self,
    {
        DisposableLoopOwnershipProof {
            loop_device: self.loop_device.clone(),
            backing_file: self.backing_file.clone(),
            backing_dev: self.backing_dev,
            backing_ino: self.backing_ino,
            owned_root: self.owned_root.clone(),
        }
    }
}

#[derive(Clone, Debug, PartialEq, Eq)]
pub enum DisposableOwnershipError {
    InvalidLoopDevice,
    BackingFileOutsideOwnedRoot,
    BackingFileNotRegular,
    BackingFileIdentityChanged,
    Metadata(String),
}

/// The content of a refusal.
pub enum OwnershipFault {
    InvalidLoopDevice,
    BackingFileOutsideOwnedRoot,
    BackingFileNotRegular,
    BackingFileIdentityChanged,
    Metadata(Seq<char>),
}

impl View for DisposableOwnershipError {
    type V = OwnershipFault;

    open spec fn view(&self) -> OwnershipFault {
        match *self {
            DisposableOwnershipError::InvalidLoopDevice => OwnershipFault::InvalidLoopDevice,
            DisposableOwnershipError::BackingFileOutsideOwnedRoot => {
                OwnershipFault::BackingFileOutsideOwnedRoot
            },
            DisposableOwnershipError::BackingFileNotRegular => OwnershipFault::BackingFileNotRegular,
            DisposableOwnershipError::BackingFileIdentityChanged => {
                OwnershipFault::BackingFileIdentityChanged
            },
            DisposableOwnershipError::Metadata(s) => OwnershipFault::Metadata(s@),
        }
    }
}

/// What the file system says of a backing file, links not followed.
#[derive(Clone, Copy, Debug, PartialEq, Eq, Structural)]
pub struct BackingFileStatus {
    pub regular: bool,
    pub device: u64,
    pub inode: u64,
}

/// What the file system says of a backing file and of the directory that holds it. Where it says
/// nothing, the reason stands in its place.
#[derive(Debug, PartialEq, Eq)]
pub struct BackingFileProbe {
    /// The canonical parent directory; absent where the path has no parent.
    pub canonical_parent: Option<Result<String, String>>,
    pub status: Result<BackingFileStatus, String>,
}

/// What a backing file below `root` is refused for, if anything.
pub open spec fn placement_refusal(root: Seq<char>, probe: BackingFileProbe) -> Option<
    OwnershipFault,
> {
    match probe.canonical_parent {
        None => Some(OwnershipFault::BackingFileOutsideOwnedRoot),
        Some(Err(reason)) => Some(OwnershipFault::Metadata(reason@)),
        Some(Ok(parent)) => {
            if !paths::paths_agree(parent@, root) {
                Some(OwnershipFault::BackingFileOutsideOwnedRoot)
            } else {
                match probe.status {
                    Err(reason) => Some(OwnershipFault::Metadata(reason@)),
                    Ok(status) => {
                        if !status.regular {
                            Some(OwnershipFault::BackingFileNotRegular)
                        } else {
                            None
                        }
                    },
                }
            }
        },
    }
}

fn check_placement(root: &str, probe: &BackingFileProbe) -> (result: Result<
    BackingFileStatus,
    DisposableOwnershipError,
>)
    ensures
        match result {
            Ok(status) => placement_refusal(root@, *probe) is None && probe.status
                == Result::<BackingFileStatus, String>::Ok(status),
            Err(e) => placement_refusal(root@, *probe) == Some(e@),
        },
{
    match &probe.canonical_parent {
        None => Err(DisposableOwnershipError::BackingFileOutsideOwnedRoot),
        Some(Err(reason)) => Err(DisposableOwnershipError::Metadata(reason.clone())),
        Some(Ok(parent)) => {
            if !same_path(parent.as_str(), root) {
                return Err(DisposableOwnershipError::BackingFileOutsideOwnedRoot);
            }
            match &probe.status {
                Err(reason) => Err(DisposableOwnershipError::Metadata(reason.clone())),
                Ok(status) => {
                    if !status.regular {
                        Err(DisposableOwnershipError::BackingFileNotRegular)
                    } else {
                        Ok(*status)
                    }
                },
            }
        },
    }
}

/// What taking over a backing file is refused for, if anything.
pub open spec fn takeover_refusal(
    loop_device: Seq<char>,
    canonical_root: Result<String, String>,
    probe: BackingFileProbe,
) -> Option<OwnershipFault> {
    if !paths::is_loop_path(loop_device) {
        Some(OwnershipFault::InvalidLoopDevice)
    } else {
        match canonical_root {
            Err(reason) => Some(OwnershipFault::Metadata(reason@)),
            Ok(root) => placement_refusal(root@, probe),
        }
    }
}

/// Freezes the identity of a loop device and its backing file before any mutation.
/// `canonical_root` is the canonical form of the owned directory.
pub fn capture_disposable_loop_ownership(
    loop_device: &str,
    backing_file: &str,
    canonical_root: &Result<String, String>,
    probe: &BackingFileProbe,
) -> (result: Result<DisposableLoopOwnershipProof, DisposableOwnershipError>)
    ensures
        match result {
            Ok(proof) => {
                &&& takeover_refusal(loop_device@, *canonical_root, *probe) is None
                &&& proof.loop_device@ == loop_device@
                &&& proof.backing_file@ == backing_file@
                &&& proof.backing_dev == probe.status->Ok_0.device
                &&& proof.backing_ino == probe.status->Ok_0.inode
                &&& proof.owned_root@ == canonical_root->Ok_0@
            },
            Err(e) => takeover_refusal(loop_device@, *canonical_root, *probe) == Some(e@),
        },
{
    if !valid_loop_path(loop_device) {
        return Err(DisposableOwnershipError::InvalidLoopDevice);
    }
    let root = match canonical_root {
        Ok(root) => root,
        Err(reason) => return Err(DisposableOwnershipError::Metadata(reason.clone())),
    };
    match check_placement(root.as_str(), probe) {
        Err(e) => Err(e),
        Ok(status) => Ok(
            DisposableLoopOwnershipProof {
                loop_device: loop_device.to_owned(),
                backing_file: backing_file.to_owned(),
                backing_dev: status.device,
                backing_ino: status.inode,
                owned_root: root.clone(),
            },
        ),
    }
}

/// What frozen ownership is refused for, if anything.
pub open spec fn ownership_refusal(
    frozen: DisposableLoopOwnershipProof,
    probe: BackingFileProbe,
) -> Option<OwnershipFault> {
    if !paths::is_loop_path(frozen.loop_device@) {
        Some(OwnershipFault::InvalidLoopDevice)
    } else {
        let placement = placement_refusal(frozen.owned_root@, probe);
        if placement is Some {
            placement
        } else if probe.status->Ok_0.device != frozen.backing_dev || probe.status->Ok_0.inode
            != frozen.backing_ino {
            Some(OwnershipFault::BackingFileIdentityChanged)
        } else {
            None
        }
    }
}

/// Compares frozen ownership with what the file system says now.
pub fn revalidate_disposable_loop_ownership(
    frozen: &DisposableLoopOwnershipProof,
    probe: &BackingFileProbe,
) -> (result: Result<(), DisposableOwnershipError>)
    ensures
        match result {
            Ok(_) => ownership_refusal(*frozen, *probe) is None,
            Err(e) => ownership_refusal(*frozen, *probe) == Some(e@),
        },
{
    if !valid_loop_path(frozen.loop_device.as_str()) {
        return Err(DisposableOwnershipError::InvalidLoopDevice);
    }
    match check_placement(frozen.owned_root.as_str(), probe) {
        Err(e) => Err(e),
        Ok(status) => {
            if status.device != frozen.backing_dev || status.inode != frozen.backing_ino {
                Err(DisposableOwnershipError::BackingFileIdentityChanged)
            } else {
                Ok(())
            }
        },
    }
}

/// What was captured is still valid as long as the file system says the same.
pub proof fn captured_ownership_revalidates(
    loop_device: Seq<char>,
    canonical_root: Result<String, String>,
    probe: BackingFileProbe,
    frozen: DisposableLoopOwnershipProof,
)
    requires
        takeover_refusal(loop_device, canonical_root, probe) is None,
        frozen.loop_device@ == loop_device,
        frozen.backing_dev == probe.status->Ok_0.device,
        frozen.backing_ino == probe.status->Ok_0.inode,
        frozen.owned_root@ == canonical_root->Ok_0@,
    ensures
        ownership_refusal(frozen, probe) is None,
{
}

/// A backing file is in its place exactly where its directory is known, is the owned root, and the
/// file is a regular one.
pub proof fn backing_file_lies_in_the_owned_root(root: Seq<char>, probe: BackingFileProbe)
    ensures
        placement_refusal(root, probe) is None <==> {
            &&& probe.canonical_parent matches Some(found)
            &&& found matches Ok(parent)
            &&& paths::paths_agree(parent@, root)
            &&& probe.status matches Ok(status)
            &&& status.regular
        },
{
}

/// Ownership stands exactly where the device is a whole loop device, the backing file is in its
/// place, and it is the very file that was taken over.
pub proof fn ownership_stands_for_the_same_file(
    frozen: DisposableLoopOwnershipProof,
    probe: BackingFileProbe,
    loop_device: Seq<char>,
    root: String,
)
    ensures
        ownership_refusal(frozen, probe) is None <==> {
            &&& paths::is_loop_path(frozen.loop_device@)
            &&& placement_refusal(frozen.owned_root@, probe) is None
            &&& probe.status matches Ok(status)
            &&& status.device == frozen.backing_dev
            &&& status.inode == frozen.backing_ino
        },
        takeover_refusal(loop_device, Ok(root), probe) is None <==> paths::is_loop_path(loop_device)
            && placement_refusal(root@, probe) is None,
        !paths::is_loop_path(loop_device) ==> takeover_refusal(loop_device, Ok(root), probe) == Some(
            OwnershipFault::InvalidLoopDevice,
        ),
{
}

} // verus!
