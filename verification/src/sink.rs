//! Whether the output of an encode may be written to a path.

use vstd::prelude::*;

verus! {

/// What is at a path.
#[derive(Debug, Copy, Clone, PartialEq, Eq, Hash, Structural)]
pub struct PathMeta {
    /// Whether it is a directory.
    pub is_dir: bool,
    /// Whether it is a symbolic link.
    pub is_symlink: bool,
    /// Whether it may not be written.
    pub readonly: bool,
}

/// Why a path cannot take the output.
#[derive(Debug, Copy, Clone, PartialEq, Eq, Hash, Structural)]
pub enum PathError {
    /// The path is a directory.
    IsADirectory,
    /// Something is at the path and overwriting was not asked for.
    AlreadyExists,
    /// The path is a symbolic link, which is never overwritten.
    Symlink,
    /// What is at the path may not be written.
    PermissionDenied,
}

/// Whether an output may go to a path at which `meta` is, `None` for
/// nothing. A free path is always fine. A directory never is. Anything else
/// needs `overwrite`, and then must be no symbolic link and writable.
pub open spec fn path_verdict(meta: Option<PathMeta>, overwrite: bool) -> Result<(), PathError> {
    match meta {
        None => Ok(()),
        Some(meta) => if meta.is_dir {
            Err(PathError::IsADirectory)
        } else if !overwrite {
            Err(PathError::AlreadyExists)
        } else if meta.is_symlink {
            Err(PathError::Symlink)
        } else if meta.readonly {
            Err(PathError::PermissionDenied)
        } else {
            Ok(())
        },
    }
}

/// Decides whether an output may go to a path, from what the host found
/// there: `None` where it found nothing.
pub fn ensure_file_inexist(meta: Option<PathMeta>, overwrite: bool) -> (r: Result<(), PathError>)
    ensures
        r == path_verdict(meta, overwrite),
{
    let meta = match meta {
        Some(meta) => meta,
        None => {
            return Ok(());
        },
    };
    if meta.is_dir {
        return Err(PathError::IsADirectory);
    }
    if !overwrite {
        return Err(PathError::AlreadyExists);
    }
    if meta.is_symlink {
        return Err(PathError::Symlink);
    }
    if meta.readonly {
        return Err(PathError::PermissionDenied);
    }
    Ok(())
}

} // verus!
