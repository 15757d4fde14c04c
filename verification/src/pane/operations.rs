//! The decisions of file operations: where a copy, move, rename or new
//! directory lands, the guard against transferring an entry onto or into
//! itself, and the disk-space check of a move that has to copy.
use vstd::prelude::*;

use crate::error::NcError;
use crate::platform::{file_size_text, format_file_size};
use crate::text::{
    concat, path_eq, path_file_name, path_join, path_parent, path_starts_with, spec_path_eq,
    spec_path_file_name, spec_path_join, spec_path_parent, spec_path_starts_with,
};

verus! {

/// Where an entry transferred into `target_dir` lands: the directory joined
/// with the entry's name.
pub fn transfer_dest(source: &str, target_dir: &str) -> (r: Result<String, NcError>)
    ensures
        match spec_path_file_name(source@) {
            Some(name) => r matches Ok(d) && d@ == spec_path_join(target_dir@, name),
            None => r matches Err(NcError::FileOperation(m)) && m@ == "Invalid source path"@,
        },
{
    match path_file_name(source) {
        Some(name) => Ok(path_join(target_dir, name.as_str())),
        None => Err(NcError::FileOperation(String::from_str("Invalid source path"))),
    }
}

/// The directory whose canonical form anchors a transfer's source: the
/// source's parent, or `.` for a bare name.
pub fn source_parent(source: &str) -> (r: String)
    ensures
        r@ == match spec_path_parent(source@) {
            Some(p) => if p.len() > 0 {
                p
            } else {
                "."@
            },
            None => "."@,
        },
{
    match path_parent(source) {
        Some(p) => {
            if p.as_str().is_empty() {
                String::from_str(".")
            } else {
                p
            }
        },
        None => String::from_str("."),
    }
}

/// What `ensure_safe_transfer` decides, given the canonical forms of the
/// source's parent and of the target directory.
pub open spec fn transfer_verdict(
    source: Seq<char>,
    src_parent: Result<Seq<char>, NcError>,
    target: Result<Seq<char>, NcError>,
    r: Result<(), NcError>,
) -> bool {
    match spec_path_file_name(source) {
        None => r matches Err(NcError::FileOperation(m)) && m@ == "Invalid source path"@,
        Some(name) => match src_parent {
            Err(e) => r == Err::<(), NcError>(e),
            Ok(sp) => match target {
                Err(e) => r == Err::<(), NcError>(e),
                Ok(t) => {
                    let src = spec_path_join(sp, name);
                    let dest = spec_path_join(t, name);
                    if spec_path_eq(dest, src) {
                        r matches Err(NcError::FileOperation(m)) && m@
                            == "source and destination are the same: "@ + src
                    } else if spec_path_starts_with(dest, src) {
                        r matches Err(NcError::FileOperation(m)) && m@ == "cannot transfer '"@
                            + source + "' into itself ('"@ + dest + "')"@
                    } else {
                        r is Ok
                    }
                },
            },
        },
    }
}

/// A transfer is refused whenever its destination (the target joined with
/// the source's name) lies under the source, component by component; this
/// includes the source itself.
pub proof fn lemma_transfer_into_itself_refused(
    source: Seq<char>,
    src_parent: Seq<char>,
    target: Seq<char>,
    r: Result<(), NcError>,
)
    requires
        transfer_verdict(source, Ok(src_parent), Ok(target), r),
        spec_path_file_name(source) is Some,
        spec_path_starts_with(
            spec_path_join(target, spec_path_file_name(source)->0),
            spec_path_join(src_parent, spec_path_file_name(source)->0),
        ),
    ensures
        r is Err,
{
}

/// A transfer whose names are fine, whose destination differs from the
/// source and does not lie under it goes ahead.
pub proof fn lemma_transfer_elsewhere_allowed(
    source: Seq<char>,
    src_parent: Seq<char>,
    target: Seq<char>,
    r: Result<(), NcError>,
)
    requires
        transfer_verdict(source, Ok(src_parent), Ok(target), r),
        spec_path_file_name(source) is Some,
        !spec_path_eq(
            spec_path_join(target, spec_path_file_name(source)->0),
            spec_path_join(src_parent, spec_path_file_name(source)->0),
        ),
        !spec_path_starts_with(
            spec_path_join(target, spec_path_file_name(source)->0),
            spec_path_join(src_parent, spec_path_file_name(source)->0),
        ),
    ensures
        r is Ok,
{
}

/// Refuse writing onto a destination that is the source itself under
/// another name (a symlink or hard link back to it): `source` and `dest` are
/// `(device, inode)` pairs, `dest` being `None` where nothing exists there
/// yet. Copying onto such a destination would truncate the source.
pub fn ensure_distinct_file(source: (u64, u64), dest: Option<(u64, u64)>) -> (r: Result<(), NcError>)
    ensures
        r is Ok <==> dest != Some(source),
        r matches Err(e) ==> (e matches NcError::FileOperation(m) && m@
            == "source and destination are the same file"@),
{
    match dest {
        Some(d) => if d.0 == source.0 && d.1 == source.1 {
            Err(NcError::FileOperation(String::from_str("source and destination are the same file")))
        } else {
            Ok(())
        },
        None => Ok(()),
    }
}

/// Refuse a transfer whose destination entry is the source itself or lies
/// inside a source directory (`cp`/`mv`-style guard). `src_parent` is the
/// canonical form of [`source_parent`] and `target` that of the target
/// directory (or the errors canonicalizing them gave).
pub fn ensure_safe_transfer(
    source: &str,
    src_parent: Result<String, NcError>,
    target: Result<String, NcError>,
) -> (r: Result<(), NcError>)
    ensures
        transfer_verdict(
            source@,
            match src_parent {
                Ok(s) => Ok(s@),
                Err(e) => Err(e),
            },
            match target {
                Ok(s) => Ok(s@),
                Err(e) => Err(e),
            },
            r,
        ),
{
    let name = match path_file_name(source) {
        Some(n) => n,
        None => return Err(NcError::FileOperation(String::from_str("Invalid source path"))),
    };
    let sp = match src_parent {
        Ok(s) => s,
        Err(e) => return Err(e),
    };
    let t = match target {
        Ok(s) => s,
        Err(e) => return Err(e),
    };
    let src = path_join(sp.as_str(), name.as_str());
    let dest = path_join(t.as_str(), name.as_str());
    if path_eq(dest.as_str(), src.as_str()) {
        return Err(
            NcError::FileOperation(concat("source and destination are the same: ", src.as_str())),
        );
    }
    if path_starts_with(dest.as_str(), src.as_str()) {
        let a = concat("cannot transfer '", source);
        let b = concat(a.as_str(), "' into itself ('");
        let c = concat(b.as_str(), dest.as_str());
        let m = concat(c.as_str(), "')");
        return Err(NcError::FileOperation(m));
    }
    Ok(())
}

/// The message when `needed` bytes do not fit into `free` bytes.
pub open spec fn shortfall_text(needed: u64, free: u64) -> Seq<char> {
    "not enough disk space: need "@ + file_size_text(needed as nat) + " but only "@
        + file_size_text(free as nat) + " available"@
}

/// `Some(message)` when `needed` bytes don't fit into `free` bytes.
pub fn space_shortfall(needed: u64, free: u64) -> (r: Option<String>)
    ensures
        needed > free <==> r is Some,
        r matches Some(m) ==> m@ == shortfall_text(needed, free),
{
    if needed > free {
        let a = concat("not enough disk space: need ", format_file_size(needed).as_str());
        let b = concat(a.as_str(), " but only ");
        let c = concat(b.as_str(), format_file_size(free).as_str());
        Some(concat(c.as_str(), " available"))
    } else {
        None
    }
}

/// Space check for a move's copy-and-delete fallback: an error only when
/// the destination's free space and the source's size are both known and
/// the source does not fit.
pub fn check_fallback_space(free: Option<u64>, needed: Option<u64>) -> (r: Result<(), NcError>)
    ensures
        match (free, needed) {
            (Some(f), Some(n)) => if n > f {
                r matches Err(NcError::FileOperation(m)) && m@ == shortfall_text(n, f)
            } else {
                r is Ok
            },
            _ => r is Ok,
        },
{
    let f = match free {
        Some(f) => f,
        None => return Ok(()),
    };
    let n = match needed {
        Some(n) => n,
        None => return Ok(()),
    };
    match space_shortfall(n, f) {
        Some(msg) => Err(NcError::FileOperation(msg)),
        None => Ok(()),
    }
}

/// Where renaming `source` to `new_name` lands: its parent joined with the
/// new name. The root cannot be renamed.
pub fn rename_target(source: &str, new_name: &str) -> (r: Result<String, NcError>)
    ensures
        match spec_path_parent(source@) {
            Some(p) => r matches Ok(d) && d@ == spec_path_join(p, new_name@),
            None => r matches Err(NcError::FileOperation(m)) && m@ == "Cannot rename root"@,
        },
{
    match path_parent(source) {
        Some(p) => Ok(path_join(p.as_str(), new_name)),
        None => Err(NcError::FileOperation(String::from_str("Cannot rename root"))),
    }
}

/// The path of a new directory `name` in `parent`.
pub fn mkdir_target(parent: &str, name: &str) -> (r: String)
    ensures
        r@ == spec_path_join(parent@, name@),
{
    path_join(parent, name)
}

} // verus!
