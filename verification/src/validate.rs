//! Request validation: confinement of a client-supplied script path to the
//! allowed script root, inspection of script content against a fixed
//! denylist of dangerous substrings, and sanitization of subprocess
//! arguments.
use vstd::prelude::*;
use vstd::string::StrSliceExecFns;
use vstd::string::StringExecFns;

use crate::text::contains_seq;
use crate::text::str_contains;

verus! {

/// A rejection produced while validating a provisioning request, before any
/// job is created.
#[derive(Clone, Copy, PartialEq, Eq, Structural, Debug)]
pub enum ValidationError {
    /// The path contains a parent-directory marker or is absolute.
    PathTraversal,
    /// The joined path does not lie within the allowed script root.
    OutsideRoot,
    /// The resolved script file does not exist.
    FileMissing,
    /// The resolved path exists but is not a regular file.
    NotRegularFile,
    /// The resolved file has no execute permission bit set.
    NotExecutable,
    /// The script content contains the denylisted substring at this index.
    DangerousPattern { index: usize },
}

/// How many substrings the denylist holds.
pub const DANGEROUS_PATTERN_COUNT: usize = 14;

/// The denylisted substring at a given index, in the order they are checked.
/// Every entry is matched literally, character by character; the two entries
/// written in a pattern-like shape are nonetheless plain substrings.
pub open spec fn pattern(i: int) -> Seq<char> {
    if i == 0 {
        "rm -rf /"@
    } else if i == 1 {
        "rm -rf /*"@
    } else if i == 2 {
        ":(){:|:&};:"@
    } else if i == 3 {
        "curl.*\\|.*sh"@
    } else if i == 4 {
        "wget.*\\|.*sh"@
    } else if i == 5 {
        "dd if=/dev/"@
    } else if i == 6 {
        "mkfs"@
    } else if i == 7 {
        "fdisk"@
    } else if i == 8 {
        "format"@
    } else if i == 9 {
        "/etc/passwd"@
    } else if i == 10 {
        "sudo"@
    } else if i == 11 {
        "su "@
    } else if i == 12 {
        "chmod 777"@
    } else {
        "chown"@
    }
}

/// The message reported when the denylisted substring at a given index is
/// found: the substring itself and its human-readable description.
pub open spec fn scan_message(i: int) -> Seq<char> {
    if i == 0 {
        "Blocked dangerous pattern: rm -rf / (Dangerous recursive delete)"@
    } else if i == 1 {
        "Blocked dangerous pattern: rm -rf /* (Dangerous recursive delete)"@
    } else if i == 2 {
        "Blocked dangerous pattern: :(){:|:&};: (Fork bomb detected)"@
    } else if i == 3 {
        "Blocked dangerous pattern: curl.*\\|.*sh (Piped execution from web)"@
    } else if i == 4 {
        "Blocked dangerous pattern: wget.*\\|.*sh (Piped execution from web)"@
    } else if i == 5 {
        "Blocked dangerous pattern: dd if=/dev/ (Direct disk access)"@
    } else if i == 6 {
        "Blocked dangerous pattern: mkfs (Filesystem creation)"@
    } else if i == 7 {
        "Blocked dangerous pattern: fdisk (Disk partitioning)"@
    } else if i == 8 {
        "Blocked dangerous pattern: format (Disk formatting)"@
    } else if i == 9 {
        "Blocked dangerous pattern: /etc/passwd (Access to password file)"@
    } else if i == 10 {
        "Blocked dangerous pattern: sudo (Privilege escalation)"@
    } else if i == 11 {
        "Blocked dangerous pattern: su  (User switching)"@
    } else if i == 12 {
        "Blocked dangerous pattern: chmod 777 (Dangerous permission change)"@
    } else {
        "Blocked dangerous pattern: chown (Ownership change)"@
    }
}

impl ValidationError {
    /// The human-readable reason carried by this rejection.
    pub open spec fn message_view(self) -> Seq<char> {
        match self {
            ValidationError::PathTraversal => "Invalid script path: path traversal detected"@,
            ValidationError::OutsideRoot => "Script path outside allowed directory"@,
            ValidationError::FileMissing => "Script file does not exist"@,
            ValidationError::NotRegularFile => "Path is not a regular file"@,
            ValidationError::NotExecutable => "Script is not executable"@,
            ValidationError::DangerousPattern { index } => scan_message(index as int),
        }
    }

    /// Render the rejection reason for the client.
    pub fn message(&self) -> (r: String)
        ensures
            r@ == self.message_view(),
    {
        match self {
            ValidationError::PathTraversal => String::from_str(
                "Invalid script path: path traversal detected",
            ),
            ValidationError::OutsideRoot => String::from_str(
                "Script path outside allowed directory",
            ),
            ValidationError::FileMissing => String::from_str("Script file does not exist"),
            ValidationError::NotRegularFile => String::from_str("Path is not a regular file"),
            ValidationError::NotExecutable => String::from_str("Script is not executable"),
            ValidationError::DangerousPattern { index } => match index {
                0 => String::from_str(
                    "Blocked dangerous pattern: rm -rf / (Dangerous recursive delete)",
                ),
                1 => String::from_str(
                    "Blocked dangerous pattern: rm -rf /* (Dangerous recursive delete)",
                ),
                2 => String::from_str("Blocked dangerous pattern: :(){:|:&};: (Fork bomb detected)"),
                3 => String::from_str(
                    "Blocked dangerous pattern: curl.*\\|.*sh (Piped execution from web)",
                ),
                4 => String::from_str(
                    "Blocked dangerous pattern: wget.*\\|.*sh (Piped execution from web)",
                ),
                5 => String::from_str("Blocked dangerous pattern: dd if=/dev/ (Direct disk access)"),
                6 => String::from_str("Blocked dangerous pattern: mkfs (Filesystem creation)"),
                7 => String::from_str("Blocked dangerous pattern: fdisk (Disk partitioning)"),
                8 => String::from_str("Blocked dangerous pattern: format (Disk formatting)"),
                9 => String::from_str(
                    "Blocked dangerous pattern: /etc/passwd (Access to password file)",
                ),
                10 => String::from_str("Blocked dangerous pattern: sudo (Privilege escalation)"),
                11 => String::from_str("Blocked dangerous pattern: su  (User switching)"),
                12 => String::from_str(
                    "Blocked dangerous pattern: chmod 777 (Dangerous permission change)",
                ),
                _ => String::from_str("Blocked dangerous pattern: chown (Ownership change)"),
            },
        }
    }
}

/// The path is rejected on shape alone: it contains a parent-directory
/// marker or begins with the root separator.
pub open spec fn has_traversal_shape(p: Seq<char>) -> bool {
    contains_seq(p, ".."@) || (p.len() > 0 && p[0] == '/')
}

/// The relative path joined onto the allowed script root.
pub open spec fn joined_path(root: Seq<char>, rel: Seq<char>) -> Seq<char> {
    root + "/"@ + rel
}

/// `path` lies within the directory `root`: it is `root` itself, or `root`
/// followed by a separator and more.
pub open spec fn path_within(path: Seq<char>, root: Seq<char>) -> bool {
    ||| path == root
    ||| (path.len() > root.len() && path.subrange(0, root.len() as int) == root && path[
        root.len() as int
    ] == '/')
}

/// Decide whether `path` lies within the directory `root`.
pub fn path_is_within(path: &str, root: &str) -> (r: bool)
    ensures
        r == path_within(path@, root@),
{
    let plen = path.unicode_len();
    let rlen = root.unicode_len();
    if plen < rlen {
        return false;
    }
    let mut i: usize = 0;
    while i < rlen
        invariant
            plen == path@.len(),
            rlen == root@.len(),
            rlen <= plen,
            i <= rlen,
            forall|k: int| 0 <= k < i ==> path@[k] == root@[k],
        decreases rlen - i,
    {
        if path.get_char(i) != root.get_char(i) {
            proof {
                assert(path@ != root@);
                if path@.len() > root@.len() {
                    assert(path@.subrange(0, root@.len() as int)[i as int] != root@[i as int]);
                }
            }
            return false;
        }
        i += 1;
    }
    if plen == rlen {
        proof {
            assert(path@ =~= root@);
        }
        true
    } else {
        proof {
            assert(path@.subrange(0, root@.len() as int) =~= root@);
        }
        path.get_char(rlen) == '/'
    }
}

/// Confine a client-supplied relative script path to the allowed script
/// root: reject traversal shapes before any joining, join onto the root,
/// and independently re-check that the joined path still lies within the
/// root.
pub fn validate_script_path(script_path: &str, allowed_dir: &str) -> (r: Result<
    String,
    ValidationError,
>)
    ensures
        match r {
            Ok(p) => {
                &&& !has_traversal_shape(script_path@)
                &&& p@ == joined_path(allowed_dir@, script_path@)
                &&& path_within(p@, allowed_dir@)
            },
            Err(e) => {
                &&& (e == ValidationError::PathTraversal || e == ValidationError::OutsideRoot)
                &&& (e == ValidationError::PathTraversal <==> has_traversal_shape(script_path@))
                &&& (e == ValidationError::OutsideRoot ==> !path_within(
                    joined_path(allowed_dir@, script_path@),
                    allowed_dir@,
                ))
            },
        },
{
    let starts_absolute = script_path.unicode_len() > 0 && script_path.get_char(0) == '/';
    if str_contains(script_path, "..") || starts_absolute {
        return Err(ValidationError::PathTraversal);
    }
    let joined = String::from_str(allowed_dir).concat("/").concat(script_path);
    if !path_is_within(joined.as_str(), allowed_dir) {
        return Err(ValidationError::OutsideRoot);
    }
    Ok(joined)
}

/// What the filesystem reports of the joined script path: whether anything
/// exists there, whether it is a regular file, and its permission bits.
#[derive(Clone, Copy, PartialEq, Eq, Structural, Debug)]
pub struct ScriptFileStatus {
    pub exists: bool,
    pub is_regular_file: bool,
    pub mode: u32,
}

/// Accept a script file only if it exists, is a regular file, and carries
/// at least one execute permission bit.
pub fn check_script_file_status(status: &ScriptFileStatus) -> (r: Result<(), ValidationError>)
    ensures
        r == if !status.exists {
            Err::<(), ValidationError>(ValidationError::FileMissing)
        } else if !status.is_regular_file {
            Err::<(), ValidationError>(ValidationError::NotRegularFile)
        } else if status.mode & 0o111 == 0 {
            Err::<(), ValidationError>(ValidationError::NotExecutable)
        } else {
            Ok::<(), ValidationError>(())
        },
{
    if !status.exists {
        return Err(ValidationError::FileMissing);
    }
    if !status.is_regular_file {
        return Err(ValidationError::NotRegularFile);
    }
    if status.mode & 0o111 == 0 {
        return Err(ValidationError::NotExecutable);
    }
    Ok(())
}

/// Scan script content against the denylist and reject on the first
/// substring found, in list order. Containment is literal substring
/// matching, never pattern evaluation.
pub fn scan_script_for_dangerous_patterns(script_content: &str) -> (r: Result<
    (),
    ValidationError,
>)
    ensures
        match r {
            Ok(_) => forall|i: int|
                0 <= i < DANGEROUS_PATTERN_COUNT ==> !contains_seq(script_content@, pattern(i)),
            Err(e) => (e matches ValidationError::DangerousPattern { index } && index
                < DANGEROUS_PATTERN_COUNT && contains_seq(script_content@, pattern(index as int))
                && (forall|j: int| 0 <= j < index ==> !contains_seq(script_content@, pattern(j)))),
        },
{
    if str_contains(script_content, "rm -rf /") {
        return Err(ValidationError::DangerousPattern { index: 0 });
    }
    if str_contains(script_content, "rm -rf /*") {
        return Err(ValidationError::DangerousPattern { index: 1 });
    }
    if str_contains(script_content, ":(){:|:&};:") {
        return Err(ValidationError::DangerousPattern { index: 2 });
    }
    if str_contains(script_content, "curl.*\\|.*sh") {
        return Err(ValidationError::DangerousPattern { index: 3 });
    }
    if str_contains(script_content, "wget.*\\|.*sh") {
        return Err(ValidationError::DangerousPattern { index: 4 });
    }
    if str_contains(script_content, "dd if=/dev/") {
        return Err(ValidationError::DangerousPattern { index: 5 });
    }
    if str_contains(script_content, "mkfs") {
        return Err(ValidationError::DangerousPattern { index: 6 });
    }
    if str_contains(script_content, "fdisk") {
        return Err(ValidationError::DangerousPattern { index: 7 });
    }
    if str_contains(script_content, "format") {
        return Err(ValidationError::DangerousPattern { index: 8 });
    }
    if str_contains(script_content, "/etc/passwd") {
        return Err(ValidationError::DangerousPattern { index: 9 });
    }
    if str_contains(script_content, "sudo") {
        return Err(ValidationError::DangerousPattern { index: 10 });
    }
    if str_contains(script_content, "su ") {
        return Err(ValidationError::DangerousPattern { index: 11 });
    }
    if str_contains(script_content, "chmod 777") {
        return Err(ValidationError::DangerousPattern { index: 12 });
    }
    if str_contains(script_content, "chown") {
        return Err(ValidationError::DangerousPattern { index: 13 });
    }
    Ok(())
}

/// A subprocess argument is rejected when it carries a parent-directory
/// marker, a statement separator, or a pipe character.
pub open spec fn arg_is_bad(a: Seq<char>) -> bool {
    ||| contains_seq(a, ".."@)
    ||| contains_seq(a, ";"@)
    ||| contains_seq(a, "|"@)
}

/// Decide whether every argument is acceptable for the subprocess.
/// Checked per argument; the first offender decides.
pub fn args_acceptable(args: &Vec<String>) -> (r: bool)
    ensures
        r == forall|i: int| 0 <= i < args@.len() ==> !arg_is_bad(args@[i]@),
{
    let n = args.len();
    let mut i: usize = 0;
    while i < n
        invariant
            n == args@.len(),
            i <= n,
            forall|k: int| 0 <= k < i ==> !arg_is_bad(args@[k]@),
        decreases n - i,
    {
        let a = &args[i];
        if str_contains(a.as_str(), "..") || str_contains(a.as_str(), ";") || str_contains(
            a.as_str(),
            "|",
        ) {
            return false;
        }
        i += 1;
    }
    true
}

} // verus!
